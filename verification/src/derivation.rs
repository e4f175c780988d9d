//! How a vault's address is derived from its user's identity.

use crate::address::Address;
use anchor_lang::prelude::Pubkey;
use vstd::prelude::*;

verus! {

/// The namespace tag that starts every vault's seeds: the bytes of `vault`.
pub const VAULT_TAG: [u8; 5] = [118, 97, 117, 108, 116];

/// The address of the program that owns the vaults.
pub const PROGRAM_ID: [u8; 32] = [
    151, 23, 186, 36, 251, 26, 169, 41, 57, 122, 148, 211, 180, 141, 202, 118,
    160, 158, 99, 129, 157, 237, 239, 168, 220, 10, 234, 139, 73, 74, 219, 76,
];

/// The longest seed that an address can be derived from.
pub const MAX_SEED_LEN: usize = 32;

/// The address that `seeds` derive under `program_id`, where they derive one:
/// `Some` of its 32 bytes where `Pubkey::create_program_address` returns `Ok`,
/// `None` where it returns an error (the hash of the seeds lies on the curve
/// of the signing keys, or the seeds are too many or too long).
pub uninterp spec fn program_address(seeds: Seq<Seq<u8>>, program_id: Seq<u8>) -> Option<Seq<u8>>;

/// `seeds` followed by the one-byte seed `bump`.
pub open spec fn with_bump(seeds: Seq<Seq<u8>>, bump: u8) -> Seq<Seq<u8>> {
    seeds.push(seq![bump])
}

/// The largest bump from 1 to `limit` with which `seeds` derive an address,
/// together with that address; `None` where no bump in that range derives
/// one. The bump 0 is never used.
pub open spec fn largest_bump(seeds: Seq<Seq<u8>>, program_id: Seq<u8>, limit: u8) -> Option<
    (Seq<u8>, u8),
>
    decreases limit,
{
    if limit == 0 {
        None
    } else {
        match program_address(with_bump(seeds, limit), program_id) {
            Some(address) => Some((address, limit)),
            None => largest_bump(seeds, program_id, (limit - 1) as u8),
        }
    }
}

/// The canonical derived address of `seeds` and its bump: of all the bumps
/// with which the seeds derive an address, the largest.
pub open spec fn canonical_program_address(seeds: Seq<Seq<u8>>, program_id: Seq<u8>) -> Option<
    (Seq<u8>, u8),
> {
    largest_bump(seeds, program_id, u8::MAX)
}

/// The seeds of the vault of `user`: the tag, then the user's address.
pub open spec fn vault_seeds(user: Seq<u8>) -> Seq<Seq<u8>> {
    seq![VAULT_TAG@, user]
}

/// The address and canonical bump of the vault of `user`, where some bump
/// derives an address from the user's seeds.
pub open spec fn vault_derivation(user: Seq<u8>) -> Option<(Seq<u8>, u8)> {
    canonical_program_address(vault_seeds(user), PROGRAM_ID@)
}

/// `r` is what deriving the vault of `user` gives: the vault's address and
/// canonical bump, or nothing where no bump derives an address.
pub open spec fn derives(user: Address, r: Option<(Address, u8)>) -> bool {
    match r {
        Some((address, bump)) => vault_derivation(user@) == Some((address@, bump)),
        None => vault_derivation(user@) is None,
    }
}

/// The address that the seeds of the vault of `user` derive with `bump`, if
/// they derive one.
pub open spec fn signer_address(user: Seq<u8>, bump: u8) -> Option<Seq<u8>> {
    program_address(with_bump(vault_seeds(user), bump), PROGRAM_ID@)
}

/// `largest_bump` is what its name says: the bump it gives derives the
/// address it gives, no larger bump up to `limit` derives any, and where it
/// gives nothing no bump from 1 to `limit` derives an address.
pub proof fn lemma_largest_bump(seeds: Seq<Seq<u8>>, program_id: Seq<u8>, limit: u8)
    ensures
        match largest_bump(seeds, program_id, limit) {
            Some((address, bump)) => {
                &&& 1 <= bump <= limit
                &&& program_address(with_bump(seeds, bump), program_id) == Some(address)
                &&& forall|b: u8|
                    bump < b <= limit ==> program_address(
                        #[trigger] with_bump(seeds, b),
                        program_id,
                    ) is None
            },
            None => forall|b: u8|
                1 <= b <= limit ==> program_address(#[trigger] with_bump(seeds, b), program_id)
                    is None,
        },
    decreases limit,
{
    if limit > 0 {
        lemma_largest_bump(seeds, program_id, (limit - 1) as u8);
    }
}

/// Calls `Pubkey::create_program_address` on the three seeds `first`,
/// `second` and the single byte `bump`. Trusted: the call depends on its
/// arguments alone, so that its result has a name; an address it returns is
/// the one that `program_address` names for these seeds, and where it
/// returns an error `program_address` names none.
#[verifier::external_body]
fn create_program_address(first: &[u8], second: &[u8], bump: u8, program_id: &Address) -> (r:
    Option<Address>)
    ensures
        match r {
            Some(address) => program_address(with_bump(seq![first@, second@], bump), program_id@)
                == Some(address@),
            None => program_address(with_bump(seq![first@, second@], bump), program_id@) is None,
        },
{
    let program = Pubkey::new_from_array(program_id.bytes);
    match Pubkey::create_program_address(&[first, second, &[bump]], &program) {
        Ok(key) => Some(Address { bytes: key.to_bytes() }),
        Err(_) => None,
    }
}

/// Calls `Pubkey::try_find_program_address` on the two seeds `first` and
/// `second`. Trusted: for seeds of at most `MAX_SEED_LEN` bytes each, the
/// call returns the address that `Pubkey::create_program_address` derives
/// from them with the largest bump from 1 to 255 that derives one, and that
/// bump; `None` where no bump in that range derives an address.
#[verifier::external_body]
fn try_find_program_address(first: &[u8], second: &[u8], program_id: &Address) -> (r: Option<
    (Address, u8),
>)
    requires
        first@.len() <= MAX_SEED_LEN,
        second@.len() <= MAX_SEED_LEN,
    ensures
        match r {
            Some((address, bump)) => canonical_program_address(
                seq![first@, second@],
                program_id@,
            ) == Some((address@, bump)),
            None => canonical_program_address(seq![first@, second@], program_id@) is None,
        },
{
    let program = Pubkey::new_from_array(program_id.bytes);
    match Pubkey::try_find_program_address(&[first, second], &program) {
        Some((key, bump)) => Some((Address { bytes: key.to_bytes() }, bump)),
        None => None,
    }
}

/// The address of the program that owns the vaults.
pub fn program_id() -> (r: Address)
    ensures
        r.bytes == PROGRAM_ID,
{
    Address { bytes: PROGRAM_ID }
}

/// Derives the vault of `user`: its address and its canonical bump.
pub fn derive_vault_address(user: &Address) -> (r: Option<(Address, u8)>)
    ensures
        derives(*user, r),
{
    try_find_program_address(&VAULT_TAG, &user.bytes, &program_id())
}

/// Derives the address that the vault's seeds give with `bump`, without a
/// search.
pub fn derive_signer_address(user: &Address, bump: u8) -> (r: Option<Address>)
    ensures
        match r {
            Some(address) => signer_address(user@, bump) == Some(address@),
            None => signer_address(user@, bump) is None,
        },
{
    create_program_address(&VAULT_TAG, &user.bytes, bump, &program_id())
}

} // verus!
