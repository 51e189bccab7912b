//! The reserve authority: an address that the protocol controls without a
//! private key.
//!
//! The address is derived from a seed and the identity of a program,
//! together with a bump, the small number that makes the derivation valid.
//! Presented with the seed, the bump is the proof by which the host lets the
//! program sign for the address.

use vstd::prelude::*;
use anchor_lang::prelude::Pubkey;
use crate::address::{program_id, program_id_bytes, Address};

verus! {

/// A derived address and the bump that derives it.
#[derive(Clone, Copy, Debug, PartialEq, Eq)]
pub struct Authority {
    pub address: Address,
    pub bump: u8,
}

/// The seed of the reserve authority: the bytes of the word "protocol".
pub open spec fn protocol_seed_bytes() -> Seq<u8> {
    seq![112u8, 114u8, 111u8, 116u8, 111u8, 99u8, 111u8, 108u8]
}

/// The seed of the reserve authority.
pub fn protocol_seed() -> (seed: [u8; 8])
    ensures
        seed@ == protocol_seed_bytes(),
{
    let seed: [u8; 8] = [112, 114, 111, 116, 111, 99, 111, 108];
    assert(seed@ =~= protocol_seed_bytes());
    seed
}

/// The address and bump that the host's derivation gives for the single
/// seed `seed` under the program `program`, where it gives any.
pub uninterp spec fn program_address(seed: Seq<u8>, program: Seq<u8>) -> Option<(Seq<u8>, u8)>;

/// Whether `result` is what the derivation gives for `seed` under `program`.
pub open spec fn derives(seed: Seq<u8>, program: Seq<u8>, result: Option<Authority>) -> bool {
    match result {
        Some(authority) => program_address(seed, program) == Some(
            (authority.address@, authority.bump),
        ),
        None => program_address(seed, program) is None,
    }
}

/// Calls `Pubkey::try_find_program_address` with the one seed `seed` and the
/// program `program`. The function searches the bumps from the highest down
/// and returns the first address that is valid, with its bump, or `None`
/// where it finds none; it depends on its arguments alone, and the contract
/// gives its result a name.
#[verifier::external_body]
fn try_find_program_address(seed: &[u8], program: &Address) -> (r: Option<Authority>)
    ensures
        match r {
            Some(authority) => program_address(seed@, program@) == Some(
                (authority.address@, authority.bump),
            ),
            None => program_address(seed@, program@) is None,
        },
{
    match Pubkey::try_find_program_address(&[seed], &Pubkey::new_from_array(program.bytes)) {
        Some((key, bump)) => Some(Authority { address: Address { bytes: key.to_bytes() }, bump }),
        None => None,
    }
}

/// Derives the address that `program` controls under `seed`, and its bump.
pub fn derive_authority(seed: &[u8], program: &Address) -> (r: Option<Authority>)
    ensures
        derives(seed@, program@, r),
{
    try_find_program_address(seed, program)
}

/// Derives the reserve authority of this protocol.
pub fn reserve_authority() -> (r: Option<Authority>)
    ensures
        derives(protocol_seed_bytes(), program_id_bytes(), r),
{
    let seed = protocol_seed();
    let program = program_id();
    derive_authority(seed.as_slice(), &program)
}

/// Derivation is deterministic: any two results for the same seed and the
/// same program are the same address and the same bump.
pub proof fn lemma_derivation_deterministic(
    seed: Seq<u8>,
    program: Seq<u8>,
    first: Option<Authority>,
    second: Option<Authority>,
)
    requires
        derives(seed, program, first),
        derives(seed, program, second),
    ensures
        first == second,
{
    if let Some(a) = first {
        let b = second->Some_0;
        Address::lemma_view_injective(a.address, b.address);
    }
}

} // verus!
