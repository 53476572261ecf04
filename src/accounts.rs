use vstd::prelude::*;
use crate::error::MetaBricksError;

verus! {

/// An account record as the runtime hands it over: its identity, the program
/// that owns it, whether it signed, and its bytes.
#[derive(Clone, Debug)]
pub struct AccountRef {
    pub key: [u8; 32],
    pub owner: [u8; 32],
    pub is_signer: bool,
    pub data: Vec<u8>,
}

/// The address and bump seed that `seeds` and a program id derive.
pub uninterp spec fn program_address_of(seeds: Seq<Seq<u8>>, program_id: Seq<u8>) -> Option<(Seq<u8>, u8)>;

/// Relies on solana_program's `Pubkey::try_find_program_address`: the
/// derived address and its bump seed, or `None` where no bump gives an
/// address off the curve; a function of the seeds and the program id alone.
#[verifier::external_body]
fn find_program_address(seeds: &Vec<Vec<u8>>, program_id: &[u8; 32]) -> (r: Option<([u8; 32], u8)>)
    ensures
        match program_address_of(seeds.deep_view(), program_id@) {
            Some((a, bump)) => r matches Some((k, b)) && k@ == a && b == bump,
            None => r is None,
        },
{
    let refs: Vec<&[u8]> = seeds.iter().map(|s| s.as_slice()).collect();
    let program = solana_program::pubkey::Pubkey::new_from_array(*program_id);
    solana_program::pubkey::Pubkey::try_find_program_address(&refs, &program).map(
        |(k, b)| (k.to_bytes(), b),
    )
}

/// The seed of the program state record: the bytes of "program_state".
pub open spec fn state_seed() -> Seq<u8> {
    seq![112u8, 114, 111, 103, 114, 97, 109, 95, 115, 116, 97, 116, 101]
}

/// The seed that leads every purchase record: the bytes of "brick".
pub open spec fn brick_seed() -> Seq<u8> {
    seq![98u8, 114, 105, 99, 107]
}

/// The seeds of the program state record.
pub open spec fn state_seeds() -> Seq<Seq<u8>> {
    seq![state_seed()]
}

/// The seeds of a brick's purchase record: "brick" and the id's four
/// little-endian bytes.
pub open spec fn brick_seeds(brick_id: u32) -> Seq<Seq<u8>> {
    seq![brick_seed(), vstd::bytes::spec_u32_to_le_bytes(brick_id)]
}

pub fn make_state_seeds() -> (r: Vec<Vec<u8>>)
    ensures
        r.deep_view() == state_seeds(),
{
    let seed: Vec<u8> = vec![112u8, 114, 111, 103, 114, 97, 109, 95, 115, 116, 97, 116, 101];
    let mut r: Vec<Vec<u8>> = Vec::new();
    assert(seed.deep_view() =~= state_seed());
    r.push(seed);
    assert(r.deep_view()[0] == state_seed());
    assert(r.deep_view() =~= state_seeds());
    r
}

pub fn make_brick_seeds(brick_id: u32) -> (r: Vec<Vec<u8>>)
    ensures
        r.deep_view() == brick_seeds(brick_id),
{
    let seed: Vec<u8> = vec![98u8, 114, 105, 99, 107];
    let id = vstd::bytes::u32_to_le_bytes(brick_id);
    let mut r: Vec<Vec<u8>> = Vec::new();
    assert(seed.deep_view() =~= brick_seed());
    assert(id.deep_view() =~= id@);
    r.push(seed);
    r.push(id);
    assert(r.deep_view()[0] == brick_seed());
    assert(r.deep_view()[1] == vstd::bytes::spec_u32_to_le_bytes(brick_id));
    assert(r.deep_view() =~= brick_seeds(brick_id));
    r
}

/// The address derived from `seeds` is `key`.
pub open spec fn derives_key(seeds: Seq<Seq<u8>>, program_id: Seq<u8>, key: Seq<u8>) -> bool {
    program_address_of(seeds, program_id) matches Some((a, _)) && a == key
}

/// Derives the address of `seeds` and compares it with `key`; gives the
/// bump seed where they agree.
pub fn check_derivation(seeds: &Vec<Vec<u8>>, program_id: &[u8; 32], key: &[u8; 32]) -> (r: Result<
    u8,
    MetaBricksError,
>)
    ensures
        match program_address_of(seeds.deep_view(), program_id@) {
            Some((a, bump)) => if a == key@ {
                r == Ok::<u8, MetaBricksError>(bump)
            } else {
                r == Err::<u8, MetaBricksError>(MetaBricksError::InvalidDerivation)
            },
            None => r == Err::<u8, MetaBricksError>(MetaBricksError::InvalidDerivation),
        },
{
    match find_program_address(seeds, program_id) {
        Some((address, bump)) => {
            if crate::ledger::same_key(&address, key) {
                Ok(bump)
            } else {
                Err(MetaBricksError::InvalidDerivation)
            }
        },
        None => Err(MetaBricksError::InvalidDerivation),
    }
}

} // verus!
