//! Deterministic tip jar addresses, derived from the owner's key.
use anchor_lang::prelude::Pubkey;
use vstd::prelude::*;

use crate::key::Key;

verus! {

/// The address and bump seed that the search for a program-derived address
/// returns for `seeds` under `program_id`.
pub uninterp spec fn searched_address(seeds: Seq<Seq<u8>>, program_id: Seq<u8>) -> Option<(Seq<u8>, u8)>;

/// The program-derived address of `seeds` (bump seed included) under
/// `program_id`, or `None` where those seeds give no valid address.
pub uninterp spec fn program_address(seeds: Seq<Seq<u8>>, program_id: Seq<u8>) -> Option<Seq<u8>>;

/// Relies on `Pubkey::try_find_program_address`: it tries bump seeds from 255
/// down and returns the first address that `create_program_address` accepts
/// for the seeds with that bump appended.
#[verifier::external_body]
fn find_address(tag: &Vec<u8>, owner: &Key, program_id: &Key) -> (r: Option<(Key, u8)>)
    ensures
        match r {
            Some((a, b)) => searched_address(seq![tag@, owner@], program_id@) == Some((a@, b))
                && program_address(seq![tag@, owner@, seq![b]], program_id@) == Some(a@),
            None => searched_address(seq![tag@, owner@], program_id@) is None,
        },
{
    let seeds: [&[u8]; 2] = [tag.as_slice(), &owner.bytes];
    let program = Pubkey::new_from_array(program_id.bytes);
    Pubkey::try_find_program_address(&seeds, &program).map(|(a, b)| (Key { bytes: a.to_bytes() }, b))
}

/// Relies on `Pubkey::create_program_address`: the address of the seeds with
/// the bump appended, or an error where they give none.
#[verifier::external_body]
fn create_address(tag: &Vec<u8>, owner: &Key, bump: u8, program_id: &Key) -> (r: Option<Key>)
    ensures
        match r {
            Some(a) => program_address(seq![tag@, owner@, seq![bump]], program_id@) == Some(a@),
            None => program_address(seq![tag@, owner@, seq![bump]], program_id@) is None,
        },
{
    let bump_seed: [u8; 1] = [bump];
    let seeds: [&[u8]; 3] = [tag.as_slice(), &owner.bytes, &bump_seed];
    let program = Pubkey::new_from_array(program_id.bytes);
    Pubkey::create_program_address(&seeds, &program).ok().map(|a| Key { bytes: a.to_bytes() })
}

/// The domain tag that separates tip jar addresses from other derived
/// addresses of the program: the bytes of "tipjar".
pub open spec fn tip_jar_tag() -> Seq<u8> {
    seq![116u8, 105u8, 112u8, 106u8, 97u8, 114u8]
}

fn tag_bytes() -> (r: Vec<u8>)
    ensures
        r@ == tip_jar_tag(),
{
    let r = vec![116u8, 105u8, 112u8, 106u8, 97u8, 114u8];
    assert(r@ =~= tip_jar_tag());
    r
}

/// The tip jar address of `owner` and its bump seed, as the search gives them.
pub open spec fn derived_tip_jar(owner: Seq<u8>, program_id: Seq<u8>) -> Option<(Seq<u8>, u8)> {
    searched_address(seq![tip_jar_tag(), owner], program_id)
}

/// Whether `address` is the tip jar address of `owner` recomputed with `bump`.
pub open spec fn is_tip_jar_address(address: Seq<u8>, owner: Seq<u8>, bump: u8, program_id: Seq<u8>) -> bool {
    program_address(seq![tip_jar_tag(), owner, seq![bump]], program_id) == Some(address)
}

/// Derives the tip jar address of `owner` and the bump seed to store with it.
pub fn derive_tip_jar_address(owner: &Key, program_id: &Key) -> (r: Option<(Key, u8)>)
    ensures
        match r {
            Some((a, b)) => derived_tip_jar(owner@, program_id@) == Some((a@, b))
                && is_tip_jar_address(a@, owner@, b, program_id@),
            None => derived_tip_jar(owner@, program_id@) is None,
        },
{
    let tag = tag_bytes();
    find_address(&tag, owner, program_id)
}

/// Recomputes the tip jar address of `owner` from the stored `bump` and
/// compares it with `address`.
pub fn check_tip_jar_address(address: &Key, owner: &Key, bump: u8, program_id: &Key) -> (r: bool)
    ensures
        r == is_tip_jar_address(address@, owner@, bump, program_id@),
{
    let tag = tag_bytes();
    match create_address(&tag, owner, bump, program_id) {
        Some(a) => a.same_as(address),
        None => false,
    }
}

/// Derivation is repeatable: two derivations for the same owner and program
/// give the same address and bump.
pub proof fn lemma_derivation_repeatable(owner: Seq<u8>, program_id: Seq<u8>, a1: Seq<u8>, b1: u8, a2: Seq<u8>, b2: u8)
    requires
        derived_tip_jar(owner, program_id) == Some((a1, b1)),
        derived_tip_jar(owner, program_id) == Some((a2, b2)),
    ensures
        a1 == a2,
        b1 == b2,
{
}

} // verus!
