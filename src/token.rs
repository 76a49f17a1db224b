//! Token asset records, read as raw bytes: bytes 0..32 hold the mint (the
//! asset type) and bytes 32..64 the record's owner. Both token programs lay
//! these fields out the same way.
use vstd::prelude::*;

use crate::error::CustomError;
use crate::key::Key;

verus! {

/// A token asset record as handed in: its address and its raw data.
#[derive(Clone, PartialEq, Eq, Debug)]
pub struct TokenRecord {
    pub key: Key,
    pub data: Vec<u8>,
}

/// Bytes a record needs to hold the mint and owner fields.
pub const TOKEN_FIELDS_LEN: usize = 64;

/// The 32 bytes of `data` from `offset` on.
pub open spec fn field_at(data: Seq<u8>, offset: int) -> Seq<u8> {
    data.subrange(offset, offset + 32)
}

/// The mint field of a record that is long enough.
pub open spec fn mint_of(data: Seq<u8>) -> Seq<u8> {
    field_at(data, 0)
}

/// The owner field of a record that is long enough.
pub open spec fn owner_of(data: Seq<u8>) -> Seq<u8> {
    field_at(data, 32)
}

/// Whether `data` holds both fields and its mint is `mint`.
pub open spec fn has_mint(data: Seq<u8>, mint: Seq<u8>) -> bool {
    data.len() >= TOKEN_FIELDS_LEN && mint_of(data) == mint
}

/// The three records are all of `mint`, and the donor's record is owned by the donor.
pub open spec fn token_records_valid(
    donor: Seq<u8>,
    donor_record: Seq<u8>,
    fee_record: Seq<u8>,
    jar_record: Seq<u8>,
    mint: Seq<u8>,
) -> bool {
    &&& has_mint(donor_record, mint)
    &&& has_mint(fee_record, mint)
    &&& has_mint(jar_record, mint)
    &&& owner_of(donor_record) == donor
}

/// Reads the 32-byte field of `data` at `offset`.
pub fn read_field(data: &Vec<u8>, offset: usize) -> (r: Key)
    requires
        offset + 32 <= data@.len(),
    ensures
        r@ == field_at(data@, offset as int),
{
    let mut bytes: [u8; 32] = [0u8; 32];
    let n = data.len();
    let mut i: usize = 0;
    while i < 32
        invariant
            i <= 32,
            n == data@.len(),
            offset + 32 <= n,
            bytes@.len() == 32,
            forall|j: int| 0 <= j < i ==> bytes@[j] == data@[offset + j],
        decreases 32 - i,
    {
        bytes[i] = data[offset + i];
        i = i + 1;
    }
    let r = Key { bytes };
    assert(r@ =~= field_at(data@, offset as int));
    r
}

/// Whether `data` is long enough and its mint field is `mint`.
pub fn check_mint(data: &Vec<u8>, mint: &Key) -> (r: bool)
    ensures
        r == has_mint(data@, mint@),
{
    if data.len() < TOKEN_FIELDS_LEN {
        return false;
    }
    read_field(data, 0).same_as(mint)
}

/// Authenticates the donor's, the fee recipient's and the tip jar's asset
/// records before any value moves.
pub fn check_token_records(
    donor: &Key,
    donor_record: &TokenRecord,
    fee_record: &TokenRecord,
    jar_record: &TokenRecord,
    mint: &Key,
) -> (r: Result<(), CustomError>)
    ensures
        r is Ok <==> token_records_valid(
            donor@,
            donor_record.data@,
            fee_record.data@,
            jar_record.data@,
            mint@,
        ),
        r matches Err(e) ==> e == CustomError::Unauthorized,
{
    if !check_mint(&donor_record.data, mint) || !check_mint(&fee_record.data, mint) || !check_mint(
        &jar_record.data,
        mint,
    ) {
        return Err(CustomError::Unauthorized);
    }
    if !read_field(&donor_record.data, 32).same_as(donor) {
        return Err(CustomError::Unauthorized);
    }
    Ok(())
}

} // verus!
