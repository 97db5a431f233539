//! The aggregator record: an 8-byte discriminator, then a packed record whose
//! latest confirmed round carries the price as a decimal.

use crate::region::{
    copy_in, lemma_signed_round_trip, load_account_as_mut, put_u128, put_u32, put_u64, splice, u128_at, u32_at, u64_at,
    with_u128, with_u32, with_u64, OracleError,
};
use vstd::bytes::*;
use vstd::prelude::*;

verus! {

/// Bytes of the tag that precedes the record.
pub const DISCRIMINATOR_SIZE: usize = 8;
/// Bytes of the packed aggregator record that follows the tag.
pub const AGGREGATOR_ACCOUNT_SIZE: usize = 3843;

// Offsets in the region (tag included) of the fields a price update writes,
// from the packed layout of the record that follows the tag.
pub const MIN_ORACLE_RESULTS_AT: usize = 236;
pub const NUM_SUCCESS_AT: usize = 341;
pub const ROUND_OPEN_SLOT_AT: usize = 350;
pub const MANTISSA_AT: usize = 366;
pub const SCALE_AT: usize = 382;

/// The tag that marks a region as an aggregator record.
pub open spec fn discriminator() -> Seq<u8> {
    seq![217u8, 230, 65, 101, 201, 162, 27, 125]
}

/// An aggregator region after a price update: at least one oracle result
/// required, one success in the latest confirmed round, the price widened to
/// a 128-bit mantissa, the exponent as the scale, and `slot` as the slot the
/// round opened at.
pub open spec fn aggregator_priced(s: Seq<u8>, price: i64, expo: i32, slot: u64) -> Seq<u8> {
    let s = with_u32(s, MIN_ORACLE_RESULTS_AT as int, 1);
    let s = with_u32(s, NUM_SUCCESS_AT as int, 1);
    let s = with_u128(s, MANTISSA_AT as int, (price as i128) as u128);
    let s = with_u32(s, SCALE_AT as int, expo as u32);
    with_u64(s, ROUND_OPEN_SLOT_AT as int, slot)
}

/// `min_oracle_results` of an aggregator region.
pub open spec fn min_oracle_results(s: Seq<u8>) -> u32 {
    u32_at(s, MIN_ORACLE_RESULTS_AT as int)
}

/// `num_success` of the latest confirmed round.
pub open spec fn num_success(s: Seq<u8>) -> u32 {
    u32_at(s, NUM_SUCCESS_AT as int)
}

/// The mantissa of the latest confirmed round's result.
pub open spec fn mantissa(s: Seq<u8>) -> i128 {
    u128_at(s, MANTISSA_AT as int) as i128
}

/// The scale of the latest confirmed round's result.
pub open spec fn scale(s: Seq<u8>) -> u32 {
    u32_at(s, SCALE_AT as int)
}

/// The slot at which the latest confirmed round opened.
pub open spec fn round_open_slot(s: Seq<u8>) -> u64 {
    u64_at(s, ROUND_OPEN_SLOT_AT as int)
}

/// Stamps the discriminator on the first 8 bytes of `region` and leaves the
/// rest alone. A region shorter than the tag is refused and left as it was.
pub fn init_switchboard(region: &mut Vec<u8>) -> (r: Result<(), OracleError>)
    ensures
        r is Ok <==> old(region)@.len() >= DISCRIMINATOR_SIZE,
        r is Ok ==> final(region)@ == splice(old(region)@, 0, discriminator()),
        r is Err ==> r == Err::<(), OracleError>(OracleError::SizeMismatch),
        r is Err ==> final(region)@ == old(region)@,
{
    if load_account_as_mut(region, 0, DISCRIMINATOR_SIZE).is_err() {
        return Err(OracleError::SizeMismatch);
    }
    let tag: Vec<u8> = vec![217u8, 230, 65, 101, 201, 162, 27, 125];
    assert(tag@ =~= discriminator());
    copy_in(region, 0, tag.as_slice());
    Ok(())
}

/// Records `price` with exponent `expo`, observed at `slot`, as the latest
/// confirmed round of the aggregator record that follows the tag. The whole
/// round result is written in one go; no other byte changes. A region too
/// small for the tag and the record is refused and left as it was.
pub fn set_switchboard_price(region: &mut Vec<u8>, price: i64, expo: i32, slot: u64) -> (r: Result<
    (),
    OracleError,
>)
    ensures
        r is Ok <==> old(region)@.len() >= DISCRIMINATOR_SIZE + AGGREGATOR_ACCOUNT_SIZE,
        r is Ok ==> final(region)@ == aggregator_priced(old(region)@, price, expo, slot),
        r is Err ==> r == Err::<(), OracleError>(OracleError::SizeMismatch),
        r is Err ==> final(region)@ == old(region)@,
{
    if load_account_as_mut(region, DISCRIMINATOR_SIZE, AGGREGATOR_ACCOUNT_SIZE).is_err() {
        return Err(OracleError::SizeMismatch);
    }
    put_u32(region, MIN_ORACLE_RESULTS_AT, 1);
    put_u32(region, NUM_SUCCESS_AT, 1);
    put_u128(region, MANTISSA_AT, (price as i128) as u128);
    put_u32(region, SCALE_AT, expo as u32);
    put_u64(region, ROUND_OPEN_SLOT_AT, slot);
    Ok(())
}

/// A price update overwrites: after two updates the region is what the
/// second alone would have made of it, whatever the first one wrote.
pub proof fn lemma_switchboard_update_overwrites(
    s: Seq<u8>,
    price1: i64,
    expo1: i32,
    slot1: u64,
    price2: i64,
    expo2: i32,
    slot2: u64,
)
    ensures
        aggregator_priced(aggregator_priced(s, price1, expo1, slot1), price2, expo2, slot2)
            == aggregator_priced(s, price2, expo2, slot2),
{
    lemma_auto_spec_u32_to_from_le_bytes();
    lemma_auto_spec_u64_to_from_le_bytes();
    lemma_auto_spec_u128_to_from_le_bytes();
    assert(aggregator_priced(aggregator_priced(s, price1, expo1, slot1), price2, expo2, slot2)
        =~= aggregator_priced(s, price2, expo2, slot2));
}

/// After initialisation and a price update, the tag is in place and the
/// latest confirmed round reads back the update's values.
pub proof fn lemma_switchboard_reads_back(s: Seq<u8>, price: i64, expo: i32, slot: u64)
    requires
        s.len() >= DISCRIMINATOR_SIZE + AGGREGATOR_ACCOUNT_SIZE,
    ensures
        ({
            let t = aggregator_priced(splice(s, 0, discriminator()), price, expo, slot);
            &&& t.len() == s.len()
            &&& t.subrange(0, 8) == discriminator()
            &&& min_oracle_results(t) == 1
            &&& num_success(t) == 1
            &&& mantissa(t) == price as i128
            &&& scale(t) == expo as u32
            &&& round_open_slot(t) == slot
        }),
{
    lemma_auto_spec_u32_to_from_le_bytes();
    lemma_auto_spec_u64_to_from_le_bytes();
    lemma_auto_spec_u128_to_from_le_bytes();
    let t = aggregator_priced(splice(s, 0, discriminator()), price, expo, slot);
    assert(t.subrange(0, 8) =~= discriminator());
    assert(t.subrange(MIN_ORACLE_RESULTS_AT as int, MIN_ORACLE_RESULTS_AT + 4) =~= spec_u32_to_le_bytes(1));
    assert(t.subrange(NUM_SUCCESS_AT as int, NUM_SUCCESS_AT + 4) =~= spec_u32_to_le_bytes(1));
    assert(t.subrange(MANTISSA_AT as int, MANTISSA_AT + 16) =~= spec_u128_to_le_bytes((price as i128) as u128));
    assert(t.subrange(SCALE_AT as int, SCALE_AT + 4) =~= spec_u32_to_le_bytes(expo as u32));
    assert(t.subrange(ROUND_OPEN_SLOT_AT as int, ROUND_OPEN_SLOT_AT + 8) =~= spec_u64_to_le_bytes(slot));
    lemma_signed_round_trip(0, 0, price as i128);
}

} // verus!
