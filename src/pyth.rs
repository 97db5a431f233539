//! The price-oracle records: a Price record, updated in place by each price
//! report, and a Product record that points at it and carries the quote
//! currency among its attributes.

use crate::region::{
    copy_in, lemma_signed_round_trip, load_account_as_mut, push_bytes, push_u32, push_zeros, put_u32, put_u64, splice, u32_at,
    u64_at, with_u32, with_u64, zeros, OracleError,
};
use pyth_sdk_solana::state::{
    AccountType, PriceAccount, PriceStatus, PriceType, MAGIC, PROD_ACCT_SIZE, PROD_ATTR_SIZE,
    VERSION_2,
};
use vstd::bytes::*;
use vstd::prelude::*;

verus! {

/// Format sentinel at the start of every record.
pub const PYTH_MAGIC: u32 = 0xa1b2c3d4;
/// Layout version of the records.
pub const PYTH_VERSION: u32 = 2;
/// `account_type` tag of a Product record.
pub const ACCOUNT_TYPE_PRODUCT: u32 = 2;
/// `account_type` tag of a Price record.
pub const ACCOUNT_TYPE_PRICE: u32 = 3;
/// `price_type` tag of an ordinary price.
pub const PRICE_TYPE_PRICE: u32 = 1;
/// `status` tag of a price that is trading.
pub const STATUS_TRADING: u32 = 1;

/// Bytes in a Price record; also the value of its `declared_size` field.
pub const PRICE_ACCOUNT_SIZE: usize = 3312;
/// Bytes in a Product record; also the value of its `declared_size` field.
pub const PRODUCT_ACCOUNT_SIZE: usize = 512;
/// Bytes in the attribute block of a Product record.
pub const PRODUCT_ATTR_SIZE: usize = 464;

// Offsets of the header fields, shared by both records.
pub const MAGIC_AT: usize = 0;
pub const VERSION_AT: usize = 4;
pub const ACCOUNT_TYPE_AT: usize = 8;
pub const DECLARED_SIZE_AT: usize = 12;

// Offsets of the Price record's fields.
pub const PRICE_TYPE_AT: usize = 16;
pub const EXPONENT_AT: usize = 20;
pub const LAST_SLOT_AT: usize = 32;
pub const VALID_SLOT_AT: usize = 40;
pub const EMA_PRICE_AT: usize = 48;
pub const EMA_CONF_AT: usize = 72;
pub const AGG_PRICE_AT: usize = 208;
pub const AGG_CONF_AT: usize = 216;
pub const AGG_STATUS_AT: usize = 224;
pub const AGG_PUB_SLOT_AT: usize = 232;

// Offsets of the Product record's fields.
pub const PRICE_REF_AT: usize = 16;
pub const ATTRS_AT: usize = 48;

/// Relies on pyth_sdk_solana::state::MAGIC for the format sentinel.
#[verifier::external_body]
fn magic() -> (r: u32)
    ensures
        r == PYTH_MAGIC,
{
    MAGIC
}

/// Relies on pyth_sdk_solana::state::VERSION_2 for the layout version.
#[verifier::external_body]
fn version() -> (r: u32)
    ensures
        r == PYTH_VERSION,
{
    VERSION_2
}

/// Relies on pyth_sdk_solana::state::AccountType::Price, the fourth tag of a `repr(C)` enum.
#[verifier::external_body]
fn account_type_price() -> (r: u32)
    ensures
        r == ACCOUNT_TYPE_PRICE,
{
    AccountType::Price as u32
}

/// Relies on pyth_sdk_solana::state::AccountType::Product, the third tag of a `repr(C)` enum.
#[verifier::external_body]
fn account_type_product() -> (r: u32)
    ensures
        r == ACCOUNT_TYPE_PRODUCT,
{
    AccountType::Product as u32
}

/// Relies on pyth_sdk_solana::state::PriceType::Price, the second tag of a `repr(C)` enum.
#[verifier::external_body]
fn price_type_price() -> (r: u32)
    ensures
        r == PRICE_TYPE_PRICE,
{
    PriceType::Price as u32
}

/// Relies on pyth_sdk_solana::state::PriceStatus::Trading, the second tag of a `repr(C)` enum.
#[verifier::external_body]
fn status_trading() -> (r: u32)
    ensures
        r == STATUS_TRADING,
{
    PriceStatus::Trading as u32
}

/// Relies on the `repr(C)` layout of pyth_sdk_solana::state::PriceAccount:
/// a 240-byte head followed by 32 components of 96 bytes.
#[verifier::external_body]
fn price_account_size() -> (r: usize)
    ensures
        r == PRICE_ACCOUNT_SIZE,
{
    std::mem::size_of::<PriceAccount>()
}

/// Relies on pyth_sdk_solana::state::PROD_ACCT_SIZE for the Product record's size.
#[verifier::external_body]
fn product_account_size() -> (r: usize)
    ensures
        r == PRODUCT_ACCOUNT_SIZE,
{
    PROD_ACCT_SIZE
}

/// Relies on pyth_sdk_solana::state::PROD_ATTR_SIZE for the attribute block's size.
#[verifier::external_body]
fn product_attr_size() -> (r: usize)
    ensures
        r == PRODUCT_ATTR_SIZE,
{
    PROD_ATTR_SIZE
}

/// The header that opens both records.
pub open spec fn header(account_type: u32, declared_size: u32) -> Seq<u8> {
    spec_u32_to_le_bytes(PYTH_MAGIC) + spec_u32_to_le_bytes(PYTH_VERSION)
        + spec_u32_to_le_bytes(account_type) + spec_u32_to_le_bytes(declared_size)
}

/// A fresh Price record: the header, the price type, and zeros elsewhere.
pub open spec fn fresh_price_record() -> Seq<u8> {
    header(ACCOUNT_TYPE_PRICE, PRICE_ACCOUNT_SIZE as u32) + spec_u32_to_le_bytes(PRICE_TYPE_PRICE)
        + zeros((PRICE_ACCOUNT_SIZE - 20) as nat)
}

/// The attribute key of the quote currency.
pub open spec fn quote_key() -> Seq<u8> {
    seq![113u8, 117, 111, 116, 101, 95, 99, 117, 114, 114, 101, 110, 99, 121]
}

/// The quote currency, "USD" padded with zeros to 32 bytes.
pub open spec fn quote_value() -> Seq<u8> {
    seq![85u8, 83, 68] + zeros(29)
}

/// The attribute block: one length-prefixed key/value pair, then zeros.
pub open spec fn quote_attrs() -> Seq<u8> {
    seq![14u8] + quote_key() + seq![32u8] + quote_value() + zeros((PRODUCT_ATTR_SIZE - 48) as nat)
}

/// A fresh Product record that refers to the Price record `price_key`.
pub open spec fn fresh_product_record(price_key: Seq<u8>) -> Seq<u8> {
    header(ACCOUNT_TYPE_PRODUCT, PRODUCT_ACCOUNT_SIZE as u32) + price_key + quote_attrs()
}

/// A Price region after a price report: every reported field, the EMA
/// ratios fixed at 1/1, both slots, and the trading status.
pub open spec fn priced(
    s: Seq<u8>,
    price: i64,
    conf: u64,
    expo: i32,
    ema_price: i64,
    ema_conf: u64,
    slot: u64,
) -> Seq<u8> {
    let s = with_u64(s, AGG_PRICE_AT as int, price as u64);
    let s = with_u64(s, AGG_CONF_AT as int, conf);
    let s = with_u32(s, EXPONENT_AT as int, expo as u32);
    let s = with_u64(s, EMA_PRICE_AT as int, ema_price as u64);
    let s = with_u64(s, EMA_PRICE_AT + 8, 1);
    let s = with_u64(s, EMA_PRICE_AT + 16, 1);
    let s = with_u64(s, EMA_CONF_AT as int, ema_conf);
    let s = with_u64(s, EMA_CONF_AT + 8, 1);
    let s = with_u64(s, EMA_CONF_AT + 16, 1);
    let s = with_u64(s, LAST_SLOT_AT as int, slot);
    let s = with_u64(s, AGG_PUB_SLOT_AT as int, slot);
    with_u32(s, AGG_STATUS_AT as int, STATUS_TRADING)
}

/// Builds a fresh Price record.
fn build_price_record() -> (rec: Vec<u8>)
    ensures
        rec@ == fresh_price_record(),
{
    let size = price_account_size();
    let mut rec: Vec<u8> = Vec::new();
    push_u32(&mut rec, magic());
    push_u32(&mut rec, version());
    push_u32(&mut rec, account_type_price());
    push_u32(&mut rec, size as u32);
    push_u32(&mut rec, price_type_price());
    push_zeros(&mut rec, size - 20);
    rec
}

/// Builds a fresh Product record that refers to `price_key`.
fn build_product_record(price_key: &[u8; 32]) -> (rec: Vec<u8>)
    ensures
        rec@ == fresh_product_record(price_key@),
{
    let mut rec: Vec<u8> = Vec::new();
    push_u32(&mut rec, magic());
    push_u32(&mut rec, version());
    push_u32(&mut rec, account_type_product());
    push_u32(&mut rec, product_account_size() as u32);
    push_bytes(&mut rec, price_key.as_slice());
    let mut pair: Vec<u8> = vec![14u8, 113, 117, 111, 116, 101, 95, 99, 117, 114, 114, 101, 110, 99, 121, 32, 85, 83, 68];
    rec.append(&mut pair);
    push_zeros(&mut rec, 29);
    push_zeros(&mut rec, product_attr_size() - 48);
    assert(rec@ =~= fresh_product_record(price_key@));
    rec
}

/// The bytes that a raw price write puts at the start of a region: a Price
/// record with only the price type, exponent, valid slot and aggregate price set.
pub open spec fn raw_price_record(price: i64, expo: i32, slot: u64) -> Seq<u8> {
    let s = zeros(PRICE_ACCOUNT_SIZE as nat);
    let s = with_u32(s, PRICE_TYPE_AT as int, PRICE_TYPE_PRICE);
    let s = with_u64(s, VALID_SLOT_AT as int, slot);
    let s = with_u64(s, AGG_PRICE_AT as int, price as u64);
    with_u32(s, EXPONENT_AT as int, expo as u32)
}

proof fn lemma_record_lengths(key: Seq<u8>)
    requires
        key.len() == 32,
    ensures
        fresh_price_record().len() == PRICE_ACCOUNT_SIZE,
        fresh_product_record(key).len() == PRODUCT_ACCOUNT_SIZE,
        quote_attrs().len() == PRODUCT_ATTR_SIZE,
{
    lemma_auto_spec_u32_to_from_le_bytes();
}

/// Writes a fresh Price record at the start of `price_region` and a fresh
/// Product record, referring to `price_key`, at the start of
/// `product_region`. Both sizes are checked before anything is written:
/// when either region is too small, neither changes.
pub fn init_pyth(
    price_region: &mut Vec<u8>,
    product_region: &mut Vec<u8>,
    price_key: &[u8; 32],
) -> (r: Result<(), OracleError>)
    ensures
        r is Ok <==> (old(price_region)@.len() >= PRICE_ACCOUNT_SIZE
            && old(product_region)@.len() >= PRODUCT_ACCOUNT_SIZE),
        r is Ok ==> final(price_region)@ == splice(old(price_region)@, 0, fresh_price_record()),
        r is Ok ==> final(product_region)@ == splice(
            old(product_region)@,
            0,
            fresh_product_record(price_key@),
        ),
        r is Err ==> r == Err::<(), OracleError>(OracleError::SizeMismatch),
        r is Err ==> final(price_region)@ == old(price_region)@,
        r is Err ==> final(product_region)@ == old(product_region)@,
{
    let price_size = price_account_size();
    let product_size = product_account_size();
    if load_account_as_mut(price_region, 0, price_size).is_err() {
        return Err(OracleError::SizeMismatch);
    }
    if load_account_as_mut(product_region, 0, product_size).is_err() {
        return Err(OracleError::SizeMismatch);
    }
    proof {
        lemma_record_lengths(price_key@);
    }
    let price_rec = build_price_record();
    copy_in(price_region, 0, price_rec.as_slice());
    let product_rec = build_product_record(price_key);
    copy_in(product_region, 0, product_rec.as_slice());
    Ok(())
}

/// Records a price report in the Price record at the start of `region`:
/// aggregate price and confidence, exponent, EMA price and confidence (with
/// their ratios at 1/1), `slot` as both the last and the publish slot, and
/// the trading status. No other byte changes; a region too small for a
/// Price record is refused and left as it was.
pub fn set_pyth_price(
    region: &mut Vec<u8>,
    price: i64,
    conf: u64,
    expo: i32,
    ema_price: i64,
    ema_conf: u64,
    slot: u64,
) -> (r: Result<(), OracleError>)
    ensures
        r is Ok <==> old(region)@.len() >= PRICE_ACCOUNT_SIZE,
        r is Ok ==> final(region)@ == priced(
            old(region)@,
            price,
            conf,
            expo,
            ema_price,
            ema_conf,
            slot,
        ),
        r is Err ==> r == Err::<(), OracleError>(OracleError::SizeMismatch),
        r is Err ==> final(region)@ == old(region)@,
{
    if load_account_as_mut(region, 0, price_account_size()).is_err() {
        return Err(OracleError::SizeMismatch);
    }
    put_u64(region, AGG_PRICE_AT, price as u64);
    put_u64(region, AGG_CONF_AT, conf);
    put_u32(region, EXPONENT_AT, expo as u32);
    put_u64(region, EMA_PRICE_AT, ema_price as u64);
    put_u64(region, EMA_PRICE_AT + 8, 1);
    put_u64(region, EMA_PRICE_AT + 16, 1);
    put_u64(region, EMA_CONF_AT, ema_conf);
    put_u64(region, EMA_CONF_AT + 8, 1);
    put_u64(region, EMA_CONF_AT + 16, 1);
    put_u64(region, LAST_SLOT_AT, slot);
    put_u64(region, AGG_PUB_SLOT_AT, slot);
    put_u32(region, AGG_STATUS_AT, status_trading());
    Ok(())
}

/// Overwrites the start of `region` with a bare Price record that holds only
/// the price type, `expo`, `slot` as the valid slot, and `price` as the
/// aggregate price. A region too small for a Price record is refused and
/// left as it was.
pub fn write_pyth_price(region: &mut Vec<u8>, price: i64, expo: i32, slot: u64) -> (r: Result<
    (),
    OracleError,
>)
    ensures
        r is Ok <==> old(region)@.len() >= PRICE_ACCOUNT_SIZE,
        r is Ok ==> final(region)@ == splice(old(region)@, 0, raw_price_record(price, expo, slot)),
        r is Err ==> r == Err::<(), OracleError>(OracleError::SizeMismatch),
        r is Err ==> final(region)@ == old(region)@,
{
    let size = price_account_size();
    if load_account_as_mut(region, 0, size).is_err() {
        return Err(OracleError::SizeMismatch);
    }
    let mut rec: Vec<u8> = Vec::new();
    push_zeros(&mut rec, size);
    assert(rec@ =~= zeros(size as nat));
    put_u32(&mut rec, PRICE_TYPE_AT, price_type_price());
    put_u64(&mut rec, VALID_SLOT_AT, slot);
    put_u64(&mut rec, AGG_PRICE_AT, price as u64);
    put_u32(&mut rec, EXPONENT_AT, expo as u32);
    copy_in(region, 0, rec.as_slice());
    Ok(())
}

/// `magic` of a record.
pub open spec fn magic_of(s: Seq<u8>) -> u32 {
    u32_at(s, MAGIC_AT as int)
}

/// `version` of a record.
pub open spec fn version_of(s: Seq<u8>) -> u32 {
    u32_at(s, VERSION_AT as int)
}

/// `account_type` of a record.
pub open spec fn account_type_of(s: Seq<u8>) -> u32 {
    u32_at(s, ACCOUNT_TYPE_AT as int)
}

/// `declared_size` of a record.
pub open spec fn declared_size_of(s: Seq<u8>) -> u32 {
    u32_at(s, DECLARED_SIZE_AT as int)
}

/// `price_type` of a Price record.
pub open spec fn price_type_of(s: Seq<u8>) -> u32 {
    u32_at(s, PRICE_TYPE_AT as int)
}

/// `aggregate.price` of a Price record.
pub open spec fn agg_price(s: Seq<u8>) -> i64 {
    u64_at(s, AGG_PRICE_AT as int) as i64
}

/// `aggregate.confidence` of a Price record.
pub open spec fn agg_conf(s: Seq<u8>) -> u64 {
    u64_at(s, AGG_CONF_AT as int)
}

/// `aggregate.status` of a Price record.
pub open spec fn agg_status(s: Seq<u8>) -> u32 {
    u32_at(s, AGG_STATUS_AT as int)
}

/// `aggregate.publish_slot` of a Price record.
pub open spec fn agg_pub_slot(s: Seq<u8>) -> u64 {
    u64_at(s, AGG_PUB_SLOT_AT as int)
}

/// `exponent` of a Price record.
pub open spec fn exponent(s: Seq<u8>) -> i32 {
    u32_at(s, EXPONENT_AT as int) as i32
}

/// `last_slot` of a Price record.
pub open spec fn last_slot(s: Seq<u8>) -> u64 {
    u64_at(s, LAST_SLOT_AT as int)
}

/// `ema_price.value` of a Price record.
pub open spec fn ema_price_value(s: Seq<u8>) -> i64 {
    u64_at(s, EMA_PRICE_AT as int) as i64
}

/// `ema_confidence.value` of a Price record.
pub open spec fn ema_conf_value(s: Seq<u8>) -> i64 {
    u64_at(s, EMA_CONF_AT as int) as i64
}

/// A freshly initialised Price record carries the protocol's tags, its
/// declared size and the price type.
pub proof fn lemma_fresh_price_header(s: Seq<u8>)
    requires
        s.len() >= PRICE_ACCOUNT_SIZE,
    ensures
        ({
            let t = splice(s, 0, fresh_price_record());
            &&& magic_of(t) == PYTH_MAGIC
            &&& version_of(t) == PYTH_VERSION
            &&& account_type_of(t) == ACCOUNT_TYPE_PRICE
            &&& declared_size_of(t) == PRICE_ACCOUNT_SIZE as u32
            &&& price_type_of(t) == PRICE_TYPE_PRICE
        }),
{
    lemma_auto_spec_u32_to_from_le_bytes();
    let t = splice(s, 0, fresh_price_record());
    assert(t.subrange(0, 4) =~= spec_u32_to_le_bytes(PYTH_MAGIC));
    assert(t.subrange(4, 8) =~= spec_u32_to_le_bytes(PYTH_VERSION));
    assert(t.subrange(8, 12) =~= spec_u32_to_le_bytes(ACCOUNT_TYPE_PRICE));
    assert(t.subrange(12, 16) =~= spec_u32_to_le_bytes(PRICE_ACCOUNT_SIZE as u32));
    assert(t.subrange(16, 20) =~= spec_u32_to_le_bytes(PRICE_TYPE_PRICE));
}

/// After initialisation and a price report, the record reads back every
/// reported value, both slots, and the trading status.
pub proof fn lemma_price_report_reads_back(
    s: Seq<u8>,
    price: i64,
    conf: u64,
    expo: i32,
    ema_price: i64,
    ema_conf: u64,
    slot: u64,
)
    requires
        s.len() >= PRICE_ACCOUNT_SIZE,
    ensures
        ({
            let t = priced(splice(s, 0, fresh_price_record()), price, conf, expo, ema_price, ema_conf, slot);
            &&& t.len() == s.len()
            &&& agg_price(t) == price
            &&& agg_conf(t) == conf
            &&& exponent(t) == expo
            &&& ema_price_value(t) == ema_price
            &&& ema_conf_value(t) == ema_conf as i64
            &&& agg_status(t) == STATUS_TRADING
            &&& last_slot(t) == slot
            &&& agg_pub_slot(t) == slot
        }),
{
    lemma_auto_spec_u32_to_from_le_bytes();
    lemma_auto_spec_u64_to_from_le_bytes();
    lemma_signed_round_trip(expo, price, 0);
    lemma_signed_round_trip(0, ema_price, 0);
    let t = priced(splice(s, 0, fresh_price_record()), price, conf, expo, ema_price, ema_conf, slot);
    assert(t.subrange(208, 216) =~= spec_u64_to_le_bytes(price as u64));
    assert(t.subrange(216, 224) =~= spec_u64_to_le_bytes(conf));
    assert(t.subrange(20, 24) =~= spec_u32_to_le_bytes(expo as u32));
    assert(t.subrange(48, 56) =~= spec_u64_to_le_bytes(ema_price as u64));
    assert(t.subrange(72, 80) =~= spec_u64_to_le_bytes(ema_conf));
    assert(t.subrange(224, 228) =~= spec_u32_to_le_bytes(STATUS_TRADING));
    assert(t.subrange(32, 40) =~= spec_u64_to_le_bytes(slot));
    assert(t.subrange(232, 240) =~= spec_u64_to_le_bytes(slot));
}

/// A price report leaves the header and the price type byte for byte as they were.
pub proof fn lemma_price_report_keeps_header(
    s: Seq<u8>,
    price: i64,
    conf: u64,
    expo: i32,
    ema_price: i64,
    ema_conf: u64,
    slot: u64,
)
    requires
        s.len() >= PRICE_ACCOUNT_SIZE,
    ensures
        priced(s, price, conf, expo, ema_price, ema_conf, slot).subrange(0, 20) == s.subrange(0, 20),
        priced(s, price, conf, expo, ema_price, ema_conf, slot).len() == s.len(),
{
    lemma_auto_spec_u32_to_from_le_bytes();
    lemma_auto_spec_u64_to_from_le_bytes();
    assert(priced(s, price, conf, expo, ema_price, ema_conf, slot).subrange(0, 20) =~= s.subrange(0, 20));
}

/// The arguments of one price report.
pub struct PriceReport {
    pub price: i64,
    pub conf: u64,
    pub expo: i32,
    pub ema_price: i64,
    pub ema_conf: u64,
    pub slot: u64,
}

/// A Price region after `reports`, applied in order.
pub open spec fn priced_all(s: Seq<u8>, reports: Seq<PriceReport>) -> Seq<u8>
    decreases reports.len(),
{
    if reports.len() == 0 {
        s
    } else {
        let r = reports.last();
        priced(
            priced_all(s, reports.drop_last()),
            r.price,
            r.conf,
            r.expo,
            r.ema_price,
            r.ema_conf,
            r.slot,
        )
    }
}

/// Any number of price reports leave the header and the price type byte for
/// byte as they were.
pub proof fn lemma_price_reports_keep_header(s: Seq<u8>, reports: Seq<PriceReport>)
    requires
        s.len() >= PRICE_ACCOUNT_SIZE,
    ensures
        priced_all(s, reports).subrange(0, 20) == s.subrange(0, 20),
        priced_all(s, reports).len() == s.len(),
    decreases reports.len(),
{
    if reports.len() > 0 {
        let r = reports.last();
        lemma_price_reports_keep_header(s, reports.drop_last());
        lemma_price_report_keeps_header(
            priced_all(s, reports.drop_last()),
            r.price,
            r.conf,
            r.expo,
            r.ema_price,
            r.ema_conf,
            r.slot,
        );
    }
}

/// A freshly initialised Product record carries the protocol's tags, its
/// declared size, the reference to its Price record, and one attribute pair:
/// the length-prefixed key "quote_currency", then the length-prefixed
/// 32-byte value "USD" padded with zeros; the rest of the block is zero.
pub proof fn lemma_fresh_product(s: Seq<u8>, price_key: Seq<u8>)
    requires
        s.len() >= PRODUCT_ACCOUNT_SIZE,
        price_key.len() == 32,
    ensures
        ({
            let t = splice(s, 0, fresh_product_record(price_key));
            &&& magic_of(t) == PYTH_MAGIC
            &&& version_of(t) == PYTH_VERSION
            &&& account_type_of(t) == ACCOUNT_TYPE_PRODUCT
            &&& declared_size_of(t) == PRODUCT_ACCOUNT_SIZE as u32
            &&& t.subrange(PRICE_REF_AT as int, PRICE_REF_AT + 32) == price_key
            &&& t.subrange(ATTRS_AT as int, ATTRS_AT + 15) == seq![14u8] + quote_key()
            &&& t.subrange(ATTRS_AT + 15, ATTRS_AT + 48) == seq![32u8] + quote_value()
            &&& forall|i: int| ATTRS_AT + 48 <= i < PRODUCT_ACCOUNT_SIZE ==> #[trigger] t[i] == 0u8
        }),
{
    lemma_auto_spec_u32_to_from_le_bytes();
    let t = splice(s, 0, fresh_product_record(price_key));
    assert(t.subrange(0, 4) =~= spec_u32_to_le_bytes(PYTH_MAGIC));
    assert(t.subrange(4, 8) =~= spec_u32_to_le_bytes(PYTH_VERSION));
    assert(t.subrange(8, 12) =~= spec_u32_to_le_bytes(ACCOUNT_TYPE_PRODUCT));
    assert(t.subrange(12, 16) =~= spec_u32_to_le_bytes(PRODUCT_ACCOUNT_SIZE as u32));
    assert(t.subrange(16, 48) =~= price_key);
    assert(t.subrange(48, 63) =~= seq![14u8] + quote_key());
    assert(t.subrange(63, 96) =~= seq![32u8] + quote_value());
}

} // verus!
