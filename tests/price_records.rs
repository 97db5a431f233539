use mock_oracles::pyth::{
    init_pyth, set_pyth_price, write_pyth_price, PRICE_ACCOUNT_SIZE, PRODUCT_ACCOUNT_SIZE,
    PYTH_MAGIC, PYTH_VERSION,
};
use mock_oracles::region::OracleError;
use pyth_sdk_solana::state::{
    load_price_account, load_product_account, AccountType, PriceStatus, PriceType, MAGIC,
    VERSION_2,
};

fn u32_at(b: &[u8], at: usize) -> u32 {
    u32::from_le_bytes(b[at..at + 4].try_into().unwrap())
}

fn u64_at(b: &[u8], at: usize) -> u64 {
    u64::from_le_bytes(b[at..at + 8].try_into().unwrap())
}

fn fresh_pair() -> (Vec<u8>, Vec<u8>) {
    let mut price = vec![0u8; PRICE_ACCOUNT_SIZE];
    let mut product = vec![0u8; PRODUCT_ACCOUNT_SIZE];
    init_pyth(&mut price, &mut product, &[7u8; 32]).unwrap();
    (price, product)
}

#[test]
fn price_scenario_one_dollar() {
    let (mut price, _) = fresh_pair();
    set_pyth_price(&mut price, 100_000_000, 50_000, -8, 100_000_000, 50_000, 42).unwrap();
    let acc = load_price_account(&price).unwrap();
    let agg_price = acc.agg.price;
    let expo = acc.expo;
    assert_eq!(agg_price, 100_000_000);
    assert_eq!(expo, -8);
    assert_eq!(acc.agg.status, PriceStatus::Trading);
    assert_eq!(acc.magic, MAGIC);
    assert_eq!(acc.ver, VERSION_2);
    assert_eq!(acc.magic, PYTH_MAGIC);
    assert_eq!(acc.ver, PYTH_VERSION);
}

#[test]
fn price_report_reads_back_every_field() {
    let (mut price, _) = fresh_pair();
    set_pyth_price(&mut price, -12_345, 678, 3, 9_999, 1_234, 77).unwrap();
    let acc = load_price_account(&price).unwrap();
    assert_eq!(acc.agg.price, -12_345);
    assert_eq!(acc.agg.conf, 678);
    assert_eq!(acc.expo, 3);
    assert_eq!(acc.ema_price.val, 9_999);
    assert_eq!(acc.ema_price.numer, 1);
    assert_eq!(acc.ema_price.denom, 1);
    assert_eq!(acc.ema_conf.val, 1_234);
    assert_eq!(acc.ema_conf.numer, 1);
    assert_eq!(acc.ema_conf.denom, 1);
    assert_eq!(acc.last_slot, 77);
    assert_eq!(acc.agg.pub_slot, 77);
    assert_eq!(acc.agg.status, PriceStatus::Trading);
}

#[test]
fn fresh_price_record_header() {
    let (price, _) = fresh_pair();
    let acc = load_price_account(&price).unwrap();
    assert_eq!(acc.atype, AccountType::Price as u32);
    assert_eq!(acc.size, 3312);
    assert_eq!(acc.ptype, PriceType::Price);
    assert_eq!(acc.agg.status, PriceStatus::Unknown);
    assert!(price[20..].iter().all(|b| *b == 0));
}

#[test]
fn init_zeroes_stale_price_bytes() {
    let mut price = vec![0xABu8; PRICE_ACCOUNT_SIZE + 4];
    let mut product = vec![0xCDu8; PRODUCT_ACCOUNT_SIZE + 4];
    init_pyth(&mut price, &mut product, &[1u8; 32]).unwrap();
    assert!(price[20..PRICE_ACCOUNT_SIZE].iter().all(|b| *b == 0));
    assert_eq!(&price[PRICE_ACCOUNT_SIZE..], &[0xABu8; 4]);
    assert_eq!(&product[PRODUCT_ACCOUNT_SIZE..], &[0xCDu8; 4]);
}

#[test]
fn price_reports_keep_header() {
    let (mut price, _) = fresh_pair();
    let header: Vec<u8> = price[0..20].to_vec();
    set_pyth_price(&mut price, 1, 2, 3, 4, 5, 6).unwrap();
    set_pyth_price(&mut price, -1, 20, -3, 40, 50, 60).unwrap();
    set_pyth_price(&mut price, 1, 2, 3, 4, 5, 6).unwrap();
    assert_eq!(&price[0..20], &header[..]);
}

#[test]
fn price_report_touches_only_its_fields() {
    let mut price = vec![0xABu8; PRICE_ACCOUNT_SIZE];
    set_pyth_price(&mut price, 5, 6, 7, 8, 9, 10).unwrap();
    let written = [
        (20, 24),
        (32, 40),
        (48, 96),
        (208, 228),
        (232, 240),
    ];
    for (i, b) in price.iter().enumerate() {
        if !written.iter().any(|(lo, hi)| *lo <= i && i < *hi) {
            assert_eq!(*b, 0xAB, "byte {} changed", i);
        }
    }
    assert_eq!(u32_at(&price, 228), 0xABABABAB);
    assert_eq!(u64_at(&price, 208), 5);
}

#[test]
fn product_attribute_block() {
    let (_, product) = fresh_pair();
    let acc = load_product_account(&product).unwrap();
    assert_eq!(acc.atype, AccountType::Product as u32);
    assert_eq!(acc.size, 512);
    assert_eq!(acc.px_acc.to_bytes(), [7u8; 32]);
    let attr = &product[48..];
    assert_eq!(attr[0], 14);
    assert_eq!(&attr[1..15], b"quote_currency");
    assert_eq!(attr[15], 32);
    assert_eq!(&attr[16..19], b"USD");
    assert!(attr[19..48].iter().all(|b| *b == 0));
    assert!(attr[48..].iter().all(|b| *b == 0));
    let pairs: Vec<(&str, &str)> = acc.iter().collect();
    assert_eq!(pairs[0].0, "quote_currency");
    assert_eq!(pairs[0].1.trim_end_matches('\0'), "USD");
    assert_eq!(pairs[0].1.len(), 32);
    assert!(pairs[1..].iter().all(|(k, v)| k.is_empty() && v.is_empty()));
}

#[test]
fn undersized_price_region_is_refused() {
    let mut price = vec![9u8; PRICE_ACCOUNT_SIZE - 1];
    let mut product = vec![9u8; PRODUCT_ACCOUNT_SIZE];
    assert_eq!(init_pyth(&mut price, &mut product, &[1u8; 32]), Err(OracleError::SizeMismatch));
    assert_eq!(price, vec![9u8; PRICE_ACCOUNT_SIZE - 1]);
    assert_eq!(product, vec![9u8; PRODUCT_ACCOUNT_SIZE]);
    assert_eq!(set_pyth_price(&mut price, 1, 1, 1, 1, 1, 1), Err(OracleError::SizeMismatch));
    assert_eq!(price, vec![9u8; PRICE_ACCOUNT_SIZE - 1]);
    assert_eq!(write_pyth_price(&mut price, 1, 1, 1), Err(OracleError::SizeMismatch));
    assert_eq!(price, vec![9u8; PRICE_ACCOUNT_SIZE - 1]);
}

#[test]
fn undersized_product_region_leaves_both_regions() {
    let mut price = vec![9u8; PRICE_ACCOUNT_SIZE];
    let mut product = vec![9u8; PRODUCT_ACCOUNT_SIZE - 1];
    assert_eq!(init_pyth(&mut price, &mut product, &[1u8; 32]), Err(OracleError::SizeMismatch));
    assert_eq!(price, vec![9u8; PRICE_ACCOUNT_SIZE]);
    assert_eq!(product, vec![9u8; PRODUCT_ACCOUNT_SIZE - 1]);
}

#[test]
fn empty_regions_are_refused() {
    let mut price: Vec<u8> = Vec::new();
    let mut product: Vec<u8> = Vec::new();
    assert_eq!(init_pyth(&mut price, &mut product, &[1u8; 32]), Err(OracleError::SizeMismatch));
    assert!(price.is_empty() && product.is_empty());
}

#[test]
fn raw_price_write() {
    let mut price = vec![0xEEu8; PRICE_ACCOUNT_SIZE + 2];
    write_pyth_price(&mut price, -250, -2, 99).unwrap();
    assert_eq!(u32_at(&price, 0), 0);
    assert_eq!(u32_at(&price, 16), 1);
    assert_eq!(u32_at(&price, 20) as i32, -2);
    assert_eq!(u64_at(&price, 40), 99);
    assert_eq!(u64_at(&price, 208) as i64, -250);
    assert_eq!(u64_at(&price, 32), 0);
    assert_eq!(&price[PRICE_ACCOUNT_SIZE..], &[0xEEu8; 2]);
}
