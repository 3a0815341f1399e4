use apkatalog::errors::{Error, ErrorKind};
use apkatalog::errors::fmt_backtrace;
use apkatalog::text::{remove_swe_signs_and_replace_spaces, strip_and_dash, u64_to_dec};
use apkatalog::product::Product;

fn empty_product() -> Product {
    Product {
        product_id: String::new(),
        product_number: String::new(),
        product_name_bold: String::new(),
        product_name_thin: String::new(),
        category: String::new(),
        product_number_short: String::new(),
        producer_name: String::new(),
        supplier_name: String::new(),
        is_kosher: false,
        bottle_text_short: String::new(),
        restricted_parcel_quantity: 0,
        seal: String::new(),
        is_organic: false,
        is_ethical: false,
        ethical_label: String::new(),
        is_web_launch: false,
        sell_start_date: String::new(),
        is_completely_out_of_stock: false,
        is_temporary_out_of_stock: false,
        alcohol_percentage: 0,
        volume: 0,
        price: 0,
        country: String::new(),
        origin_level1: String::new(),
        origin_level2: String::new(),
        vintage: 0,
        sub_category: String::new(),
        a_type: String::new(),
        style: String::new(),
        assortment_text: String::new(),
        beverage_description_short: String::new(),
        usage_text: String::new(),
        taste: String::new(),
        assortment: String::new(),
        is_manufacturing_country: false,
        recycle_fee: 0,
        is_regional_retricted: false,
        is_in_store_search_assortment: String::new(),
        is_news: false,
        apk: 0,
        apk_recycling: 0,
        link: String::new(),
    }
}

#[test]
fn test_format_str() {
    let src = "Sju komma två'an roséviner";
    let expect = "sju-komma-tvaan-roseviner";
    assert_eq!(expect, remove_swe_signs_and_replace_spaces(src));
}

#[test]
fn test_strip_and_dash() {
    assert_eq!("a-b", strip_and_dash("a b"));
    assert_eq!("Abc-12", strip_and_dash("Abc!? 12"));
    assert_eq!("", strip_and_dash("!?#"));
    assert_eq!("", strip_and_dash(""));
}

#[test]
fn test_u64_to_dec() {
    assert_eq!("0", u64_to_dec(0));
    assert_eq!("7", u64_to_dec(7));
    assert_eq!("1203", u64_to_dec(1203));
    assert_eq!("18446744073709551615", u64_to_dec(u64::MAX));
}

#[test]
fn test_construct_link() {
    let mut p = empty_product();
    p.category = "Rött vin".to_string();
    p.product_name_bold = "Test Öl".to_string();
    p.product_number = "123".to_string();
    assert_eq!(
        "https://systembolaget.se/dryck/rott-vin/test-ol-123",
        p.construct_link()
    );
}

#[test]
fn test_fmt_backtrace() {
    let detail = "Error: x\n   at src/foo.rs:10\n   at lib/bar.rs:5\nsomething src here\n";
    let err = Error::new(
        ErrorKind::Transport,
        "boom".to_string(),
        detail.to_string(),
    );
    assert_eq!("boom\nsrc/foo.rs:10\n", fmt_backtrace(&err));
}

#[test]
fn test_fmt_backtrace_no_sites() {
    let err = Error::new(
        ErrorKind::Store,
        "plain".to_string(),
        "nothing of note".to_string(),
    );
    assert_eq!("plain\n", fmt_backtrace(&err));
}
