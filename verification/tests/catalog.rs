use apkatalog::arithmetic::{add_apk, get_apk, get_recyc_apk};
use apkatalog::product::{MinimalProduct, MinimalSite, Product};
use apkatalog::reconcile::reconcile;

fn base_product(id: &str, volume: u32, alcohol_percentage: u16, price: u32, recycle_fee: u32) -> Product {
    Product {
        product_id: id.to_string(),
        product_number: id.to_string(),
        product_name_bold: format!("Product {}", id),
        product_name_thin: String::new(),
        category: "Rött vin".to_string(),
        product_number_short: String::new(),
        producer_name: String::new(),
        supplier_name: String::new(),
        is_kosher: false,
        bottle_text_short: String::new(),
        restricted_parcel_quantity: 0,
        seal: String::new(),
        is_organic: false,
        is_ethical: false,
        ethical_label: String::new(),
        is_web_launch: false,
        sell_start_date: String::new(),
        is_completely_out_of_stock: false,
        is_temporary_out_of_stock: false,
        alcohol_percentage,
        volume,
        price,
        country: String::new(),
        origin_level1: String::new(),
        origin_level2: String::new(),
        vintage: 0,
        sub_category: String::new(),
        a_type: String::new(),
        style: String::new(),
        assortment_text: String::new(),
        beverage_description_short: String::new(),
        usage_text: String::new(),
        taste: String::new(),
        assortment: String::new(),
        is_manufacturing_country: false,
        recycle_fee,
        is_regional_retricted: false,
        is_in_store_search_assortment: String::new(),
        is_news: false,
        apk: 0,
        apk_recycling: 0,
        link: String::new(),
    }
}

fn site(id: &str, product_ids: &[&str]) -> MinimalSite {
    MinimalSite {
        site_id: id.to_string(),
        products: product_ids
            .iter()
            .map(|pid| MinimalProduct {
                product_id: pid.to_string(),
                product_number: pid.to_string(),
            })
            .collect(),
    }
}

fn ids(products: &[Product]) -> Vec<String> {
    products.iter().map(|p| p.product_id.clone()).collect()
}

#[test]
fn test_zero_fields_give_zero_metrics() {
    for p in [
        base_product("a", 0, 1250, 9990, 100),
        base_product("b", 750, 0, 9990, 100),
        base_product("c", 750, 1250, 0, 100),
    ] {
        assert_eq!(0, get_apk(&p));
        assert_eq!(0, get_recyc_apk(&p));
    }
}

#[test]
fn test_apk_exact_value() {
    // 750 ml at 12.50 percent for 99.90: 750 * 1250 * 7890 / 9990.
    let p = base_product("a", 750, 1250, 9990, 0);
    assert_eq!(740427, get_apk(&p));
    assert_eq!(740427, get_recyc_apk(&p));
}

#[test]
fn test_recycle_fee_never_raises_metric() {
    let with_fee = base_product("a", 750, 1250, 9990, 100);
    assert!(get_recyc_apk(&with_fee) <= get_apk(&with_fee));
    assert!(get_recyc_apk(&with_fee) < get_apk(&with_fee));
    let no_fee = base_product("b", 750, 1250, 9990, 0);
    assert_eq!(get_apk(&no_fee), get_recyc_apk(&no_fee));
}

#[test]
fn test_add_apk_sets_derived_fields_only() {
    let products = vec![base_product("a", 750, 1250, 9990, 100)];
    let enriched = add_apk(products);
    assert_eq!(1, enriched.len());
    let p = &enriched[0];
    assert_eq!(740427, p.apk);
    assert_eq!(get_recyc_apk(p), p.apk_recycling);
    assert!(p.apk_recycling < p.apk);
    assert_eq!("a", p.product_id);
    assert_eq!("Rött vin", p.category);
    assert_eq!(750, p.volume);
}

#[test]
fn test_reconcile_drops_unreferenced_product() {
    let products = vec![base_product("a", 1, 1, 1, 0), base_product("b", 1, 1, 1, 0)];
    let mapping = vec![site("s1", &["a"])];
    let out = reconcile(products, &mapping);
    assert_eq!(vec!["a".to_string()], ids(&out));
}

#[test]
fn test_reconcile_skips_unknown_reference() {
    let products = vec![base_product("a", 1, 1, 1, 0)];
    let mapping = vec![site("s1", &["ghost", "a"])];
    let out = reconcile(products, &mapping);
    assert_eq!(vec!["a".to_string()], ids(&out));
}

#[test]
fn test_reconcile_consumes_each_product_once() {
    let products = vec![base_product("a", 1, 1, 1, 0), base_product("b", 1, 1, 1, 0)];
    let mapping = vec![site("s1", &["a", "b"]), site("s2", &["a", "b"])];
    let out = reconcile(products, &mapping);
    assert_eq!(vec!["a".to_string(), "b".to_string()], ids(&out));
}

#[test]
fn test_reconcile_idempotent() {
    let mk = || {
        vec![
            base_product("a", 1, 1, 1, 0),
            base_product("b", 1, 1, 1, 0),
            base_product("c", 1, 1, 1, 0),
        ]
    };
    let mapping = vec![site("s1", &["b", "x"]), site("s2", &["a", "b"])];
    let first = reconcile(mk(), &mapping);
    let second = reconcile(mk(), &mapping);
    assert_eq!(ids(&first), ids(&second));
    let replay = reconcile(first.clone(), &mapping);
    assert_eq!(ids(&first), ids(&replay));
}

#[test]
fn test_reconcile_sets_link() {
    let products = vec![base_product("a", 1, 1, 1, 0)];
    let mapping = vec![site("s1", &["a"])];
    let out = reconcile(products, &mapping);
    assert_eq!(
        "https://systembolaget.se/dryck/rott-vin/product-a-a",
        out[0].link
    );
}
