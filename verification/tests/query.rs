use apkatalog::errors::ErrorKind;
use apkatalog::product::ProductOpts;
use apkatalog::query::{validate_opts, QueryBuilder};

fn opts() -> ProductOpts {
    ProductOpts {
        count: 10,
        include_recycling: false,
        exists_in_store: false,
        max_volume: 500,
        site_id: String::new(),
        category: String::new(),
    }
}

#[test]
fn test_query_plain() {
    let q = QueryBuilder::build(opts());
    assert_eq!(
        "SELECT * FROM products p WHERE volume <= 500 ORDER BY apk DESC LIMIT 10;",
        q.text
    );
    assert!(q.params.is_empty());
}

#[test]
fn test_query_category_is_bound() {
    let mut o = opts();
    o.count = 3;
    o.category = "Rött vin".to_string();
    let q = QueryBuilder::build(o);
    assert_eq!(
        "SELECT * FROM products p WHERE volume <= 500 AND p.category = ? ORDER BY apk DESC LIMIT 3;",
        q.text
    );
    assert_eq!(vec!["Rött vin".to_string()], q.params);
}

#[test]
fn test_query_exists_in_store() {
    let mut o = opts();
    o.exists_in_store = true;
    let q = QueryBuilder::build(o);
    assert_eq!(
        "SELECT * FROM products p WHERE volume <= 500 AND EXISTS(SELECT * FROM sites_products WHERE product_key = p.product_id) ORDER BY apk DESC LIMIT 10;",
        q.text
    );
    assert!(q.params.is_empty());
}

#[test]
fn test_query_site_id_wins_over_exists() {
    let mut o = opts();
    o.exists_in_store = true;
    o.site_id = "1234".to_string();
    let q = QueryBuilder::build(o);
    assert_eq!(
        "SELECT * FROM products p WHERE volume <= 500 AND p.product_id IN (SELECT product_key FROM sites_products sp WHERE sp.site_key = ?) ORDER BY apk DESC LIMIT 10;",
        q.text
    );
    assert_eq!(vec!["1234".to_string()], q.params);
}

#[test]
fn test_query_recycling_ordering() {
    let mut o = opts();
    o.include_recycling = true;
    let q = QueryBuilder::build(o);
    assert_eq!(
        "SELECT * FROM products p WHERE volume <= 500 ORDER BY apk_recycling DESC LIMIT 10;",
        q.text
    );
}

#[test]
fn test_query_param_order_category_then_site() {
    let mut o = opts();
    o.category = "öl".to_string();
    o.site_id = "42".to_string();
    let q = QueryBuilder::build(o);
    assert_eq!(vec!["öl".to_string(), "42".to_string()], q.params);
}

#[test]
fn test_validate_rejects_zero_count() {
    let mut o = opts();
    o.count = 0;
    let err = validate_opts(&o).unwrap_err();
    assert_eq!(ErrorKind::Validation, err.kind);
    o.count = 1;
    assert!(validate_opts(&o).is_ok());
}
