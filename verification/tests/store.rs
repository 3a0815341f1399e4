use apkatalog::arithmetic::add_apk;
use apkatalog::persist::{
    junction_delete_sql, junction_insert_sql, junction_pairs, product_insert_params,
    products_delete_sql, products_insert_sql, site_insert_params, sites_insert_sql, SqlValue,
};
use apkatalog::product::{MinimalProduct, MinimalSite, Product, ProductOpts};
use apkatalog::query::QueryBuilder;
use apkatalog::schema::{junction_schema_sql, products_schema_sql, sites_schema_sql};
use apkatalog::site::{OpeningTime, Position, Site};
use rusqlite::types::Value;
use rusqlite::{params_from_iter, Connection};

fn value_of(v: SqlValue) -> Value {
    match v {
        SqlValue::Text(s) => Value::Text(s),
        SqlValue::Int(n) => Value::Integer(n),
        SqlValue::Bool(b) => Value::Integer(if b { 1 } else { 0 }),
    }
}

fn setup() -> Connection {
    let con = Connection::open_in_memory().unwrap();
    con.pragma_update(None, "foreign_keys", true).unwrap();
    con.execute(products_schema_sql(), []).unwrap();
    con.execute(sites_schema_sql(), []).unwrap();
    con.execute(junction_schema_sql(), []).unwrap();
    con
}

fn product(id: &str, category: &str, volume: u32, price: u32) -> Product {
    let p = Product {
        product_id: id.to_string(),
        product_number: id.to_string(),
        product_name_bold: format!("Product {}", id),
        product_name_thin: String::new(),
        category: category.to_string(),
        product_number_short: String::new(),
        producer_name: String::new(),
        supplier_name: String::new(),
        is_kosher: false,
        bottle_text_short: String::new(),
        restricted_parcel_quantity: 0,
        seal: String::new(),
        is_organic: false,
        is_ethical: false,
        ethical_label: String::new(),
        is_web_launch: false,
        sell_start_date: String::new(),
        is_completely_out_of_stock: false,
        is_temporary_out_of_stock: false,
        alcohol_percentage: 1000,
        volume,
        price,
        country: String::new(),
        origin_level1: String::new(),
        origin_level2: String::new(),
        vintage: 0,
        sub_category: String::new(),
        a_type: String::new(),
        style: String::new(),
        assortment_text: String::new(),
        beverage_description_short: String::new(),
        usage_text: String::new(),
        taste: String::new(),
        assortment: String::new(),
        is_manufacturing_country: false,
        recycle_fee: 100,
        is_regional_retricted: false,
        is_in_store_search_assortment: String::new(),
        is_news: false,
        apk: 0,
        apk_recycling: 0,
        link: String::new(),
    };
    add_apk(vec![p]).pop().unwrap()
}

fn insert_product(con: &Connection, p: &Product) {
    let params = product_insert_params(p);
    con.execute(
        products_insert_sql(),
        params_from_iter(params.into_iter().map(value_of)),
    )
    .unwrap();
}

fn store_site(id: &str) -> Site {
    Site {
        site_id: id.to_string(),
        is_tasting_store: false,
        alias: String::new(),
        address: String::new(),
        display_name: String::new(),
        postal_code: String::new(),
        city: String::new(),
        county: String::new(),
        country: String::new(),
        is_store: true,
        is_agent: false,
        is_active_for_agent_order: false,
        phone: String::new(),
        email: String::new(),
        services: String::new(),
        opening_hours: Vec::<OpeningTime>::new(),
        depot: String::new(),
        name: format!("Site {}", id),
        position: Position { lat: 0, long: 0 },
    }
}

fn insert_site(con: &Connection, s: &Site) {
    let params = site_insert_params(s);
    con.execute(
        sites_insert_sql(),
        params_from_iter(params.into_iter().map(value_of)),
    )
    .unwrap();
}

fn rebuild_junction(con: &mut Connection, mapping: &Vec<MinimalSite>) -> usize {
    let pairs = junction_pairs(mapping);
    let tx = con.transaction().unwrap();
    tx.execute(junction_delete_sql(), []).unwrap();
    let mut skipped: usize = 0;
    for (product_id, site_id) in pairs {
        let res = tx.execute(
            junction_insert_sql(),
            params_from_iter(vec![Value::Text(product_id), Value::Text(site_id)]),
        );
        if res.is_err() {
            skipped += 1;
        }
    }
    tx.commit().unwrap();
    skipped
}

fn mapping_entry(site_id: &str, product_ids: &[&str]) -> MinimalSite {
    MinimalSite {
        site_id: site_id.to_string(),
        products: product_ids
            .iter()
            .map(|pid| MinimalProduct {
                product_id: pid.to_string(),
                product_number: pid.to_string(),
            })
            .collect(),
    }
}

fn run_query(con: &Connection, opts: ProductOpts) -> Vec<String> {
    let q = QueryBuilder::build(opts);
    let mut stmt = con.prepare(&q.text).unwrap();
    let rows = stmt
        .query_map(
            params_from_iter(q.params.into_iter().map(Value::Text)),
            |row| row.get::<_, String>(0),
        )
        .unwrap();
    rows.map(|r| r.unwrap()).collect()
}

fn dump_products(con: &Connection) -> Vec<Vec<Value>> {
    let mut stmt = con
        .prepare("SELECT * FROM products ORDER BY product_id")
        .unwrap();
    let n = stmt.column_count();
    let rows = stmt
        .query_map([], |row| {
            let mut vals = Vec::new();
            for i in 0..n {
                vals.push(row.get::<_, Value>(i)?);
            }
            Ok(vals)
        })
        .unwrap();
    rows.map(|r| r.unwrap()).collect()
}

#[test]
fn test_schema_init_idempotent() {
    let con = setup();
    let dump = |con: &Connection| -> Vec<(String, Option<String>)> {
        let mut stmt = con
            .prepare("SELECT name, sql FROM sqlite_master ORDER BY name")
            .unwrap();
        let rows = stmt
            .query_map([], |row| Ok((row.get(0)?, row.get(1)?)))
            .unwrap();
        rows.map(|r| r.unwrap()).collect()
    };
    let before = dump(&con);
    con.execute(products_schema_sql(), []).unwrap();
    con.execute(sites_schema_sql(), []).unwrap();
    con.execute(junction_schema_sql(), []).unwrap();
    assert_eq!(before, dump(&con));
}

#[test]
fn test_top_by_apk_within_category_and_volume() {
    let con = setup();
    for (id, price) in [("p100", 100), ("p200", 200), ("p300", 300), ("p400", 400), ("p500", 500)] {
        insert_product(&con, &product(id, "Rött vin", 500, price));
    }
    insert_product(&con, &product("big", "Rött vin", 600, 50));
    insert_product(&con, &product("beer", "Öl", 500, 50));
    let got = run_query(
        &con,
        ProductOpts {
            count: 3,
            include_recycling: false,
            exists_in_store: false,
            max_volume: 500,
            site_id: String::new(),
            category: "Rött vin".to_string(),
        },
    );
    assert_eq!(
        vec!["p100".to_string(), "p200".to_string(), "p300".to_string()],
        got
    );
}

#[test]
fn test_exists_in_store_requires_junction_row() {
    let mut con = setup();
    insert_product(&con, &product("avail", "Öl", 500, 100));
    insert_product(&con, &product("nowhere", "Öl", 500, 100));
    insert_site(&con, &store_site("1234"));
    let mapping = vec![mapping_entry("1234", &["avail"])];
    rebuild_junction(&mut con, &mapping);
    let got = run_query(
        &con,
        ProductOpts {
            count: 10,
            include_recycling: false,
            exists_in_store: true,
            max_volume: 1000,
            site_id: String::new(),
            category: String::new(),
        },
    );
    assert_eq!(vec!["avail".to_string()], got);
}

#[test]
fn test_site_id_filters_to_that_site() {
    let mut con = setup();
    insert_product(&con, &product("here", "Öl", 500, 100));
    insert_product(&con, &product("there", "Öl", 500, 100));
    insert_site(&con, &store_site("1234"));
    insert_site(&con, &store_site("9999"));
    let mapping = vec![
        mapping_entry("1234", &["here"]),
        mapping_entry("9999", &["there"]),
    ];
    rebuild_junction(&mut con, &mapping);
    let got = run_query(
        &con,
        ProductOpts {
            count: 10,
            include_recycling: false,
            exists_in_store: true,
            max_volume: 1000,
            site_id: "1234".to_string(),
            category: String::new(),
        },
    );
    assert_eq!(vec!["here".to_string()], got);
}

#[test]
fn test_unknown_junction_pair_skipped_without_abort() {
    let mut con = setup();
    insert_product(&con, &product("known", "Öl", 500, 100));
    insert_site(&con, &store_site("1234"));
    let mapping = vec![mapping_entry("1234", &["known", "dropped"])];
    let skipped = rebuild_junction(&mut con, &mapping);
    assert_eq!(1, skipped);
    let count: i64 = con
        .query_row("SELECT COUNT(*) FROM sites_products", [], |row| row.get(0))
        .unwrap();
    assert_eq!(1, count);
    let key: String = con
        .query_row("SELECT product_key FROM sites_products", [], |row| row.get(0))
        .unwrap();
    assert_eq!("known", key);
}

#[test]
fn test_failed_refresh_leaves_tables_unchanged() {
    let mut con = setup();
    insert_product(&con, &product("old1", "Öl", 500, 100));
    insert_product(&con, &product("old2", "Öl", 500, 200));
    let before = dump_products(&con);
    let failed = {
        let tx = con.transaction().unwrap();
        tx.execute(products_delete_sql(), []).unwrap();
        let fresh = product("new1", "Öl", 500, 100);
        let params = product_insert_params(&fresh);
        tx.execute(
            products_insert_sql(),
            params_from_iter(params.into_iter().map(value_of)),
        )
        .unwrap();
        let duplicate = product("new1", "Öl", 500, 150);
        let params = product_insert_params(&duplicate);
        let res = tx.execute(
            products_insert_sql(),
            params_from_iter(params.into_iter().map(value_of)),
        );
        res.is_err()
    };
    assert!(failed);
    assert_eq!(before, dump_products(&con));
}

#[test]
fn test_catalog_only_product_never_persisted() {
    let con = setup();
    let fetched = vec![
        product("listed", "Öl", 500, 100),
        product("catalog_only", "Öl", 500, 100),
    ];
    let mapping = vec![mapping_entry("1234", &["listed"])];
    let assembled = apkatalog::reconcile::reconcile(fetched, &mapping);
    for p in &assembled {
        insert_product(&con, p);
    }
    let mut stmt = con
        .prepare("SELECT product_id FROM products ORDER BY product_id")
        .unwrap();
    let ids: Vec<String> = stmt
        .query_map([], |row| row.get(0))
        .unwrap()
        .map(|r| r.unwrap())
        .collect();
    assert_eq!(vec!["listed".to_string()], ids);
}
