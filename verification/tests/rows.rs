use apkatalog::errors::ErrorKind;
use apkatalog::persist::{
    product_from_row, product_insert_params, site_from_row, site_insert_params, SqlValue,
};
use apkatalog::product::Product;
use apkatalog::site::{site_names, OpeningTime, Position, Site};

fn sample_product() -> Product {
    Product {
        product_id: "p1".to_string(),
        product_number: "1001".to_string(),
        product_name_bold: "Bold".to_string(),
        product_name_thin: "Thin".to_string(),
        category: "Rött vin".to_string(),
        product_number_short: "01".to_string(),
        producer_name: "Producer".to_string(),
        supplier_name: "Supplier".to_string(),
        is_kosher: true,
        bottle_text_short: "Flaska".to_string(),
        restricted_parcel_quantity: -2,
        seal: "Kork".to_string(),
        is_organic: true,
        is_ethical: false,
        ethical_label: String::new(),
        is_web_launch: false,
        sell_start_date: "2020-01-01".to_string(),
        is_completely_out_of_stock: false,
        is_temporary_out_of_stock: true,
        alcohol_percentage: 1250,
        volume: 750,
        price: 9990,
        country: "Sverige".to_string(),
        origin_level1: "Skåne".to_string(),
        origin_level2: String::new(),
        vintage: 2019,
        sub_category: "Sub".to_string(),
        a_type: "Typ".to_string(),
        style: "Stil".to_string(),
        assortment_text: "Text".to_string(),
        beverage_description_short: "Beskrivning".to_string(),
        usage_text: "Bruk".to_string(),
        taste: "Smak".to_string(),
        assortment: "FS".to_string(),
        is_manufacturing_country: true,
        recycle_fee: 100,
        is_regional_retricted: false,
        is_in_store_search_assortment: "ja".to_string(),
        is_news: true,
        apk: 740427,
        apk_recycling: 733085,
        link: "https://systembolaget.se/dryck/rott-vin/bold-1001".to_string(),
    }
}

fn sample_site(name: &str) -> Site {
    Site {
        site_id: "0421".to_string(),
        is_tasting_store: true,
        alias: "alias".to_string(),
        address: "Gatan 1".to_string(),
        display_name: "Visning".to_string(),
        postal_code: "12345".to_string(),
        city: "Stad".to_string(),
        county: "Län".to_string(),
        country: "Sverige".to_string(),
        is_store: true,
        is_agent: false,
        is_active_for_agent_order: true,
        phone: "0123".to_string(),
        email: "a@b.se".to_string(),
        services: "tjänst".to_string(),
        opening_hours: vec![OpeningTime {
            is_open: true,
            reason: String::new(),
            date: "2020-01-01".to_string(),
            open_from: "10:00".to_string(),
            open_to: "19:00".to_string(),
        }],
        depot: "depå".to_string(),
        name: name.to_string(),
        position: Position { lat: 59_000_000, long: 18_000_000 },
    }
}

#[test]
fn test_product_row_round_trip() {
    let p = sample_product();
    let row = product_insert_params(&p);
    assert_eq!(42, row.len());
    let back = product_from_row(&row).unwrap();
    assert_eq!(p.category, back.category);
    assert_eq!(p.product_id, back.product_id);
    assert_eq!(p.product_name_bold, back.product_name_bold);
    assert_eq!(p.restricted_parcel_quantity, back.restricted_parcel_quantity);
    assert_eq!(p.alcohol_percentage, back.alcohol_percentage);
    assert_eq!(p.volume, back.volume);
    assert_eq!(p.price, back.price);
    assert_eq!(p.vintage, back.vintage);
    assert_eq!(p.recycle_fee, back.recycle_fee);
    assert_eq!(p.apk, back.apk);
    assert_eq!(p.apk_recycling, back.apk_recycling);
    assert_eq!(p.link, back.link);
    assert_eq!(p.is_kosher, back.is_kosher);
    assert_eq!(p.is_news, back.is_news);
}

#[test]
fn test_product_row_rejects_bad_shape() {
    let p = sample_product();
    let mut row = product_insert_params(&p);
    row.pop();
    let err = product_from_row(&row).unwrap_err();
    assert_eq!(ErrorKind::Store, err.kind);
    let mut row = product_insert_params(&p);
    row[0] = SqlValue::Int(5);
    let err = product_from_row(&row).unwrap_err();
    assert_eq!(ErrorKind::Store, err.kind);
    let mut row = product_insert_params(&p);
    row[19] = SqlValue::Int(70000);
    let err = product_from_row(&row).unwrap_err();
    assert_eq!(ErrorKind::Store, err.kind);
}

#[test]
fn test_site_row_round_trip() {
    let s = sample_site("Butik");
    let row = site_insert_params(&s);
    assert_eq!(17, row.len());
    let back = site_from_row(&row).unwrap();
    assert_eq!(s.site_id, back.site_id);
    assert_eq!(s.name, back.name);
    assert_eq!(s.is_store, back.is_store);
    assert_eq!(s.display_name, back.display_name);
    assert!(back.opening_hours.is_empty());
    assert_eq!(Position { lat: 0, long: 0 }, back.position);
}

#[test]
fn test_site_names_skips_empty_display_names() {
    let mut shown = sample_site("Butik");
    shown.display_name = "Visning".to_string();
    let mut hidden = sample_site("Gömd");
    hidden.display_name = String::new();
    let names = site_names(&vec![shown, hidden]);
    assert_eq!(1, names.len());
    assert_eq!("Butik", names[0].site_name);
    assert_eq!("0421", names[0].site_id);
}
