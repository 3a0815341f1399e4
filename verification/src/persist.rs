//! Replace-on-refresh persistence material.
//!
//! The store itself lives outside the library; this module produces what
//! the replace-on-refresh persister executes against it: the delete and
//! insert statements, the bound parameter row of each product and site,
//! the `(product_id, site_id)` junction pairs in insertion order, and the
//! parsing of rows read back from the store.

use vstd::prelude::*;
use vstd::pervasive::arbitrary;
use crate::product::{Product, MinimalSite};
use crate::site::{Site, Position, OpeningTime};
use crate::errors::{Error, ErrorKind};
use crate::arithmetic::APK_MAX;

verus! {

/// One bound parameter value of a store statement.
#[derive(Debug, Clone)]
pub enum SqlValue {
    Text(String),
    Int(i64),
    Bool(bool),
}

/// The text held by a parameter value; meaningless for other variants.
pub open spec fn str_of(v: SqlValue) -> String {
    match v {
        SqlValue::Text(s) => s,
        _ => arbitrary(),
    }
}

/// The integer held by a parameter value; meaningless for other variants.
pub open spec fn int_of(v: SqlValue) -> int {
    match v {
        SqlValue::Int(n) => n as int,
        _ => arbitrary(),
    }
}

/// The boolean held by a parameter value; meaningless for other variants.
pub open spec fn bool_of(v: SqlValue) -> bool {
    match v {
        SqlValue::Bool(b) => b,
        _ => arbitrary(),
    }
}

fn row_error() -> (r: Error)
    ensures
        r.kind == ErrorKind::Store,
{
    Error::new(ErrorKind::Store, String::from_str("unexpected row shape from the store"),
        String::new())
}

/// The parameter row of one product, in column order: every column
/// carries its field verbatim.
pub open spec fn product_params_spec(p: Product) -> Seq<SqlValue> {
    seq![
        SqlValue::Text(p.product_id),
        SqlValue::Text(p.product_number),
        SqlValue::Text(p.product_name_bold),
        SqlValue::Text(p.product_name_thin),
        SqlValue::Text(p.category),
        SqlValue::Text(p.product_number_short),
        SqlValue::Text(p.producer_name),
        SqlValue::Text(p.supplier_name),
        SqlValue::Bool(p.is_kosher),
        SqlValue::Text(p.bottle_text_short),
        SqlValue::Int(p.restricted_parcel_quantity as i64),
        SqlValue::Text(p.seal),
        SqlValue::Bool(p.is_organic),
        SqlValue::Bool(p.is_ethical),
        SqlValue::Text(p.ethical_label),
        SqlValue::Bool(p.is_web_launch),
        SqlValue::Text(p.sell_start_date),
        SqlValue::Bool(p.is_completely_out_of_stock),
        SqlValue::Bool(p.is_temporary_out_of_stock),
        SqlValue::Int(p.alcohol_percentage as i64),
        SqlValue::Int(p.volume as i64),
        SqlValue::Int(p.price as i64),
        SqlValue::Text(p.country),
        SqlValue::Text(p.origin_level1),
        SqlValue::Text(p.origin_level2),
        SqlValue::Int(p.vintage as i64),
        SqlValue::Text(p.sub_category),
        SqlValue::Text(p.a_type),
        SqlValue::Text(p.style),
        SqlValue::Text(p.assortment_text),
        SqlValue::Text(p.beverage_description_short),
        SqlValue::Text(p.usage_text),
        SqlValue::Text(p.taste),
        SqlValue::Text(p.assortment),
        SqlValue::Bool(p.is_manufacturing_country),
        SqlValue::Int(p.recycle_fee as i64),
        SqlValue::Bool(p.is_regional_retricted),
        SqlValue::Text(p.is_in_store_search_assortment),
        SqlValue::Bool(p.is_news),
        SqlValue::Int(p.apk as i64),
        SqlValue::Int(p.apk_recycling as i64),
        SqlValue::Text(p.link),
    ]
}

/// Marshals one product into its insert parameter row: every column
/// carries its field verbatim, so an exact-match query on any column
/// compares against the value as fetched.
#[verifier::rlimit(60)]
pub fn product_insert_params(p: &Product) -> (r: Vec<SqlValue>)
    requires
        p.apk <= APK_MAX,
        p.apk_recycling <= APK_MAX,
    ensures
        r@.len() == 42,
        r@ == product_params_spec(*p),
{
    let mut out: Vec<SqlValue> = Vec::new();
    out.push(SqlValue::Text(p.product_id.clone()));
    out.push(SqlValue::Text(p.product_number.clone()));
    out.push(SqlValue::Text(p.product_name_bold.clone()));
    out.push(SqlValue::Text(p.product_name_thin.clone()));
    out.push(SqlValue::Text(p.category.clone()));
    out.push(SqlValue::Text(p.product_number_short.clone()));
    out.push(SqlValue::Text(p.producer_name.clone()));
    out.push(SqlValue::Text(p.supplier_name.clone()));
    out.push(SqlValue::Bool(p.is_kosher));
    out.push(SqlValue::Text(p.bottle_text_short.clone()));
    out.push(SqlValue::Int(p.restricted_parcel_quantity as i64));
    out.push(SqlValue::Text(p.seal.clone()));
    out.push(SqlValue::Bool(p.is_organic));
    out.push(SqlValue::Bool(p.is_ethical));
    out.push(SqlValue::Text(p.ethical_label.clone()));
    out.push(SqlValue::Bool(p.is_web_launch));
    out.push(SqlValue::Text(p.sell_start_date.clone()));
    out.push(SqlValue::Bool(p.is_completely_out_of_stock));
    out.push(SqlValue::Bool(p.is_temporary_out_of_stock));
    out.push(SqlValue::Int(p.alcohol_percentage as i64));
    out.push(SqlValue::Int(p.volume as i64));
    out.push(SqlValue::Int(p.price as i64));
    out.push(SqlValue::Text(p.country.clone()));
    out.push(SqlValue::Text(p.origin_level1.clone()));
    out.push(SqlValue::Text(p.origin_level2.clone()));
    out.push(SqlValue::Int(p.vintage as i64));
    out.push(SqlValue::Text(p.sub_category.clone()));
    out.push(SqlValue::Text(p.a_type.clone()));
    out.push(SqlValue::Text(p.style.clone()));
    out.push(SqlValue::Text(p.assortment_text.clone()));
    out.push(SqlValue::Text(p.beverage_description_short.clone()));
    out.push(SqlValue::Text(p.usage_text.clone()));
    out.push(SqlValue::Text(p.taste.clone()));
    out.push(SqlValue::Text(p.assortment.clone()));
    out.push(SqlValue::Bool(p.is_manufacturing_country));
    out.push(SqlValue::Int(p.recycle_fee as i64));
    out.push(SqlValue::Bool(p.is_regional_retricted));
    out.push(SqlValue::Text(p.is_in_store_search_assortment.clone()));
    out.push(SqlValue::Bool(p.is_news));
    out.push(SqlValue::Int(p.apk as i64));
    out.push(SqlValue::Int(p.apk_recycling as i64));
    out.push(SqlValue::Text(p.link.clone()));
    proof {
        assert(out@ =~= product_params_spec(*p));
    }
    out
}

/// The parameter row of one site, in column order.
pub open spec fn site_params_spec(s: Site) -> Seq<SqlValue> {
    seq![
        SqlValue::Text(s.site_id),
        SqlValue::Bool(s.is_tasting_store),
        SqlValue::Text(s.alias),
        SqlValue::Text(s.address),
        SqlValue::Text(s.display_name),
        SqlValue::Text(s.postal_code),
        SqlValue::Text(s.city),
        SqlValue::Text(s.county),
        SqlValue::Text(s.country),
        SqlValue::Bool(s.is_store),
        SqlValue::Bool(s.is_agent),
        SqlValue::Bool(s.is_active_for_agent_order),
        SqlValue::Text(s.phone),
        SqlValue::Text(s.email),
        SqlValue::Text(s.services),
        SqlValue::Text(s.depot),
        SqlValue::Text(s.name),
    ]
}

/// Marshals one site into its insert parameter row.
pub fn site_insert_params(s: &Site) -> (r: Vec<SqlValue>)
    ensures
        r@.len() == 17,
        r@ == site_params_spec(*s),
{
    let mut out: Vec<SqlValue> = Vec::new();
    out.push(SqlValue::Text(s.site_id.clone()));
    out.push(SqlValue::Bool(s.is_tasting_store));
    out.push(SqlValue::Text(s.alias.clone()));
    out.push(SqlValue::Text(s.address.clone()));
    out.push(SqlValue::Text(s.display_name.clone()));
    out.push(SqlValue::Text(s.postal_code.clone()));
    out.push(SqlValue::Text(s.city.clone()));
    out.push(SqlValue::Text(s.county.clone()));
    out.push(SqlValue::Text(s.country.clone()));
    out.push(SqlValue::Bool(s.is_store));
    out.push(SqlValue::Bool(s.is_agent));
    out.push(SqlValue::Bool(s.is_active_for_agent_order));
    out.push(SqlValue::Text(s.phone.clone()));
    out.push(SqlValue::Text(s.email.clone()));
    out.push(SqlValue::Text(s.services.clone()));
    out.push(SqlValue::Text(s.depot.clone()));
    out.push(SqlValue::Text(s.name.clone()));
    proof {
        assert(out@ =~= site_params_spec(*s));
    }
    out
}

/// A product row read back from the store has the expected shape: 42
/// cells whose kinds and ranges fit the product fields.
pub open spec fn product_row_wf(row: Seq<SqlValue>) -> bool {
    &&& row.len() == 42
    &&& row[0] is Text
    &&& row[1] is Text
    &&& row[2] is Text
    &&& row[3] is Text
    &&& row[4] is Text
    &&& row[5] is Text
    &&& row[6] is Text
    &&& row[7] is Text
    &&& row[8] is Bool
    &&& row[9] is Text
    &&& row[10] is Int && -2147483648 <= int_of(row[10]) <= 2147483647
    &&& row[11] is Text
    &&& row[12] is Bool
    &&& row[13] is Bool
    &&& row[14] is Text
    &&& row[15] is Bool
    &&& row[16] is Text
    &&& row[17] is Bool
    &&& row[18] is Bool
    &&& row[19] is Int && 0 <= int_of(row[19]) <= 65535
    &&& row[20] is Int && 0 <= int_of(row[20]) <= 4294967295
    &&& row[21] is Int && 0 <= int_of(row[21]) <= 4294967295
    &&& row[22] is Text
    &&& row[23] is Text
    &&& row[24] is Text
    &&& row[25] is Int && -2147483648 <= int_of(row[25]) <= 2147483647
    &&& row[26] is Text
    &&& row[27] is Text
    &&& row[28] is Text
    &&& row[29] is Text
    &&& row[30] is Text
    &&& row[31] is Text
    &&& row[32] is Text
    &&& row[33] is Text
    &&& row[34] is Bool
    &&& row[35] is Int && 0 <= int_of(row[35]) <= 4294967295
    &&& row[36] is Bool
    &&& row[37] is Text
    &&& row[38] is Bool
    &&& row[39] is Int && 0 <= int_of(row[39]) <= 9223372036854775807
    &&& row[40] is Int && 0 <= int_of(row[40]) <= 9223372036854775807
    &&& row[41] is Text
}

/// The product encoded by a well-formed row.
pub open spec fn row_product_spec(row: Seq<SqlValue>) -> Product {
    Product {
        product_id: str_of(row[0]),
        product_number: str_of(row[1]),
        product_name_bold: str_of(row[2]),
        product_name_thin: str_of(row[3]),
        category: str_of(row[4]),
        product_number_short: str_of(row[5]),
        producer_name: str_of(row[6]),
        supplier_name: str_of(row[7]),
        is_kosher: bool_of(row[8]),
        bottle_text_short: str_of(row[9]),
        restricted_parcel_quantity: int_of(row[10]) as i32,
        seal: str_of(row[11]),
        is_organic: bool_of(row[12]),
        is_ethical: bool_of(row[13]),
        ethical_label: str_of(row[14]),
        is_web_launch: bool_of(row[15]),
        sell_start_date: str_of(row[16]),
        is_completely_out_of_stock: bool_of(row[17]),
        is_temporary_out_of_stock: bool_of(row[18]),
        alcohol_percentage: int_of(row[19]) as u16,
        volume: int_of(row[20]) as u32,
        price: int_of(row[21]) as u32,
        country: str_of(row[22]),
        origin_level1: str_of(row[23]),
        origin_level2: str_of(row[24]),
        vintage: int_of(row[25]) as i32,
        sub_category: str_of(row[26]),
        a_type: str_of(row[27]),
        style: str_of(row[28]),
        assortment_text: str_of(row[29]),
        beverage_description_short: str_of(row[30]),
        usage_text: str_of(row[31]),
        taste: str_of(row[32]),
        assortment: str_of(row[33]),
        is_manufacturing_country: bool_of(row[34]),
        recycle_fee: int_of(row[35]) as u32,
        is_regional_retricted: bool_of(row[36]),
        is_in_store_search_assortment: str_of(row[37]),
        is_news: bool_of(row[38]),
        apk: int_of(row[39]) as u64,
        apk_recycling: int_of(row[40]) as u64,
        link: str_of(row[41]),
    }
}

/// Parses one row read back from the store into a product. Fails exactly
/// on rows that do not have the expected shape.
pub fn product_from_row(row: &Vec<SqlValue>) -> (r: Result<Product, Error>)
    ensures
        r.is_ok() <==> product_row_wf(row@),
        r matches Ok(p) ==> p == row_product_spec(row@),
        r matches Err(e) ==> e.kind == ErrorKind::Store,
{
    if row.len() != 42 {
        return Err(row_error());
    }
    let f_product_id = match &row[0] {
        SqlValue::Text(s) => s.clone(),
        _ => { return Err(row_error()); },
    };
    let f_product_number = match &row[1] {
        SqlValue::Text(s) => s.clone(),
        _ => { return Err(row_error()); },
    };
    let f_product_name_bold = match &row[2] {
        SqlValue::Text(s) => s.clone(),
        _ => { return Err(row_error()); },
    };
    let f_product_name_thin = match &row[3] {
        SqlValue::Text(s) => s.clone(),
        _ => { return Err(row_error()); },
    };
    let f_category = match &row[4] {
        SqlValue::Text(s) => s.clone(),
        _ => { return Err(row_error()); },
    };
    let f_product_number_short = match &row[5] {
        SqlValue::Text(s) => s.clone(),
        _ => { return Err(row_error()); },
    };
    let f_producer_name = match &row[6] {
        SqlValue::Text(s) => s.clone(),
        _ => { return Err(row_error()); },
    };
    let f_supplier_name = match &row[7] {
        SqlValue::Text(s) => s.clone(),
        _ => { return Err(row_error()); },
    };
    let f_is_kosher = match &row[8] {
        SqlValue::Bool(b) => *b,
        _ => { return Err(row_error()); },
    };
    let f_bottle_text_short = match &row[9] {
        SqlValue::Text(s) => s.clone(),
        _ => { return Err(row_error()); },
    };
    let f_restricted_parcel_quantity = match &row[10] {
        SqlValue::Int(n) => {
            if *n < -2147483648 || *n > 2147483647 {
                return Err(row_error());
            }
            *n as i32
        },
        _ => { return Err(row_error()); },
    };
    let f_seal = match &row[11] {
        SqlValue::Text(s) => s.clone(),
        _ => { return Err(row_error()); },
    };
    let f_is_organic = match &row[12] {
        SqlValue::Bool(b) => *b,
        _ => { return Err(row_error()); },
    };
    let f_is_ethical = match &row[13] {
        SqlValue::Bool(b) => *b,
        _ => { return Err(row_error()); },
    };
    let f_ethical_label = match &row[14] {
        SqlValue::Text(s) => s.clone(),
        _ => { return Err(row_error()); },
    };
    let f_is_web_launch = match &row[15] {
        SqlValue::Bool(b) => *b,
        _ => { return Err(row_error()); },
    };
    let f_sell_start_date = match &row[16] {
        SqlValue::Text(s) => s.clone(),
        _ => { return Err(row_error()); },
    };
    let f_is_completely_out_of_stock = match &row[17] {
        SqlValue::Bool(b) => *b,
        _ => { return Err(row_error()); },
    };
    let f_is_temporary_out_of_stock = match &row[18] {
        SqlValue::Bool(b) => *b,
        _ => { return Err(row_error()); },
    };
    let f_alcohol_percentage = match &row[19] {
        SqlValue::Int(n) => {
            if *n < 0 || *n > 65535 {
                return Err(row_error());
            }
            *n as u16
        },
        _ => { return Err(row_error()); },
    };
    let f_volume = match &row[20] {
        SqlValue::Int(n) => {
            if *n < 0 || *n > 4294967295 {
                return Err(row_error());
            }
            *n as u32
        },
        _ => { return Err(row_error()); },
    };
    let f_price = match &row[21] {
        SqlValue::Int(n) => {
            if *n < 0 || *n > 4294967295 {
                return Err(row_error());
            }
            *n as u32
        },
        _ => { return Err(row_error()); },
    };
    let f_country = match &row[22] {
        SqlValue::Text(s) => s.clone(),
        _ => { return Err(row_error()); },
    };
    let f_origin_level1 = match &row[23] {
        SqlValue::Text(s) => s.clone(),
        _ => { return Err(row_error()); },
    };
    let f_origin_level2 = match &row[24] {
        SqlValue::Text(s) => s.clone(),
        _ => { return Err(row_error()); },
    };
    let f_vintage = match &row[25] {
        SqlValue::Int(n) => {
            if *n < -2147483648 || *n > 2147483647 {
                return Err(row_error());
            }
            *n as i32
        },
        _ => { return Err(row_error()); },
    };
    let f_sub_category = match &row[26] {
        SqlValue::Text(s) => s.clone(),
        _ => { return Err(row_error()); },
    };
    let f_a_type = match &row[27] {
        SqlValue::Text(s) => s.clone(),
        _ => { return Err(row_error()); },
    };
    let f_style = match &row[28] {
        SqlValue::Text(s) => s.clone(),
        _ => { return Err(row_error()); },
    };
    let f_assortment_text = match &row[29] {
        SqlValue::Text(s) => s.clone(),
        _ => { return Err(row_error()); },
    };
    let f_beverage_description_short = match &row[30] {
        SqlValue::Text(s) => s.clone(),
        _ => { return Err(row_error()); },
    };
    let f_usage_text = match &row[31] {
        SqlValue::Text(s) => s.clone(),
        _ => { return Err(row_error()); },
    };
    let f_taste = match &row[32] {
        SqlValue::Text(s) => s.clone(),
        _ => { return Err(row_error()); },
    };
    let f_assortment = match &row[33] {
        SqlValue::Text(s) => s.clone(),
        _ => { return Err(row_error()); },
    };
    let f_is_manufacturing_country = match &row[34] {
        SqlValue::Bool(b) => *b,
        _ => { return Err(row_error()); },
    };
    let f_recycle_fee = match &row[35] {
        SqlValue::Int(n) => {
            if *n < 0 || *n > 4294967295 {
                return Err(row_error());
            }
            *n as u32
        },
        _ => { return Err(row_error()); },
    };
    let f_is_regional_retricted = match &row[36] {
        SqlValue::Bool(b) => *b,
        _ => { return Err(row_error()); },
    };
    let f_is_in_store_search_assortment = match &row[37] {
        SqlValue::Text(s) => s.clone(),
        _ => { return Err(row_error()); },
    };
    let f_is_news = match &row[38] {
        SqlValue::Bool(b) => *b,
        _ => { return Err(row_error()); },
    };
    let f_apk = match &row[39] {
        SqlValue::Int(n) => {
            if *n < 0 || *n > 9223372036854775807 {
                return Err(row_error());
            }
            *n as u64
        },
        _ => { return Err(row_error()); },
    };
    let f_apk_recycling = match &row[40] {
        SqlValue::Int(n) => {
            if *n < 0 || *n > 9223372036854775807 {
                return Err(row_error());
            }
            *n as u64
        },
        _ => { return Err(row_error()); },
    };
    let f_link = match &row[41] {
        SqlValue::Text(s) => s.clone(),
        _ => { return Err(row_error()); },
    };
    Ok(Product {
        product_id: f_product_id,
        product_number: f_product_number,
        product_name_bold: f_product_name_bold,
        product_name_thin: f_product_name_thin,
        category: f_category,
        product_number_short: f_product_number_short,
        producer_name: f_producer_name,
        supplier_name: f_supplier_name,
        is_kosher: f_is_kosher,
        bottle_text_short: f_bottle_text_short,
        restricted_parcel_quantity: f_restricted_parcel_quantity,
        seal: f_seal,
        is_organic: f_is_organic,
        is_ethical: f_is_ethical,
        ethical_label: f_ethical_label,
        is_web_launch: f_is_web_launch,
        sell_start_date: f_sell_start_date,
        is_completely_out_of_stock: f_is_completely_out_of_stock,
        is_temporary_out_of_stock: f_is_temporary_out_of_stock,
        alcohol_percentage: f_alcohol_percentage,
        volume: f_volume,
        price: f_price,
        country: f_country,
        origin_level1: f_origin_level1,
        origin_level2: f_origin_level2,
        vintage: f_vintage,
        sub_category: f_sub_category,
        a_type: f_a_type,
        style: f_style,
        assortment_text: f_assortment_text,
        beverage_description_short: f_beverage_description_short,
        usage_text: f_usage_text,
        taste: f_taste,
        assortment: f_assortment,
        is_manufacturing_country: f_is_manufacturing_country,
        recycle_fee: f_recycle_fee,
        is_regional_retricted: f_is_regional_retricted,
        is_in_store_search_assortment: f_is_in_store_search_assortment,
        is_news: f_is_news,
        apk: f_apk,
        apk_recycling: f_apk_recycling,
        link: f_link,
    })
}

/// A site row read back from the store has the expected shape.
pub open spec fn site_row_wf(row: Seq<SqlValue>) -> bool {
    &&& row.len() == 17
    &&& row[0] is Text
    &&& row[1] is Bool
    &&& row[2] is Text
    &&& row[3] is Text
    &&& row[4] is Text
    &&& row[5] is Text
    &&& row[6] is Text
    &&& row[7] is Text
    &&& row[8] is Text
    &&& row[9] is Bool
    &&& row[10] is Bool
    &&& row[11] is Bool
    &&& row[12] is Text
    &&& row[13] is Text
    &&& row[14] is Text
    &&& row[15] is Text
    &&& row[16] is Text
}

/// The site encoded by a well-formed row, with the given opening hours
/// (reads do not reconstruct them) and a zero position.
pub open spec fn row_site_spec(row: Seq<SqlValue>, opening_hours: Vec<OpeningTime>) -> Site {
    Site {
        site_id: str_of(row[0]),
        is_tasting_store: bool_of(row[1]),
        alias: str_of(row[2]),
        address: str_of(row[3]),
        display_name: str_of(row[4]),
        postal_code: str_of(row[5]),
        city: str_of(row[6]),
        county: str_of(row[7]),
        country: str_of(row[8]),
        is_store: bool_of(row[9]),
        is_agent: bool_of(row[10]),
        is_active_for_agent_order: bool_of(row[11]),
        phone: str_of(row[12]),
        email: str_of(row[13]),
        services: str_of(row[14]),
        depot: str_of(row[15]),
        name: str_of(row[16]),
        opening_hours: opening_hours,
        position: Position { lat: 0, long: 0 },
    }
}

/// Parses one row read back from the store into a site. Opening hours and
/// position are not persisted: they come back empty and zero.
pub fn site_from_row(row: &Vec<SqlValue>) -> (r: Result<Site, Error>)
    ensures
        r.is_ok() <==> site_row_wf(row@),
        r matches Ok(st) ==> st == row_site_spec(row@, st.opening_hours)
            && st.opening_hours@.len() == 0,
        r matches Err(e) ==> e.kind == ErrorKind::Store,
{
    if row.len() != 17 {
        return Err(row_error());
    }
    let f_site_id = match &row[0] {
        SqlValue::Text(s) => s.clone(),
        _ => { return Err(row_error()); },
    };
    let f_is_tasting_store = match &row[1] {
        SqlValue::Bool(b) => *b,
        _ => { return Err(row_error()); },
    };
    let f_alias = match &row[2] {
        SqlValue::Text(s) => s.clone(),
        _ => { return Err(row_error()); },
    };
    let f_address = match &row[3] {
        SqlValue::Text(s) => s.clone(),
        _ => { return Err(row_error()); },
    };
    let f_display_name = match &row[4] {
        SqlValue::Text(s) => s.clone(),
        _ => { return Err(row_error()); },
    };
    let f_postal_code = match &row[5] {
        SqlValue::Text(s) => s.clone(),
        _ => { return Err(row_error()); },
    };
    let f_city = match &row[6] {
        SqlValue::Text(s) => s.clone(),
        _ => { return Err(row_error()); },
    };
    let f_county = match &row[7] {
        SqlValue::Text(s) => s.clone(),
        _ => { return Err(row_error()); },
    };
    let f_country = match &row[8] {
        SqlValue::Text(s) => s.clone(),
        _ => { return Err(row_error()); },
    };
    let f_is_store = match &row[9] {
        SqlValue::Bool(b) => *b,
        _ => { return Err(row_error()); },
    };
    let f_is_agent = match &row[10] {
        SqlValue::Bool(b) => *b,
        _ => { return Err(row_error()); },
    };
    let f_is_active_for_agent_order = match &row[11] {
        SqlValue::Bool(b) => *b,
        _ => { return Err(row_error()); },
    };
    let f_phone = match &row[12] {
        SqlValue::Text(s) => s.clone(),
        _ => { return Err(row_error()); },
    };
    let f_email = match &row[13] {
        SqlValue::Text(s) => s.clone(),
        _ => { return Err(row_error()); },
    };
    let f_services = match &row[14] {
        SqlValue::Text(s) => s.clone(),
        _ => { return Err(row_error()); },
    };
    let f_depot = match &row[15] {
        SqlValue::Text(s) => s.clone(),
        _ => { return Err(row_error()); },
    };
    let f_name = match &row[16] {
        SqlValue::Text(s) => s.clone(),
        _ => { return Err(row_error()); },
    };
    Ok(Site {
        site_id: f_site_id,
        is_tasting_store: f_is_tasting_store,
        alias: f_alias,
        address: f_address,
        display_name: f_display_name,
        postal_code: f_postal_code,
        city: f_city,
        county: f_county,
        country: f_country,
        is_store: f_is_store,
        is_agent: f_is_agent,
        is_active_for_agent_order: f_is_active_for_agent_order,
        phone: f_phone,
        email: f_email,
        services: f_services,
        depot: f_depot,
        name: f_name,
        opening_hours: Vec::new(),
        position: Position { lat: 0, long: 0 },
    })
}

/// The `(product_id, site_id)` pairs of the availability mapping, sites
/// in order: the rows the junction rebuild attempts to insert.
pub open spec fn junction_pairs_spec(mapping: Seq<MinimalSite>) -> Seq<(Seq<char>, Seq<char>)>
    decreases mapping.len(),
{
    if mapping.len() == 0 {
        Seq::empty()
    } else {
        mapping[0].products@.map(|i: int, mp: crate::product::MinimalProduct| (mp.product_id@,
            mapping[0].site_id@)) + junction_pairs_spec(mapping.skip(1))
    }
}

/// Flattens the availability mapping into the junction rows to insert,
/// `(product_id, site_id)`, sites in order.
pub fn junction_pairs(mapping: &Vec<MinimalSite>) -> (r: Vec<(String, String)>)
    ensures
        r@.map(|i: int, pr: (String, String)| (pr.0@, pr.1@)) == junction_pairs_spec(mapping@),
{
    let mut out: Vec<(String, String)> = Vec::new();
    let mut si: usize = 0;
    proof {
        assert(mapping@.skip(0) =~= mapping@);
        assert(out@.map(|i: int, pr: (String, String)| (pr.0@, pr.1@)) + junction_pairs_spec(
            mapping@) =~= junction_pairs_spec(mapping@));
    }
    while si < mapping.len()
        invariant
            si <= mapping@.len(),
            out@.map(|i: int, pr: (String, String)| (pr.0@, pr.1@)) + junction_pairs_spec(
                mapping@.skip(si as int)) == junction_pairs_spec(mapping@),
        decreases mapping@.len() - si,
    {
        let ghost entry = mapping@[si as int].products@.map(
            |i: int, mp: crate::product::MinimalProduct| (mp.product_id@,
            mapping@[si as int].site_id@));
        proof {
            assert(mapping@.skip(si as int)[0] == mapping@[si as int]);
            assert(mapping@.skip(si as int).skip(1) =~= mapping@.skip(si as int + 1));
            assert(junction_pairs_spec(mapping@.skip(si as int)) == entry + junction_pairs_spec(
                mapping@.skip(si as int + 1)));
            assert(entry.skip(0) =~= entry);
        }
        let site = &mapping[si];
        let mut pj: usize = 0;
        while pj < site.products.len()
            invariant
                pj <= site.products@.len(),
                site == mapping@[si as int],
                si < mapping@.len(),
                entry == mapping@[si as int].products@.map(
                    |i: int, mp: crate::product::MinimalProduct| (mp.product_id@,
                    mapping@[si as int].site_id@)),
                out@.map(|i: int, pr: (String, String)| (pr.0@, pr.1@)) + entry.skip(pj as int)
                    + junction_pairs_spec(mapping@.skip(si as int + 1)) == junction_pairs_spec(
                    mapping@),
            decreases site.products@.len() - pj,
        {
            let ghost prev = out@;
            out.push((site.products[pj].product_id.clone(), site.site_id.clone()));
            proof {
                assert(entry.skip(pj as int)[0] == (site.products@[pj as int].product_id@,
                    site.site_id@));
                assert(entry.skip(pj as int).skip(1) =~= entry.skip(pj as int + 1));
                assert(entry.skip(pj as int) =~= seq![(site.products@[pj as int].product_id@,
                    site.site_id@)] + entry.skip(pj as int + 1));
                assert(out@.map(|i: int, pr: (String, String)| (pr.0@, pr.1@)) =~= prev.map(
                    |i: int, pr: (String, String)| (pr.0@, pr.1@)) + seq![(
                    site.products@[pj as int].product_id@, site.site_id@)]);
                assert(out@.map(|i: int, pr: (String, String)| (pr.0@, pr.1@)) + entry.skip(
                    pj as int + 1) =~= prev.map(|i: int, pr: (String, String)| (pr.0@, pr.1@))
                    + entry.skip(pj as int));
                assert(out@.map(|i: int, pr: (String, String)| (pr.0@, pr.1@)) + entry.skip(
                    pj as int + 1) + junction_pairs_spec(mapping@.skip(si as int + 1)) =~= prev.map(
                    |i: int, pr: (String, String)| (pr.0@, pr.1@)) + entry.skip(pj as int)
                    + junction_pairs_spec(mapping@.skip(si as int + 1)));
            }
            pj = pj + 1;
        }
        proof {
            assert(entry.skip(site.products@.len() as int) =~= Seq::<(Seq<char>, Seq<char>)>::empty());
            assert(out@.map(|i: int, pr: (String, String)| (pr.0@, pr.1@)) + Seq::<(Seq<char>,
                Seq<char>)>::empty() + junction_pairs_spec(mapping@.skip(si as int + 1))
                =~= out@.map(|i: int, pr: (String, String)| (pr.0@, pr.1@)) + junction_pairs_spec(
                mapping@.skip(si as int + 1)));
        }
        si = si + 1;
    }
    proof {
        assert(mapping@.skip(mapping@.len() as int) =~= Seq::<MinimalSite>::empty());
        assert(junction_pairs_spec(Seq::<MinimalSite>::empty()) == Seq::<(Seq<char>,
            Seq<char>)>::empty());
        assert(out@.map(|i: int, pr: (String, String)| (pr.0@, pr.1@)) + Seq::<(Seq<char>,
            Seq<char>)>::empty() =~= out@.map(|i: int, pr: (String, String)| (pr.0@, pr.1@)));
    }
    out
}

/// The parameterized product insert statement, columns in the order of
/// `product_params_spec`.
pub fn products_insert_sql() -> (r: &'static str)
    ensures
        r@ == "INSERT INTO products (product_id, product_number, product_name_bold, product_name_thin, category, product_number_short, producer_name, supplier_name, is_kosher, bottle_text_short, restricted_parcel_quantity, seal, is_organic, is_ethical, ethical_label, is_web_launch, sell_start_date, is_completely_out_of_stock, is_temporary_out_of_stock, alcohol_percentage, volume, price, country, origin_level1, origin_level2, vintage, sub_category, a_type, style, assortment_text, beverage_description_short, usage_text, taste, assortment, is_manufacturing_country, recycle_fee, is_regional_retricted, is_in_store_search_assortment, is_news, apk, apk_recycling, link) VALUES (?1, ?2, ?3, ?4, ?5, ?6, ?7, ?8, ?9, ?10, ?11, ?12, ?13, ?14, ?15, ?16, ?17, ?18, ?19, ?20, ?21, ?22, ?23, ?24, ?25, ?26, ?27, ?28, ?29, ?30, ?31, ?32, ?33, ?34, ?35, ?36, ?37, ?38, ?39, ?40, ?41, ?42)"@,
{
    "INSERT INTO products (product_id, product_number, product_name_bold, product_name_thin, category, product_number_short, producer_name, supplier_name, is_kosher, bottle_text_short, restricted_parcel_quantity, seal, is_organic, is_ethical, ethical_label, is_web_launch, sell_start_date, is_completely_out_of_stock, is_temporary_out_of_stock, alcohol_percentage, volume, price, country, origin_level1, origin_level2, vintage, sub_category, a_type, style, assortment_text, beverage_description_short, usage_text, taste, assortment, is_manufacturing_country, recycle_fee, is_regional_retricted, is_in_store_search_assortment, is_news, apk, apk_recycling, link) VALUES (?1, ?2, ?3, ?4, ?5, ?6, ?7, ?8, ?9, ?10, ?11, ?12, ?13, ?14, ?15, ?16, ?17, ?18, ?19, ?20, ?21, ?22, ?23, ?24, ?25, ?26, ?27, ?28, ?29, ?30, ?31, ?32, ?33, ?34, ?35, ?36, ?37, ?38, ?39, ?40, ?41, ?42)"
}

/// The parameterized site insert statement, columns in the order of
/// `site_params_spec`.
pub fn sites_insert_sql() -> (r: &'static str)
    ensures
        r@ == "INSERT INTO sites (site_id, is_tasting_store, alias, address, display_name, postal_code, city, county, country, is_store, is_agent, is_active_for_agent_order, phone, email, services, depot, name) VALUES (?1, ?2, ?3, ?4, ?5, ?6, ?7, ?8, ?9, ?10, ?11, ?12, ?13, ?14, ?15, ?16, ?17)"@,
{
    "INSERT INTO sites (site_id, is_tasting_store, alias, address, display_name, postal_code, city, county, country, is_store, is_agent, is_active_for_agent_order, phone, email, services, depot, name) VALUES (?1, ?2, ?3, ?4, ?5, ?6, ?7, ?8, ?9, ?10, ?11, ?12, ?13, ?14, ?15, ?16, ?17)"
}

/// The parameterized junction insert statement, parameters in the order
/// of `junction_pairs`.
pub fn junction_insert_sql() -> (r: &'static str)
    ensures
        r@ == "INSERT INTO sites_products (product_key, site_key) VALUES (?1, ?2)"@,
{
    "INSERT INTO sites_products (product_key, site_key) VALUES (?1, ?2)"
}

/// Clears the products table before reinsert.
pub fn products_delete_sql() -> (r: &'static str)
    ensures
        r@ == "DELETE FROM products;"@,
{
    "DELETE FROM products;"
}

/// Clears the sites table before reinsert.
pub fn sites_delete_sql() -> (r: &'static str)
    ensures
        r@ == "DELETE FROM sites;"@,
{
    "DELETE FROM sites;"
}

/// Clears the junction table before its rebuild.
pub fn junction_delete_sql() -> (r: &'static str)
    ensures
        r@ == "DELETE FROM sites_products;"@,
{
    "DELETE FROM sites_products;"
}

/// The read of every persisted site that is a store, columns in the
/// order of `site_row_wf`.
pub fn sites_select_sql() -> (r: &'static str)
    ensures
        r@ == "SELECT * FROM sites WHERE is_store = true"@,
{
    "SELECT * FROM sites WHERE is_store = true"
}

} // verus!
