//! Schema definitions.
//!
//! Each table is created with an idempotent "create if not exists"
//! definition, safe to execute on every process start. The junction table
//! references both parent tables with cascading delete, so replacing a
//! parent row's table automatically clears its junction rows.

use vstd::prelude::*;

verus! {

/// The idempotent definition of the products table. Numeric columns are
/// integers in the library's fixed-point units; the derived metrics are
/// integer micro-units.
pub fn products_schema_sql() -> (r: &'static str)
    ensures
        r@ == "CREATE TABLE IF NOT EXISTS products (product_id VARCHAR PRIMARY KEY, product_number text, product_name_bold text, product_name_thin text, category text, product_number_short text, producer_name text, supplier_name text, is_kosher BOOLEAN not null, bottle_text_short text, restricted_parcel_quantity int not null, seal text, is_organic BOOLEAN not null, is_ethical BOOLEAN not null, ethical_label text, is_web_launch BOOLEAN not null, sell_start_date text, is_completely_out_of_stock BOOLEAN not null, is_temporary_out_of_stock BOOLEAN not null, alcohol_percentage INTEGER not null, volume INTEGER not null, price INTEGER not null, country text, origin_level1 text, origin_level2 text, vintage int not null, sub_category text, a_type text, style text, assortment_text text, beverage_description_short text, usage_text text, taste text, assortment text, is_manufacturing_country BOOLEAN not null, recycle_fee INTEGER not null, is_regional_retricted BOOLEAN not null, is_in_store_search_assortment text, is_news BOOLEAN not null, apk INTEGER not null, apk_recycling INTEGER not null, link text not null, ts TIMESTAMP DEFAULT CURRENT_TIMESTAMP)"@,
{
    "CREATE TABLE IF NOT EXISTS products (product_id VARCHAR PRIMARY KEY, product_number text, product_name_bold text, product_name_thin text, category text, product_number_short text, producer_name text, supplier_name text, is_kosher BOOLEAN not null, bottle_text_short text, restricted_parcel_quantity int not null, seal text, is_organic BOOLEAN not null, is_ethical BOOLEAN not null, ethical_label text, is_web_launch BOOLEAN not null, sell_start_date text, is_completely_out_of_stock BOOLEAN not null, is_temporary_out_of_stock BOOLEAN not null, alcohol_percentage INTEGER not null, volume INTEGER not null, price INTEGER not null, country text, origin_level1 text, origin_level2 text, vintage int not null, sub_category text, a_type text, style text, assortment_text text, beverage_description_short text, usage_text text, taste text, assortment text, is_manufacturing_country BOOLEAN not null, recycle_fee INTEGER not null, is_regional_retricted BOOLEAN not null, is_in_store_search_assortment text, is_news BOOLEAN not null, apk INTEGER not null, apk_recycling INTEGER not null, link text not null, ts TIMESTAMP DEFAULT CURRENT_TIMESTAMP)"
}

/// The idempotent definition of the sites table.
pub fn sites_schema_sql() -> (r: &'static str)
    ensures
        r@ == "CREATE TABLE IF NOT EXISTS sites (site_id VARCHAR PRIMARY KEY, is_tasting_store bool, alias text, address text, display_name text, postal_code text, city text, county text, country text, is_store bool, is_agent bool, is_active_for_agent_order bool, phone text, email text, services text, depot text, name text)"@,
{
    "CREATE TABLE IF NOT EXISTS sites (site_id VARCHAR PRIMARY KEY, is_tasting_store bool, alias text, address text, display_name text, postal_code text, city text, county text, country text, is_store bool, is_agent bool, is_active_for_agent_order bool, phone text, email text, services text, depot text, name text)"
}

/// The idempotent definition of the junction table: both columns are
/// foreign keys to the parent tables with cascading delete.
pub fn junction_schema_sql() -> (r: &'static str)
    ensures
        r@ == "CREATE TABLE IF NOT EXISTS sites_products (product_key VARCHAR REFERENCES products(product_id) ON DELETE CASCADE, site_key VARCHAR REFERENCES sites(site_id) ON DELETE CASCADE, PRIMARY KEY (product_key, site_key))"@,
{
    "CREATE TABLE IF NOT EXISTS sites_products (product_key VARCHAR REFERENCES products(product_id) ON DELETE CASCADE, site_key VARCHAR REFERENCES sites(site_id) ON DELETE CASCADE, PRIMARY KEY (product_key, site_key))"
}

} // verus!
