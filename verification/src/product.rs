//! Product data model.
//!
//! Monetary amounts (`price`, `recycle_fee`) are integers in hundredths of
//! the currency unit, `volume` is in milliliters, and `alcohol_percentage`
//! is in hundredths of a percent, so that every derived computation is
//! exact integer arithmetic. The derived fields `apk`, `apk_recycling`
//! (micro-units, see `arithmetic`) and `link` are computed locally and are
//! never trusted from the remote source.

use vstd::prelude::*;
use crate::text::url_safe_spec;
use crate::text::remove_swe_signs_and_replace_spaces;

verus! {

/// A catalog product, uniquely identified by `product_id`.
#[derive(Debug, Clone)]
pub struct Product {
    pub product_id: String,
    pub product_number: String,
    pub product_name_bold: String,
    pub product_name_thin: String,
    pub category: String,
    pub product_number_short: String,
    pub producer_name: String,
    pub supplier_name: String,
    pub is_kosher: bool,
    pub bottle_text_short: String,
    pub restricted_parcel_quantity: i32,
    pub seal: String,
    pub is_organic: bool,
    pub is_ethical: bool,
    pub ethical_label: String,
    pub is_web_launch: bool,
    pub sell_start_date: String,
    pub is_completely_out_of_stock: bool,
    pub is_temporary_out_of_stock: bool,
    pub alcohol_percentage: u16,
    pub volume: u32,
    pub price: u32,
    pub country: String,
    pub origin_level1: String,
    pub origin_level2: String,
    pub vintage: i32,
    pub sub_category: String,
    pub a_type: String,
    pub style: String,
    pub assortment_text: String,
    pub beverage_description_short: String,
    pub usage_text: String,
    pub taste: String,
    pub assortment: String,
    pub is_manufacturing_country: bool,
    pub recycle_fee: u32,
    pub is_regional_retricted: bool,
    pub is_in_store_search_assortment: String,
    pub is_news: bool,
    pub apk: u64,
    pub apk_recycling: u64,
    pub link: String,
}

/// The canonical display path of a product: its category and bold name
/// made URL-safe, joined with the product number.
pub open spec fn link_spec(category: Seq<char>, name: Seq<char>, number: Seq<char>) -> Seq<char> {
    "https://systembolaget.se/dryck/"@ + url_safe_spec(category) + "/"@ + url_safe_spec(name)
        + "-"@ + number
}

impl Product {
    /// Builds the canonical display link of this product.
    pub fn construct_link(&self) -> (r: String)
        ensures
            r@ == link_spec(self.category@, self.product_name_bold@, self.product_number@),
    {
        let mut out = String::new();
        out.append("https://systembolaget.se/dryck/");
        let cat = remove_swe_signs_and_replace_spaces(self.category.as_str());
        out.append(cat.as_str());
        out.append("/");
        let name = remove_swe_signs_and_replace_spaces(self.product_name_bold.as_str());
        out.append(name.as_str());
        out.append("-");
        out.append(self.product_number.as_str());
        proof {
            assert(out@ =~= link_spec(self.category@, self.product_name_bold@,
                self.product_number@));
        }
        out
    }
}

/// A validated filter request for the product query compiler.
///
/// `max_volume` is an inclusive upper bound in milliliters and `count` a
/// positive result cap; `site_id` and `category` are exact-match filters
/// that are empty when absent.
#[derive(Debug, Clone)]
pub struct ProductOpts {
    pub count: usize,
    pub include_recycling: bool,
    pub exists_in_store: bool,
    pub max_volume: u32,
    pub site_id: String,
    pub category: String,
}

/// One site's availability entry: the products available at that site.
#[derive(Debug, Clone)]
pub struct MinimalSite {
    pub site_id: String,
    pub products: Vec<MinimalProduct>,
}

/// A product reference inside an availability entry.
#[derive(Debug, Clone)]
pub struct MinimalProduct {
    pub product_id: String,
    pub product_number: String,
}

/// The reduced site representation returned to callers listing site names.
#[derive(Debug, Clone)]
pub struct SiteResponse {
    pub site_name: String,
    pub site_id: String,
}

} // verus!
