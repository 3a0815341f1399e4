//! Query compilation.
//!
//! A validated filter request compiles into one bounded, ordered SELECT
//! with a fixed clause structure: the volume bound, an optional exact
//! category match, at most one site filter, the metric ordering, and the
//! result cap. Caller-supplied text (`site_id`, `category`) is never part
//! of the statement text: it is emitted as bound parameters, in the order
//! their placeholders appear.

use vstd::prelude::*;
use crate::product::ProductOpts;
use crate::text::{dec_spec, u64_to_dec};
use crate::errors::{Error, ErrorKind};

verus! {

/// A compiled query: its statement text and the bound parameters, in
/// placeholder order.
#[derive(Debug, Clone)]
pub struct Query {
    pub text: String,
    pub params: Vec<String>,
}

/// The leading clause: volume bounded above, inclusively.
pub open spec fn base_spec(max_volume: u32) -> Seq<char> {
    "SELECT * FROM products p WHERE volume <= "@ + dec_spec(max_volume as nat)
}

/// The category clause: an exact match on the category parameter, present
/// exactly when a category was given.
pub open spec fn category_clause_spec(category: Seq<char>) -> Seq<char> {
    if category.len() > 0 {
        " AND p.category = ?"@
    } else {
        Seq::empty()
    }
}

/// The site clause: a given site id filters through that site's junction
/// rows; otherwise `exists_in_store` filters through any junction row;
/// otherwise no site filtering.
pub open spec fn site_clause_spec(site_id: Seq<char>, exists_in_store: bool) -> Seq<char> {
    if site_id.len() > 0 {
        " AND p.product_id IN (SELECT product_key FROM sites_products sp WHERE sp.site_key = ?)"@
    } else if exists_in_store {
        " AND EXISTS(SELECT * FROM sites_products WHERE product_key = p.product_id)"@
    } else {
        Seq::empty()
    }
}

/// The ordering clause: by the net metric when recycling is included,
/// else by the gross metric.
pub open spec fn order_clause_spec(include_recycling: bool) -> Seq<char> {
    if include_recycling {
        " ORDER BY apk_recycling"@
    } else {
        " ORDER BY apk"@
    }
}

/// The cap clause: descending order, limited to `count` rows.
pub open spec fn limit_clause_spec(count: nat) -> Seq<char> {
    " DESC LIMIT "@ + dec_spec(count) + ";"@
}

/// The full statement text of a compiled request.
pub open spec fn query_text_spec(opts: ProductOpts) -> Seq<char> {
    base_spec(opts.max_volume) + category_clause_spec(opts.category@) + site_clause_spec(
        opts.site_id@, opts.exists_in_store) + order_clause_spec(opts.include_recycling)
        + limit_clause_spec(opts.count as nat)
}

/// The bound parameters of a compiled request, in placeholder order: the
/// category match first when present, then the site id when present.
pub open spec fn params_spec(opts: ProductOpts) -> Seq<Seq<char>> {
    (if opts.category@.len() > 0 {
        seq![opts.category@]
    } else {
        Seq::empty()
    }) + (if opts.site_id@.len() > 0 {
        seq![opts.site_id@]
    } else {
        Seq::empty()
    })
}

/// Rejects a filter request whose required result cap is not positive.
/// Requests from the outside pass here before compilation; the compiler
/// itself performs no further validation.
pub fn validate_opts(opts: &ProductOpts) -> (r: Result<(), Error>)
    ensures
        r.is_ok() <==> opts.count > 0,
        r matches Err(e) ==> e.kind == ErrorKind::Validation,
{
    if opts.count == 0 {
        Err(Error::new(ErrorKind::Validation, String::from_str(
            "invalid filter request: count must be positive"), String::new()))
    } else {
        Ok(())
    }
}

/// Compiles a validated filter request into one bounded, ordered SELECT.
pub struct QueryBuilder {
    opts: ProductOpts,
}

impl QueryBuilder {
    fn create_base(&self) -> (r: String)
        ensures
            r@ == base_spec(self.opts.max_volume),
    {
        let mut out = String::new();
        out.append("SELECT * FROM products p WHERE volume <= ");
        let bound = u64_to_dec(self.opts.max_volume as u64);
        out.append(bound.as_str());
        proof {
            assert(out@ =~= base_spec(self.opts.max_volume));
        }
        out
    }

    fn include_category(&self) -> (r: String)
        ensures
            r@ == category_clause_spec(self.opts.category@),
    {
        if !self.opts.category.as_str().is_empty() {
            String::from_str(" AND p.category = ?")
        } else {
            String::new()
        }
    }

    fn add_site(&self) -> (r: String)
        ensures
            r@ == site_clause_spec(self.opts.site_id@, self.opts.exists_in_store),
    {
        if !self.opts.site_id.as_str().is_empty() {
            String::from_str(
                " AND p.product_id IN (SELECT product_key FROM sites_products sp WHERE sp.site_key = ?)",
            )
        } else if self.opts.exists_in_store {
            String::from_str(
                " AND EXISTS(SELECT * FROM sites_products WHERE product_key = p.product_id)",
            )
        } else {
            String::new()
        }
    }

    fn include_recycling(&self) -> (r: String)
        ensures
            r@ == order_clause_spec(self.opts.include_recycling),
    {
        if self.opts.include_recycling {
            String::from_str(" ORDER BY apk_recycling")
        } else {
            String::from_str(" ORDER BY apk")
        }
    }

    fn limit(&self) -> (r: String)
        ensures
            r@ == limit_clause_spec(self.opts.count as nat),
    {
        let mut out = String::new();
        out.append(" DESC LIMIT ");
        let cap = u64_to_dec(self.opts.count as u64);
        out.append(cap.as_str());
        out.append(";");
        proof {
            assert(out@ =~= limit_clause_spec(self.opts.count as nat));
        }
        out
    }

    fn to_query(&self) -> (r: String)
        ensures
            r@ == query_text_spec(self.opts),
    {
        let mut out = self.create_base();
        let category = self.include_category();
        out.append(category.as_str());
        let site = self.add_site();
        out.append(site.as_str());
        let order = self.include_recycling();
        out.append(order.as_str());
        let cap = self.limit();
        out.append(cap.as_str());
        proof {
            assert(out@ =~= query_text_spec(self.opts));
        }
        out
    }

    /// Compiles the request: the fixed clause structure as statement text,
    /// with the caller-supplied category and site id as bound parameters
    /// in placeholder order.
    pub fn build(opts: ProductOpts) -> (r: Query)
        ensures
            r.text@ == query_text_spec(opts),
            r.params@.map(|i: int, s: String| s@) == params_spec(opts),
    {
        let mut params: Vec<String> = Vec::new();
        if !opts.category.as_str().is_empty() {
            params.push(opts.category.clone());
        }
        if !opts.site_id.as_str().is_empty() {
            params.push(opts.site_id.clone());
        }
        proof {
            assert(params@.map(|i: int, s: String| s@) =~= params_spec(opts));
        }
        let this = QueryBuilder { opts };
        let text = this.to_query();
        Query { text, params }
    }
}

} // verus!
