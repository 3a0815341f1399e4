//! Site data model.
//!
//! A site is a physical retail location. Coordinates are integers in
//! microdegrees so that the model stays in exact arithmetic; callers that
//! need fractional degrees convert at the boundary.

use vstd::prelude::*;
use crate::product::SiteResponse;

verus! {

/// A physical retail location, uniquely identified by `site_id`.
#[derive(Debug, Clone)]
pub struct Site {
    pub site_id: String,
    pub is_tasting_store: bool,
    pub alias: String,
    pub address: String,
    pub display_name: String,
    pub postal_code: String,
    pub city: String,
    pub county: String,
    pub country: String,
    pub is_store: bool,
    pub is_agent: bool,
    pub is_active_for_agent_order: bool,
    pub phone: String,
    pub email: String,
    pub services: String,
    pub opening_hours: Vec<OpeningTime>,
    pub depot: String,
    pub name: String,
    pub position: Position,
}

/// One day's opening information of a site.
#[derive(Debug, Clone)]
pub struct OpeningTime {
    pub is_open: bool,
    pub reason: String,
    pub date: String,
    pub open_from: String,
    pub open_to: String,
}

/// A geographic position in microdegrees.
#[derive(Debug, Clone, Copy, PartialEq, Eq, Structural)]
pub struct Position {
    pub lat: i64,
    pub long: i64,
}

/// The name listing of a site sequence: every site with a non-empty
/// display name, reduced to its id and name, in order.
pub open spec fn site_names_spec(sites: Seq<Site>) -> Seq<SiteResponse>
    decreases sites.len(),
{
    if sites.len() == 0 {
        Seq::empty()
    } else {
        (if sites[0].display_name@.len() > 0 {
            seq![SiteResponse { site_name: sites[0].name, site_id: sites[0].site_id }]
        } else {
            Seq::empty()
        }) + site_names_spec(sites.skip(1))
    }
}

/// Reduces a fetched site list to the entries shown to callers: every
/// site with a non-empty display name as a `(site_id, site_name)` pair,
/// in order.
pub fn site_names(sites: &Vec<Site>) -> (r: Vec<SiteResponse>)
    ensures
        r@ == site_names_spec(sites@),
{
    let mut out: Vec<SiteResponse> = Vec::new();
    let mut i: usize = 0;
    proof {
        assert(sites@.skip(0) =~= sites@);
        assert(out@ + site_names_spec(sites@) =~= site_names_spec(sites@));
    }
    while i < sites.len()
        invariant
            i <= sites@.len(),
            out@ + site_names_spec(sites@.skip(i as int)) == site_names_spec(sites@),
        decreases sites@.len() - i,
    {
        let ghost prev = out@;
        proof {
            assert(sites@.skip(i as int)[0] == sites@[i as int]);
            assert(sites@.skip(i as int).skip(1) =~= sites@.skip(i as int + 1));
        }
        let site = &sites[i];
        if !site.display_name.as_str().is_empty() {
            out.push(SiteResponse { site_name: site.name.clone(), site_id: site.site_id.clone() });
            proof {
                assert(out@ =~= prev + seq![SiteResponse {
                    site_name: sites@[i as int].name,
                    site_id: sites@[i as int].site_id,
                }]);
                assert(out@ + site_names_spec(sites@.skip(i as int + 1)) =~= prev
                    + site_names_spec(sites@.skip(i as int)));
            }
        }
        i = i + 1;
    }
    proof {
        assert(sites@.skip(sites@.len() as int) =~= Seq::<Site>::empty());
        assert(out@ + site_names_spec(Seq::<Site>::empty()) =~= out@);
    }
    out
}

} // verus!
