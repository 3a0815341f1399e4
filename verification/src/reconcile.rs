//! Reconciliation of fetched catalog data.
//!
//! A refresh fetches the full product list and, independently, every
//! site's availability list. Only products reachable from at least one
//! availability entry are persisted: the mirror stores sellable products,
//! not the full remote catalog. Each availability reference consumes at
//! most one product; references to unknown products are silently skipped,
//! and each surviving product gets its canonical display link.

use vstd::prelude::*;
use crate::product::{Product, MinimalSite, MinimalProduct, link_spec};

verus! {

/// The product ids of a product list, in order.
pub open spec fn product_ids(ps: Seq<Product>) -> Seq<Seq<char>> {
    ps.map(|i: int, p: Product| p.product_id@)
}

/// The product ids referenced by one availability entry, in order.
pub open spec fn entry_refs(products: Seq<MinimalProduct>) -> Seq<Seq<char>> {
    products.map(|i: int, mp: MinimalProduct| mp.product_id@)
}

/// Every product id referenced by the availability mapping, sites in order.
pub open spec fn mapping_refs(mapping: Seq<MinimalSite>) -> Seq<Seq<char>>
    decreases mapping.len(),
{
    if mapping.len() == 0 {
        Seq::empty()
    } else {
        entry_refs(mapping[0].products@) + mapping_refs(mapping.skip(1))
    }
}

/// Index of the first product with the given id, or -1 when there is none.
pub open spec fn find_id(pool: Seq<Product>, id: Seq<char>) -> int
    decreases pool.len(),
{
    if pool.len() == 0 {
        -1
    } else if pool[0].product_id@ == id {
        0
    } else {
        let r = find_id(pool.skip(1), id);
        if r == -1 {
            -1
        } else {
            r + 1
        }
    }
}

/// The products selected by walking the referenced ids in order: each
/// reference consumes the first still-unconsumed product carrying that id,
/// and references without a match select nothing.
pub open spec fn select_spec(pool: Seq<Product>, refs: Seq<Seq<char>>) -> Seq<Product>
    decreases refs.len(),
{
    if refs.len() == 0 {
        Seq::empty()
    } else {
        let j = find_id(pool, refs[0]);
        if j >= 0 {
            seq![pool[j]] + select_spec(pool.remove(j), refs.skip(1))
        } else {
            select_spec(pool, refs.skip(1))
        }
    }
}

/// `find_id` returns a valid first match, or -1 exactly when no product
/// carries the id.
pub proof fn lemma_find_id(pool: Seq<Product>, id: Seq<char>)
    ensures
        -1 <= find_id(pool, id) < pool.len(),
        find_id(pool, id) >= 0 ==> pool[find_id(pool, id)].product_id@ == id,
        find_id(pool, id) == -1 ==> forall|k: int|
            0 <= k < pool.len() ==> (#[trigger] pool[k]).product_id@ != id,
        forall|k: int| 0 <= k < find_id(pool, id) ==> (#[trigger] pool[k]).product_id@ != id,
    decreases pool.len(),
{
    if pool.len() > 0 && pool[0].product_id@ != id {
        lemma_find_id(pool.skip(1), id);
        assert forall|k: int| 0 <= k < pool.len() && find_id(pool, id) == -1 implies (
        #[trigger] pool[k]).product_id@ != id by {
            if k > 0 {
                assert(pool.skip(1)[k - 1] == pool[k]);
            }
        }
        assert forall|k: int| 0 <= k < find_id(pool, id) implies (#[trigger] pool[k]).product_id@
            != id by {
            if k > 0 {
                assert(pool.skip(1)[k - 1] == pool[k]);
            }
        }
    }
}

/// If the first `j` products do not carry the id, and product `j` does
/// (or `j` is the length), then `find_id` agrees with that search.
proof fn lemma_find_id_at(pool: Seq<Product>, id: Seq<char>, j: int)
    requires
        0 <= j <= pool.len(),
        forall|k: int| 0 <= k < j ==> (#[trigger] pool[k]).product_id@ != id,
        j < pool.len() ==> pool[j].product_id@ == id,
    ensures
        find_id(pool, id) == if j < pool.len() {
            j
        } else {
            -1
        },
    decreases pool.len(),
{
    if pool.len() > 0 {
        if j == 0 {
            if pool.len() > 0 && pool[0].product_id@ != id {
                lemma_find_id(pool, id);
            }
        } else {
            assert(pool[0].product_id@ != id);
            assert forall|k: int| 0 <= k < j - 1 implies (#[trigger] pool.skip(1)[k]).product_id@
                != id by {
                assert(pool.skip(1)[k] == pool[k + 1]);
            }
            if j - 1 < pool.skip(1).len() {
                assert(pool.skip(1)[j - 1] == pool[j]);
            }
            lemma_find_id_at(pool.skip(1), id, j - 1);
        }
    }
}

/// Number of products in `ps` carrying the id `x`.
pub open spec fn count_id(ps: Seq<Product>, x: Seq<char>) -> nat
    decreases ps.len(),
{
    if ps.len() == 0 {
        0
    } else {
        (if ps[0].product_id@ == x {
            1nat
        } else {
            0nat
        }) + count_id(ps.skip(1), x)
    }
}

proof fn lemma_count_id_zero(ps: Seq<Product>, x: Seq<char>)
    ensures
        (count_id(ps, x) == 0) <==> (forall|k: int|
            0 <= k < ps.len() ==> (#[trigger] ps[k]).product_id@ != x),
    decreases ps.len(),
{
    if ps.len() > 0 {
        lemma_count_id_zero(ps.skip(1), x);
        if count_id(ps, x) == 0 {
            assert forall|k: int| 0 <= k < ps.len() implies (#[trigger] ps[k]).product_id@ != x by {
                if k > 0 {
                    assert(ps.skip(1)[k - 1] == ps[k]);
                }
            }
        } else {
            if ps[0].product_id@ != x {
                let k = choose|k: int|
                    0 <= k < ps.skip(1).len() && (#[trigger] ps.skip(1)[k]).product_id@ == x;
                assert(ps[k + 1] == ps.skip(1)[k]);
            }
        }
    }
}

proof fn lemma_count_id_remove(ps: Seq<Product>, x: Seq<char>, j: int)
    requires
        0 <= j < ps.len(),
    ensures
        count_id(ps, x) == count_id(ps.remove(j), x) + (if ps[j].product_id@ == x {
            1nat
        } else {
            0nat
        }),
    decreases j,
{
    if j == 0 {
        assert(ps.remove(0) =~= ps.skip(1));
    } else {
        assert(ps.remove(j).skip(1) =~= ps.skip(1).remove(j - 1));
        assert(ps.remove(j)[0] == ps[0]);
        assert(ps.skip(1)[j - 1] == ps[j]);
        lemma_count_id_remove(ps.skip(1), x, j - 1);
    }
}

proof fn lemma_count_id_cons(p: Product, s: Seq<Product>, x: Seq<char>)
    ensures
        count_id(seq![p] + s, x) == count_id(s, x) + (if p.product_id@ == x {
            1nat
        } else {
            0nat
        }),
{
    assert((seq![p] + s)[0] == p);
    assert((seq![p] + s).skip(1) =~= s);
}

proof fn lemma_select_count_le(pool: Seq<Product>, refs: Seq<Seq<char>>, x: Seq<char>)
    ensures
        count_id(select_spec(pool, refs), x) <= count_id(pool, x),
    decreases refs.len(),
{
    if refs.len() > 0 {
        let j = find_id(pool, refs[0]);
        lemma_find_id(pool, refs[0]);
        if j >= 0 {
            lemma_select_count_le(pool.remove(j), refs.skip(1), x);
            lemma_count_id_remove(pool, x, j);
            lemma_count_id_cons(pool[j], select_spec(pool.remove(j), refs.skip(1)), x);
        } else {
            lemma_select_count_le(pool, refs.skip(1), x);
        }
    }
}

proof fn lemma_count_id_of_ids(a: Seq<Product>, b: Seq<Product>, x: Seq<char>)
    requires
        product_ids(a) == product_ids(b),
    ensures
        count_id(a, x) == count_id(b, x),
    decreases a.len(),
{
    assert(product_ids(a).len() == a.len());
    assert(product_ids(b).len() == b.len());
    if a.len() > 0 {
        assert(a[0].product_id@ == product_ids(a)[0]);
        assert(b[0].product_id@ == product_ids(b)[0]);
        assert(product_ids(a.skip(1)) =~= product_ids(a).skip(1));
        assert(product_ids(b.skip(1)) =~= product_ids(b).skip(1));
        lemma_count_id_of_ids(a.skip(1), b.skip(1), x);
    }
}

proof fn lemma_select_replay(pool: Seq<Product>, qs: Seq<Product>, refs: Seq<Seq<char>>)
    requires
        forall|x: Seq<char>| count_id(qs, x) == count_id(select_spec(pool, refs), x),
    ensures
        product_ids(select_spec(qs, refs)) == product_ids(select_spec(pool, refs)),
    decreases refs.len(),
{
    if refs.len() == 0 {
        if qs.len() > 0 {
            lemma_count_id_zero(qs, qs[0].product_id@);
        }
        assert(qs =~= Seq::<Product>::empty());
        assert(product_ids(select_spec(qs, refs)) =~= product_ids(select_spec(pool, refs)));
    } else {
        let x0 = refs[0];
        let jp = find_id(pool, x0);
        lemma_find_id(pool, x0);
        lemma_find_id(qs, x0);
        if jp >= 0 {
            let pool2 = pool.remove(jp);
            let tail = select_spec(pool2, refs.skip(1));
            assert(select_spec(pool, refs) == seq![pool[jp]] + tail);
            lemma_count_id_cons(pool[jp], tail, x0);
            assert(count_id(qs, x0) > 0);
            lemma_count_id_zero(qs, x0);
            let jq = find_id(qs, x0);
            assert(jq >= 0);
            let qs2 = qs.remove(jq);
            assert forall|x: Seq<char>| count_id(qs2, x) == count_id(tail, x) by {
                lemma_count_id_remove(qs, x, jq);
                lemma_count_id_cons(pool[jp], tail, x);
            }
            lemma_select_replay(pool2, qs2, refs.skip(1));
            assert(select_spec(qs, refs) == seq![qs[jq]] + select_spec(qs2, refs.skip(1)));
            assert(product_ids(seq![qs[jq]] + select_spec(qs2, refs.skip(1))) =~= seq![x0]
                + product_ids(select_spec(qs2, refs.skip(1))));
            assert(product_ids(seq![pool[jp]] + tail) =~= seq![x0] + product_ids(tail));
        } else {
            assert(select_spec(pool, refs) == select_spec(pool, refs.skip(1)));
            lemma_count_id_zero(pool, x0);
            lemma_select_count_le(pool, refs.skip(1), x0);
            assert(count_id(qs, x0) == 0);
            lemma_count_id_zero(qs, x0);
            assert(find_id(qs, x0) == -1) by {
                if find_id(qs, x0) >= 0 {
                    assert(qs[find_id(qs, x0)].product_id@ == x0);
                }
            }
            lemma_select_replay(pool, qs, refs.skip(1));
        }
    }
}

/// Reconciliation is idempotent: a product list carrying exactly the ids
/// that one reconciliation selected, walked against the same availability
/// mapping, selects exactly the same product ids again.
pub proof fn lemma_reconcile_idempotent(
    pool: Seq<Product>,
    again: Seq<Product>,
    mapping: Seq<MinimalSite>,
)
    requires
        product_ids(again) == product_ids(select_spec(pool, mapping_refs(mapping))),
    ensures
        product_ids(select_spec(again, mapping_refs(mapping))) == product_ids(select_spec(pool,
            mapping_refs(mapping))),
{
    let refs = mapping_refs(mapping);
    let sel = select_spec(pool, refs);
    assert forall|x: Seq<char>| count_id(again, x) == count_id(sel, x) by {
        lemma_count_id_of_ids(again, sel, x);
    }
    lemma_select_replay(pool, again, refs);
}

proof fn lemma_select_refs_only(pool: Seq<Product>, refs: Seq<Seq<char>>, id: Seq<char>)
    requires
        !refs.contains(id),
    ensures
        !product_ids(select_spec(pool, refs)).contains(id),
    decreases refs.len(),
{
    if refs.len() == 0 {
        assert(product_ids(select_spec(pool, refs)).len() == 0);
    } else {
        assert(refs[0] != id);
        assert(!refs.skip(1).contains(id)) by {
            if refs.skip(1).contains(id) {
                let k = choose|k: int|
                    0 <= k < refs.skip(1).len() && refs.skip(1)[k] == id;
                assert(refs[k + 1] == id);
            }
        }
        let j = find_id(pool, refs[0]);
        lemma_find_id(pool, refs[0]);
        if j >= 0 {
            let tail = select_spec(pool.remove(j), refs.skip(1));
            lemma_select_refs_only(pool.remove(j), refs.skip(1), id);
            assert(product_ids(seq![pool[j]] + tail) =~= seq![refs[0]] + product_ids(tail));
            assert(!(seq![refs[0]] + product_ids(tail)).contains(id)) by {
                if (seq![refs[0]] + product_ids(tail)).contains(id) {
                    let k = choose|k: int|
                        0 <= k < (seq![refs[0]] + product_ids(tail)).len() && (seq![refs[0]]
                            + product_ids(tail))[k] == id;
                    if k > 0 {
                        assert(product_ids(tail)[k - 1] == id);
                    }
                }
            }
        } else {
            lemma_select_refs_only(pool, refs.skip(1), id);
        }
    }
}

/// A product referenced by no site's availability entry never reaches the
/// persistable product set, whether or not the full catalog fetch lists it.
pub proof fn lemma_unreferenced_product_dropped(
    pool: Seq<Product>,
    mapping: Seq<MinimalSite>,
    id: Seq<char>,
)
    requires
        !mapping_refs(mapping).contains(id),
    ensures
        !product_ids(select_spec(pool, mapping_refs(mapping))).contains(id),
{
    lemma_select_refs_only(pool, mapping_refs(mapping), id);
}

proof fn lemma_select_pool_only(pool: Seq<Product>, refs: Seq<Seq<char>>, id: Seq<char>)
    requires
        !product_ids(pool).contains(id),
    ensures
        !product_ids(select_spec(pool, refs)).contains(id),
    decreases refs.len(),
{
    if refs.len() > 0 {
        let j = find_id(pool, refs[0]);
        lemma_find_id(pool, refs[0]);
        if j >= 0 {
            assert(pool[j].product_id@ != id) by {
                assert(product_ids(pool)[j] == pool[j].product_id@);
            }
            assert(!product_ids(pool.remove(j)).contains(id)) by {
                if product_ids(pool.remove(j)).contains(id) {
                    let k = choose|k: int|
                        0 <= k < product_ids(pool.remove(j)).len() && product_ids(pool.remove(
                            j))[k] == id;
                    if k < j {
                        assert(product_ids(pool)[k] == id);
                    } else {
                        assert(product_ids(pool)[k + 1] == id);
                    }
                }
            }
            let tail = select_spec(pool.remove(j), refs.skip(1));
            lemma_select_pool_only(pool.remove(j), refs.skip(1), id);
            assert(product_ids(seq![pool[j]] + tail) =~= seq![pool[j].product_id@] + product_ids(
                tail));
            assert(!(seq![pool[j].product_id@] + product_ids(tail)).contains(id)) by {
                if (seq![pool[j].product_id@] + product_ids(tail)).contains(id) {
                    let k = choose|k: int|
                        0 <= k < (seq![pool[j].product_id@] + product_ids(tail)).len() && (seq![
                            pool[j].product_id@] + product_ids(tail))[k] == id;
                    if k > 0 {
                        assert(product_ids(tail)[k - 1] == id);
                    }
                }
            }
        } else {
            lemma_select_pool_only(pool, refs.skip(1), id);
        }
    } else {
        assert(product_ids(select_spec(pool, refs)).len() == 0);
    }
}

/// An availability entry referencing a product id absent from the fetched
/// catalog contributes nothing to the persistable product set: the
/// reference is skipped rather than treated as an error.
pub proof fn lemma_unknown_reference_skipped(
    pool: Seq<Product>,
    mapping: Seq<MinimalSite>,
    id: Seq<char>,
)
    requires
        !product_ids(pool).contains(id),
    ensures
        !product_ids(select_spec(pool, mapping_refs(mapping))).contains(id),
{
    lemma_select_pool_only(pool, mapping_refs(mapping), id);
}

/// Joins the availability mapping against the fetched product list: walks
/// every site's references in order, consumes the first matching product
/// for each, computes its canonical link, and thereby drops both
/// references without a matching product and products never referenced.
pub fn reconcile(products: Vec<Product>, mapping: &Vec<MinimalSite>) -> (r: Vec<Product>)
    ensures
        ({
            let sel = select_spec(products@, mapping_refs(mapping@));
            &&& r@.len() == sel.len()
            &&& forall|i: int|
                0 <= i < r@.len() ==> r@[i] == (Product { link: r@[i].link, ..sel[i] })
            &&& forall|i: int|
                0 <= i < r@.len() ==> (#[trigger] r@[i]).link@ == link_spec(sel[i].category@,
                    sel[i].product_name_bold@, sel[i].product_number@)
            &&& product_ids(r@) == product_ids(sel)
        }),
{
    let ghost pool0 = products@;
    let ghost all_refs = mapping_refs(mapping@);
    let refs = flatten_refs(mapping);
    let ghost refsv = refs@.map(|i: int, s: String| s@);
    let mut pool = products;
    let mut out: Vec<Product> = Vec::new();
    let ghost mut sel_done: Seq<Product> = Seq::empty();
    let mut i: usize = 0;
    proof {
        assert(refsv.skip(0) =~= refsv);
        assert(sel_done + select_spec(pool@, refsv) =~= select_spec(pool0, all_refs));
    }
    while i < refs.len()
        invariant
            i <= refs@.len(),
            refsv == refs@.map(|k: int, s: String| s@),
            sel_done + select_spec(pool@, refsv.skip(i as int)) == select_spec(pool0, all_refs),
            out@.len() == sel_done.len(),
            forall|k: int|
                0 <= k < out@.len() ==> out@[k] == (Product { link: out@[k].link, ..sel_done[k] }),
            forall|k: int|
                0 <= k < out@.len() ==> (#[trigger] out@[k]).link@ == link_spec(
                    sel_done[k].category@, sel_done[k].product_name_bold@,
                    sel_done[k].product_number@),
        decreases refs@.len() - i,
    {
        let ghost prev_pool = pool@;
        let ghost prev_done = sel_done;
        proof {
            assert(refsv.skip(i as int).skip(1) =~= refsv.skip(i as int + 1));
            assert(refsv.skip(i as int)[0] == refsv[i as int]);
            assert(refs@[i as int]@ == refsv[i as int]);
        }
        let mut j: usize = 0;
        while j < pool.len() && !(refs[i] == pool[j].product_id)
            invariant
                j <= pool@.len(),
                refs@[i as int]@ == refsv[i as int],
                i < refs@.len(),
                forall|k: int|
                    0 <= k < j ==> (#[trigger] pool@[k]).product_id@ != refsv[i as int],
            decreases pool@.len() - j,
        {
            j = j + 1;
        }
        proof {
            lemma_find_id_at(pool@, refsv[i as int], j as int);
        }
        if j < pool.len() {
            let mut p = pool.remove(j);
            let l = p.construct_link();
            p.link = l;
            out.push(p);
            proof {
                sel_done = prev_done.push(prev_pool[j as int]);
                assert(select_spec(prev_pool, refsv.skip(i as int)) == seq![prev_pool[j as int]]
                    + select_spec(prev_pool.remove(j as int), refsv.skip(i as int + 1)));
                assert(prev_done + (seq![prev_pool[j as int]] + select_spec(pool@, refsv.skip(
                    i as int + 1))) =~= sel_done + select_spec(pool@, refsv.skip(i as int + 1)));
            }
        } else {
            proof {
                assert(select_spec(pool@, refsv.skip(i as int)) == select_spec(pool@, refsv.skip(
                    i as int + 1)));
            }
        }
        i = i + 1;
    }
    proof {
        assert(refsv.skip(refs@.len() as int) =~= Seq::<Seq<char>>::empty());
        assert(select_spec(pool@, Seq::<Seq<char>>::empty()) =~= Seq::<Product>::empty());
        assert(sel_done + Seq::<Product>::empty() =~= sel_done);
        assert(sel_done == select_spec(pool0, all_refs));
        assert(product_ids(out@) =~= product_ids(sel_done));
    }
    out
}

/// Collects every referenced product id of the mapping, sites in order.
fn flatten_refs(mapping: &Vec<MinimalSite>) -> (r: Vec<String>)
    ensures
        r@.map(|i: int, s: String| s@) == mapping_refs(mapping@),
{
    let mut refs: Vec<String> = Vec::new();
    let mut si: usize = 0;
    proof {
        assert(mapping@.skip(0) =~= mapping@);
        assert(refs@.map(|i: int, s: String| s@) + mapping_refs(mapping@) =~= mapping_refs(
            mapping@));
    }
    while si < mapping.len()
        invariant
            si <= mapping@.len(),
            refs@.map(|i: int, s: String| s@) + mapping_refs(mapping@.skip(si as int))
                == mapping_refs(mapping@),
        decreases mapping@.len() - si,
    {
        proof {
            assert(mapping@.skip(si as int).skip(1) =~= mapping@.skip(si as int + 1));
            assert(mapping@.skip(si as int)[0] == mapping@[si as int]);
            assert(mapping_refs(mapping@.skip(si as int)) == entry_refs(
                mapping@[si as int].products@) + mapping_refs(mapping@.skip(si as int + 1)));
        }
        let site = &mapping[si];
        let mut pj: usize = 0;
        proof {
            assert(site.products@.map(|i: int, mp: MinimalProduct| mp.product_id@).skip(0)
                =~= entry_refs(site.products@));
        }
        while pj < site.products.len()
            invariant
                pj <= site.products@.len(),
                site == mapping@[si as int],
                si < mapping@.len(),
                refs@.map(|i: int, s: String| s@) + entry_refs(site.products@).skip(pj as int)
                    + mapping_refs(mapping@.skip(si as int + 1)) == mapping_refs(mapping@),
            decreases site.products@.len() - pj,
        {
            let ghost prev = refs@;
            refs.push(site.products[pj].product_id.clone());
            proof {
                assert(entry_refs(site.products@).skip(pj as int)[0]
                    == site.products@[pj as int].product_id@);
                assert(entry_refs(site.products@).skip(pj as int).skip(1) =~= entry_refs(
                    site.products@).skip(pj as int + 1));
                assert(entry_refs(site.products@).skip(pj as int) =~= seq![
                    site.products@[pj as int].product_id@] + entry_refs(site.products@).skip(
                    pj as int + 1));
                assert(refs@.map(|i: int, s: String| s@) =~= prev.map(|i: int, s: String| s@)
                    + seq![site.products@[pj as int].product_id@]);
                assert(refs@.map(|i: int, s: String| s@) + entry_refs(site.products@).skip(
                    pj as int + 1) =~= prev.map(|i: int, s: String| s@) + entry_refs(
                    site.products@).skip(pj as int));
                assert(refs@.map(|i: int, s: String| s@) + entry_refs(site.products@).skip(
                    pj as int + 1) + mapping_refs(mapping@.skip(si as int + 1)) =~= prev.map(
                    |i: int, s: String| s@) + entry_refs(site.products@).skip(pj as int)
                    + mapping_refs(mapping@.skip(si as int + 1)));
            }
            pj = pj + 1;
        }
        proof {
            assert(entry_refs(site.products@).skip(site.products@.len() as int)
                =~= Seq::<Seq<char>>::empty());
            assert(refs@.map(|i: int, s: String| s@) + Seq::<Seq<char>>::empty() + mapping_refs(
                mapping@.skip(si as int + 1)) =~= refs@.map(|i: int, s: String| s@)
                + mapping_refs(mapping@.skip(si as int + 1)));
        }
        si = si + 1;
    }
    proof {
        assert(mapping@.skip(mapping@.len() as int) =~= Seq::<MinimalSite>::empty());
        assert(mapping_refs(Seq::<MinimalSite>::empty()) == Seq::<Seq<char>>::empty());
        assert(refs@.map(|i: int, s: String| s@) + Seq::<Seq<char>>::empty() =~= refs@.map(
            |i: int, s: String| s@));
    }
    refs
}

} // verus!
