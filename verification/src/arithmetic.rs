//! Derived-metric calculator.
//!
//! Each product carries two efficiency scores: `apk` (alcohol content per
//! currency unit) and `apk_recycling` (the same, net of the recycle fee).
//! With `volume` in milliliters, `alcohol_percentage` in hundredths of a
//! percent and `price` in hundredths of the currency unit, the score
//! `volume * alcohol_percentage * 789 / (price * 100000)` expressed in
//! micro-units reduces to the integer quotient
//! `volume * alcohol_percentage * 7890 / price`, truncated toward zero.
//! A product with a zero volume, alcohol percentage or price gets score 0:
//! the metric is not applicable rather than an error.

use vstd::prelude::*;
use vstd::arithmetic::div_mod::lemma_div_is_ordered_by_denominator;
use crate::product::Product;

verus! {

/// Density of alcohol (789 g/l) combined with the unit scales: the metric in
/// micro-units is `volume * alcohol_percentage * APK_FACTOR / price`.
pub const APK_FACTOR: u64 = 7890;

/// Largest value the metric can take: every factor at its type's maximum
/// with the smallest positive price.
pub const APK_MAX: u64 = 4294967295 * 65535 * 7890;

/// The `apk` score of a product with the given fields, in micro-units.
pub open spec fn apk_spec(volume: u32, alcohol_percentage: u16, price: u32) -> int {
    if volume == 0 || alcohol_percentage == 0 || price == 0 {
        0
    } else {
        (volume as int) * (alcohol_percentage as int) * (APK_FACTOR as int) / (price as int)
    }
}

/// The `apk_recycling` score: as `apk_spec`, but the recycle fee is part of
/// the paid price. Applicability is still decided by the price alone.
pub open spec fn apk_recycling_spec(
    volume: u32,
    alcohol_percentage: u16,
    price: u32,
    recycle_fee: u32,
) -> int {
    if volume == 0 || alcohol_percentage == 0 || price == 0 {
        0
    } else {
        (volume as int) * (alcohol_percentage as int) * (APK_FACTOR as int) / (price as int
            + recycle_fee as int)
    }
}

/// Both metrics of a product recomputed from its own fields.
pub open spec fn with_metrics(p: Product) -> Product {
    Product {
        apk: apk_spec(p.volume, p.alcohol_percentage, p.price) as u64,
        apk_recycling: apk_recycling_spec(p.volume, p.alcohol_percentage, p.price, p.recycle_fee)
            as u64,
        ..p
    }
}

/// Both metric formulas stay within `APK_MAX`, so a computed metric
/// always fits the store's signed integer column.
pub proof fn lemma_apk_bounds(volume: u32, alcohol_percentage: u16, price: u32, recycle_fee: u32)
    ensures
        0 <= apk_spec(volume, alcohol_percentage, price) <= APK_MAX,
        0 <= apk_recycling_spec(volume, alcohol_percentage, price, recycle_fee) <= APK_MAX,
{
    if volume != 0 && alcohol_percentage != 0 && price != 0 {
        let n = (volume as int) * (alcohol_percentage as int) * (APK_FACTOR as int);
        assert(0 <= n <= APK_MAX) by (nonlinear_arith)
            requires
                0 < volume <= 4294967295,
                0 < alcohol_percentage <= 65535,
                APK_FACTOR == 7890,
                APK_MAX == 4294967295 * 65535 * 7890,
                n == (volume as int) * (alcohol_percentage as int) * (APK_FACTOR as int),
        ;
        assert(0 <= n / (price as int) <= n) by (nonlinear_arith)
            requires
                0 <= n,
                0 < price,
        ;
        assert(0 <= n / (price as int + recycle_fee as int) <= n) by (nonlinear_arith)
            requires
                0 <= n,
                0 < price as int + recycle_fee as int,
        ;
    }
}

/// Computes the `apk` score of a product. Zero whenever volume, alcohol
/// percentage or price is zero.
pub fn get_apk(product: &Product) -> (r: u64)
    ensures
        r == apk_spec(product.volume, product.alcohol_percentage, product.price),
        product.volume == 0 || product.alcohol_percentage == 0 || product.price == 0 ==> r == 0,
        r <= APK_MAX,
{
    proof {
        lemma_apk_bounds(product.volume, product.alcohol_percentage, product.price,
            product.recycle_fee);
    }
    if product.volume != 0 && product.alcohol_percentage != 0 && product.price != 0 {
        let v = product.volume as u64;
        let a = product.alcohol_percentage as u64;
        assert(v * a <= 4294967295 * 65535) by (nonlinear_arith)
            requires
                v <= 4294967295,
                a <= 65535,
        ;
        let n: u64 = v * a;
        (n * APK_FACTOR) / (product.price as u64)
    } else {
        0
    }
}

/// Computes the `apk_recycling` score of a product: the recycle fee is
/// added to the price in the denominator. Zero whenever volume, alcohol
/// percentage or price is zero.
pub fn get_recyc_apk(product: &Product) -> (r: u64)
    ensures
        r == apk_recycling_spec(product.volume, product.alcohol_percentage, product.price,
            product.recycle_fee),
        product.volume == 0 || product.alcohol_percentage == 0 || product.price == 0 ==> r == 0,
        r <= APK_MAX,
{
    proof {
        lemma_apk_bounds(product.volume, product.alcohol_percentage, product.price,
            product.recycle_fee);
    }
    if product.volume != 0 && product.alcohol_percentage != 0 && product.price != 0 {
        let v = product.volume as u64;
        let a = product.alcohol_percentage as u64;
        assert(v * a <= 4294967295 * 65535) by (nonlinear_arith)
            requires
                v <= 4294967295,
                a <= 65535,
        ;
        let n: u64 = v * a;
        (n * APK_FACTOR) / (product.price as u64 + product.recycle_fee as u64)
    } else {
        0
    }
}

/// A positive recycle fee never raises the net metric: for every
/// non-degenerate product, `apk_recycling <= apk`, and the two metrics
/// coincide exactly when the recycle fee is zero.
pub proof fn lemma_recycle_fee_lowers_apk(
    volume: u32,
    alcohol_percentage: u16,
    price: u32,
    recycle_fee: u32,
)
    requires
        volume > 0,
        alcohol_percentage > 0,
        price > 0,
    ensures
        recycle_fee > 0 ==> apk_recycling_spec(volume, alcohol_percentage, price, recycle_fee)
            <= apk_spec(volume, alcohol_percentage, price),
        recycle_fee == 0 ==> apk_recycling_spec(volume, alcohol_percentage, price, recycle_fee)
            == apk_spec(volume, alcohol_percentage, price),
{
    lemma_apk_bounds(volume, alcohol_percentage, price, recycle_fee);
    let n = (volume as int) * (alcohol_percentage as int) * (APK_FACTOR as int);
    assert(n >= 0) by (nonlinear_arith)
        requires
            volume > 0,
            alcohol_percentage > 0,
            n == (volume as int) * (alcohol_percentage as int) * (APK_FACTOR as int),
    ;
    lemma_div_is_ordered_by_denominator(n, price as int, price as int + recycle_fee as int);
}

/// Applies the calculator to every product of a freshly fetched list, so
/// that consumers never see a product with stale or missing derived fields.
/// Every other field is kept as fetched.
pub fn add_apk(products: Vec<Product>) -> (r: Vec<Product>)
    ensures
        r@.len() == products@.len(),
        forall|i: int| 0 <= i < r@.len() ==> r@[i] == with_metrics(products@[i]),
        forall|i: int|
            0 <= i < r@.len() ==> (#[trigger] r@[i]).apk <= APK_MAX && r@[i].apk_recycling
                <= APK_MAX,
{
    let ghost all = products@;
    let mut rest = products;
    let mut out: Vec<Product> = Vec::new();
    while rest.len() > 0
        invariant
            out@.len() + rest@.len() == all.len(),
            rest@ == all.skip(out@.len() as int),
            forall|i: int| 0 <= i < out@.len() ==> out@[i] == with_metrics(all[i]),
            forall|i: int|
                0 <= i < out@.len() ==> (#[trigger] out@[i]).apk <= APK_MAX
                    && out@[i].apk_recycling <= APK_MAX,
        decreases rest@.len(),
    {
        let ghost done = out@.len() as int;
        let mut p = rest.remove(0);
        assert(p == all[done]);
        let a = get_apk(&p);
        let ar = get_recyc_apk(&p);
        p.apk = a;
        p.apk_recycling = ar;
        assert(p == with_metrics(all[done]));
        out.push(p);
        assert(rest@ == all.skip(done + 1));
    }
    out
}

} // verus!
