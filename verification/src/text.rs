//! Text processing for canonical links and query rendering.
//!
//! The canonical display path of a product is built from its category and
//! name: both are lowercased, transliterated to ASCII, stripped of every
//! character that is not a letter, digit or space, and spaces become
//! dashes. Lowercasing and transliteration are delegated to library calls
//! whose results are named rather than restated; the stripping and the
//! decimal rendering of numbers are verified here.

use vstd::prelude::*;

verus! {

/// The Unicode lowercasing of `s`, as `str::to_lowercase` computes it.
pub uninterp spec fn lower_of(s: Seq<char>) -> Seq<char>;

/// The ASCII transliteration of `s`, as `unidecode::unidecode` computes it.
pub uninterp spec fn ascii_of(s: Seq<char>) -> Seq<char>;

/// Relies on `str::to_lowercase`: the result depends on the characters of
/// `s` alone.
#[verifier::external_body]
pub fn lowercase(s: &str) -> (r: String)
    ensures
        r@ == lower_of(s@),
{
    s.to_lowercase()
}

/// Relies on `unidecode::unidecode`: the transliteration depends on the
/// characters of `s` alone.
#[verifier::external_body]
pub fn transliterate(s: &str) -> (r: String)
    ensures
        r@ == ascii_of(s@),
{
    unidecode::unidecode(s)
}

/// Relies on `String::from_utf8`: a sequence of bytes below 128 is valid
/// UTF-8 and decodes to exactly those code points, so the call cannot fail.
#[verifier::external_body]
fn string_from_ascii(bytes: Vec<u8>) -> (r: String)
    requires
        forall|i: int| 0 <= i < bytes@.len() ==> bytes@[i] < 128,
    ensures
        r@ == bytes@.map(|i: int, b: u8| b as char),
{
    String::from_utf8(bytes).unwrap()
}

/// A character that survives stripping: an ASCII letter or digit.
pub open spec fn keep_char(c: char) -> bool {
    let u = c as u32;
    (97 <= u && u <= 122) || (65 <= u && u <= 90) || (48 <= u && u <= 57)
}

/// Stripping and dashing: ASCII letters and digits are kept, spaces become
/// dashes, everything else is dropped.
pub open spec fn slug_spec(s: Seq<char>) -> Seq<char>
    decreases s.len(),
{
    if s.len() == 0 {
        Seq::empty()
    } else if s[0] == ' ' {
        seq!['-'] + slug_spec(s.skip(1))
    } else if keep_char(s[0]) {
        seq![s[0]] + slug_spec(s.skip(1))
    } else {
        slug_spec(s.skip(1))
    }
}

/// Keeps ASCII letters and digits of `s`, turns each space into a dash and
/// drops every other character.
pub fn strip_and_dash(s: &str) -> (r: String)
    ensures
        r@ == slug_spec(s@),
{
    let len = s.unicode_len();
    let mut bytes: Vec<u8> = Vec::new();
    let mut i: usize = 0;
    proof {
        assert(s@.skip(0) =~= s@);
        assert(bytes@.map(|k: int, b: u8| b as char) + slug_spec(s@) =~= slug_spec(s@));
    }
    while i < len
        invariant
            len == s@.len(),
            i <= len,
            forall|k: int| 0 <= k < bytes@.len() ==> bytes@[k] < 128,
            bytes@.map(|k: int, b: u8| b as char) + slug_spec(s@.skip(i as int)) == slug_spec(s@),
        decreases len - i,
    {
        let c = s.get_char(i);
        let u = c as u32;
        let ghost prev = bytes@;
        assert(s@.skip(i as int).skip(1) =~= s@.skip(i as int + 1));
        assert(s@.skip(i as int)[0] == s@[i as int]);
        if u == 32 {
            bytes.push(45);
            proof {
                assert(slug_spec(s@.skip(i as int)) == seq!['-'] + slug_spec(s@.skip(i as int + 1)));
                assert(bytes@.map(|k: int, b: u8| b as char) =~= prev.map(|k: int, b: u8| b as char)
                    + seq!['-']);
                assert(bytes@.map(|k: int, b: u8| b as char) + slug_spec(s@.skip(i as int + 1))
                    =~= prev.map(|k: int, b: u8| b as char) + slug_spec(s@.skip(i as int)));
            }
        } else if (97 <= u && u <= 122) || (65 <= u && u <= 90) || (48 <= u && u <= 57) {
            bytes.push(u as u8);
            proof {
                assert((u as u8) as char == c);
                assert(slug_spec(s@.skip(i as int)) == seq![c] + slug_spec(s@.skip(i as int + 1)));
                assert(bytes@.map(|k: int, b: u8| b as char) =~= prev.map(|k: int, b: u8| b as char)
                    + seq![c]);
                assert(bytes@.map(|k: int, b: u8| b as char) + slug_spec(s@.skip(i as int + 1))
                    =~= prev.map(|k: int, b: u8| b as char) + slug_spec(s@.skip(i as int)));
            }
        } else {
            proof {
                assert(slug_spec(s@.skip(i as int)) == slug_spec(s@.skip(i as int + 1)));
            }
        }
        i = i + 1;
    }
    assert(s@.skip(len as int) =~= Seq::<char>::empty());
    assert(bytes@.map(|k: int, b: u8| b as char) =~= slug_spec(s@));
    string_from_ascii(bytes)
}

/// The URL-safe form of a display string: lowercased, transliterated to
/// ASCII, stripped, and spaces replaced by dashes.
pub open spec fn url_safe_spec(s: Seq<char>) -> Seq<char> {
    slug_spec(ascii_of(lower_of(s)))
}

/// Lowercases `source`, transliterates the result to ASCII and strips it
/// down to letters, digits and dashes.
pub fn remove_swe_signs_and_replace_spaces(source: &str) -> (r: String)
    ensures
        r@ == url_safe_spec(source@),
{
    let lowered = lowercase(source);
    let transliterated = transliterate(lowered.as_str());
    strip_and_dash(transliterated.as_str())
}

/// The decimal digit character for a value below ten.
pub open spec fn digit_char(d: nat) -> char {
    ((48 + d) as u8) as char
}

/// The decimal rendering of a natural number, most significant digit first.
pub open spec fn dec_spec(n: nat) -> Seq<char>
    decreases n,
{
    if n < 10 {
        seq![digit_char(n)]
    } else {
        dec_spec(n / 10).push(digit_char(n % 10))
    }
}

spec fn rev_chars(bs: Seq<u8>) -> Seq<char>
    decreases bs.len(),
{
    if bs.len() == 0 {
        Seq::empty()
    } else {
        seq![bs.last() as char] + rev_chars(bs.drop_last())
    }
}

proof fn lemma_rev_chars_index(bs: Seq<u8>)
    ensures
        rev_chars(bs).len() == bs.len(),
        forall|j: int| 0 <= j < bs.len() ==> rev_chars(bs)[j] == bs[bs.len() - 1 - j] as char,
    decreases bs.len(),
{
    if bs.len() > 0 {
        lemma_rev_chars_index(bs.drop_last());
    }
}

/// Renders `n` in decimal.
pub fn u64_to_dec(n: u64) -> (r: String)
    ensures
        r@ == dec_spec(n as nat),
{
    let mut digits: Vec<u8> = Vec::new();
    digits.push((n % 10) as u8 + 48);
    let mut m = n / 10;
    proof {
        assert(digits@.drop_last() =~= Seq::<u8>::empty());
        assert(rev_chars(Seq::<u8>::empty()) =~= Seq::<char>::empty());
        assert(digits@.last() == (n % 10) as u8 + 48);
        assert(digits@.last() as char == digit_char((n % 10) as nat));
        assert(rev_chars(digits@) =~= seq![digit_char((n % 10) as nat)]);
        if m > 0 {
            assert(dec_spec(n as nat) == dec_spec(m as nat).push(digit_char((n % 10) as nat)));
            assert(dec_spec(m as nat).push(digit_char((n % 10) as nat)) =~= dec_spec(m as nat)
                + rev_chars(digits@));
        } else {
            assert(n < 10);
            assert(dec_spec(n as nat) =~= rev_chars(digits@));
        }
    }
    while m > 0
        invariant
            dec_spec(n as nat) == if m > 0 {
                dec_spec(m as nat) + rev_chars(digits@)
            } else {
                rev_chars(digits@)
            },
            forall|k: int| 0 <= k < digits@.len() ==> 48 <= #[trigger] digits@[k] < 58,
        decreases m,
    {
        let ghost prev = digits@;
        let ghost m0 = m;
        digits.push((m % 10) as u8 + 48);
        m = m / 10;
        proof {
            assert(digits@.drop_last() =~= prev);
            assert(digits@.last() as char == digit_char((m0 % 10) as nat));
            assert(rev_chars(digits@) =~= seq![digit_char((m0 % 10) as nat)] + rev_chars(prev));
            if m > 0 {
                assert(dec_spec(m0 as nat) == dec_spec(m as nat).push(digit_char((m0 % 10) as nat)));
                assert(dec_spec(m as nat) + rev_chars(digits@) =~= dec_spec(m as nat).push(
                    digit_char((m0 % 10) as nat)) + rev_chars(prev));
            } else {
                assert(m0 < 10);
                assert(dec_spec(m0 as nat) =~= seq![digit_char((m0 % 10) as nat)]);
                assert(rev_chars(digits@) =~= dec_spec(m0 as nat) + rev_chars(prev));
            }
        }
    }
    let mut bytes: Vec<u8> = Vec::new();
    let mut k = digits.len();
    while k > 0
        invariant
            k <= digits@.len(),
            forall|j: int| 0 <= j < digits@.len() ==> 48 <= #[trigger] digits@[j] < 58,
            bytes@.len() == digits@.len() - k,
            forall|j: int| 0 <= j < bytes@.len() ==> bytes@[j] == digits@[digits@.len() - 1 - j],
        decreases k,
    {
        k = k - 1;
        bytes.push(digits[k]);
    }
    proof {
        lemma_rev_chars_index(digits@);
        assert(bytes@.map(|j: int, b: u8| b as char) =~= rev_chars(digits@));
    }
    string_from_ascii(bytes)
}

} // verus!
