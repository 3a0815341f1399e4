//! Error taxonomy and diagnostic formatting.
//!
//! Failures fall into four classes: transport (network or HTTP), failed
//! deserialization of a remote document, store errors, and validation of
//! caller requests. An error carries a display message and a multi-line
//! diagnostic rendering; `fmt_backtrace` condenses the rendering down to
//! the source locations it mentions.

use vstd::prelude::*;

verus! {

/// The class of a failure, per the propagation policy of the refresh
/// pipeline and the query path.
#[derive(Debug, Clone, Copy, PartialEq, Eq, Structural)]
pub enum ErrorKind {
    Transport,
    Deserialization,
    Store,
    Validation,
}

/// A failure with its class, a one-line display message, and the
/// multi-line diagnostic rendering it was wrapped from.
#[derive(Debug, Clone)]
pub struct Error {
    pub kind: ErrorKind,
    pub message: String,
    pub detail: String,
}

impl Error {
    /// Wraps a failure of the given class.
    pub fn new(kind: ErrorKind, message: String, detail: String) -> (r: Error)
        ensures
            r.kind == kind,
            r.message == message,
            r.detail == detail,
    {
        Error { kind, message, detail }
    }
}

/// A Unicode whitespace character, as `str::trim` treats it.
pub open spec fn is_space_char(c: char) -> bool {
    let u = c as u32;
    u == 32 || u == 9 || u == 10 || u == 11 || u == 12 || u == 13 || u == 133 || u == 160 || u
        == 5760 || (8192 <= u && u <= 8202) || u == 8232 || u == 8233 || u == 8239 || u == 8287
        || u == 12288
}

fn is_space(c: char) -> (r: bool)
    ensures
        r == is_space_char(c),
{
    let u = c as u32;
    u == 32 || u == 9 || u == 10 || u == 11 || u == 12 || u == 13 || u == 133 || u == 160 || u
        == 5760 || (8192 <= u && u <= 8202) || u == 8232 || u == 8233 || u == 8239 || u == 8287
        || u == 12288
}

pub open spec fn trim_back_spec(s: Seq<char>) -> Seq<char>
    decreases s.len(),
{
    if s.len() == 0 {
        s
    } else if is_space_char(s.last()) {
        trim_back_spec(s.drop_last())
    } else {
        s
    }
}

pub open spec fn trim_front_spec(s: Seq<char>) -> Seq<char>
    decreases s.len(),
{
    if s.len() == 0 {
        s
    } else if is_space_char(s[0]) {
        trim_front_spec(s.skip(1))
    } else {
        s
    }
}

/// `s` with leading and trailing whitespace removed.
pub open spec fn trim_spec(s: Seq<char>) -> Seq<char> {
    trim_front_spec(trim_back_spec(s))
}

fn trim<'a>(s: &'a str) -> (r: &'a str)
    ensures
        r@ == trim_spec(s@),
{
    let len = s.unicode_len();
    let mut hi = len;
    proof {
        assert(s@.take(len as int) =~= s@);
    }
    while hi > 0 && is_space(s.get_char(hi - 1))
        invariant
            hi <= len,
            len == s@.len(),
            trim_back_spec(s@) == trim_back_spec(s@.take(hi as int)),
        decreases hi,
    {
        proof {
            assert(s@.take(hi as int).last() == s@[hi as int - 1]);
            assert(s@.take(hi as int).drop_last() =~= s@.take(hi as int - 1));
        }
        hi = hi - 1;
    }
    proof {
        if hi > 0 {
            assert(s@.take(hi as int).last() == s@[hi as int - 1]);
        }
        assert(trim_back_spec(s@.take(hi as int)) == s@.take(hi as int));
    }
    let mut lo: usize = 0;
    proof {
        assert(s@.take(hi as int).skip(0) =~= s@.take(hi as int));
    }
    while lo < hi && is_space(s.get_char(lo))
        invariant
            lo <= hi <= len,
            len == s@.len(),
            trim_back_spec(s@) == s@.take(hi as int),
            trim_front_spec(s@.take(hi as int)) == trim_front_spec(s@.take(hi as int).skip(
                lo as int)),
        decreases hi - lo,
    {
        proof {
            assert(s@.take(hi as int).skip(lo as int)[0] == s@[lo as int]);
            assert(s@.take(hi as int).skip(lo as int).skip(1) =~= s@.take(hi as int).skip(
                lo as int + 1));
        }
        lo = lo + 1;
    }
    proof {
        if lo < hi {
            assert(s@.take(hi as int).skip(lo as int)[0] == s@[lo as int]);
        }
        assert(trim_front_spec(s@.take(hi as int).skip(lo as int)) == s@.take(hi as int).skip(
            lo as int));
        assert(s@.subrange(lo as int, hi as int) =~= s@.take(hi as int).skip(lo as int));
    }
    s.substring_char(lo, hi)
}

/// `s` with every occurrence of "at " removed, scanning left to right.
pub open spec fn strip_at_spec(s: Seq<char>) -> Seq<char>
    decreases s.len(),
{
    if s.len() == 0 {
        Seq::empty()
    } else if s.len() >= 3 && s[0] == 'a' && s[1] == 't' && s[2] == ' ' {
        strip_at_spec(s.skip(3))
    } else {
        seq![s[0]] + strip_at_spec(s.skip(1))
    }
}

fn strip_at(s: &str) -> (r: String)
    ensures
        r@ == strip_at_spec(s@),
{
    let len = s.unicode_len();
    let mut out = String::new();
    let mut i: usize = 0;
    proof {
        assert(s@.skip(0) =~= s@);
        assert(out@ + strip_at_spec(s@) =~= strip_at_spec(s@));
    }
    while i < len
        invariant
            i <= len,
            len == s@.len(),
            out@ + strip_at_spec(s@.skip(i as int)) == strip_at_spec(s@),
        decreases len - i,
    {
        let ghost rem = s@.skip(i as int);
        proof {
            assert(rem[0] == s@[i as int]);
            if len - i > 2 {
                assert(rem[1] == s@[i as int + 1]);
                assert(rem[2] == s@[i as int + 2]);
            }
        }
        if len - i > 2 && s.get_char(i) == 'a' && s.get_char(i + 1) == 't' && s.get_char(i + 2)
            == ' ' {
            proof {
                assert(rem.skip(3) =~= s@.skip(i as int + 3));
                assert(strip_at_spec(rem) == strip_at_spec(s@.skip(i as int + 3)));
            }
            i = i + 3;
        } else {
            let ghost prev = out@;
            let piece = s.substring_char(i, i + 1);
            out.append(piece);
            proof {
                assert(piece@ =~= seq![s@[i as int]]);
                assert(rem.skip(1) =~= s@.skip(i as int + 1));
                assert(strip_at_spec(rem) == seq![s@[i as int]] + strip_at_spec(s@.skip(
                    i as int + 1)));
                assert(out@ + strip_at_spec(s@.skip(i as int + 1)) =~= prev + strip_at_spec(rem));
            }
            i = i + 1;
        }
    }
    proof {
        assert(s@.skip(len as int) =~= Seq::<char>::empty());
        assert(out@ + Seq::<char>::empty() =~= out@);
    }
    out
}

/// The characters "src" stand at position `k` of `s`.
pub open spec fn src_at(s: Seq<char>, k: int) -> bool {
    0 <= k && k + 3 <= s.len() && s[k] == 's' && s[k + 1] == 'r' && s[k + 2] == 'c'
}

/// "src" occurs somewhere in `s`.
pub open spec fn has_src(s: Seq<char>) -> bool {
    exists|k: int| src_at(s, k)
}

fn contains_src(s: &str) -> (r: bool)
    ensures
        r == has_src(s@),
{
    let len = s.unicode_len();
    if len < 3 {
        proof {
            if has_src(s@) {
                let k = choose|k: int| src_at(s@, k);
            }
        }
        return false;
    }
    let mut k: usize = 0;
    while len - k >= 3
        invariant
            k <= len,
            len == s@.len(),
            forall|j: int| 0 <= j < k ==> !src_at(s@, j),
        decreases len - k,
    {
        if s.get_char(k) == 's' && s.get_char(k + 1) == 'r' && s.get_char(k + 2) == 'c' {
            proof {
                assert(src_at(s@, k as int));
            }
            return true;
        }
        k = k + 1;
    }
    proof {
        if has_src(s@) {
            let j = choose|j: int| src_at(s@, j);
            assert(j + 3 <= len);
            assert(j < k);
        }
    }
    false
}

fn starts_with_src(s: &str) -> (r: bool)
    ensures
        r == src_at(s@, 0),
{
    let len = s.unicode_len();
    len >= 3 && s.get_char(0) == 's' && s.get_char(1) == 'r' && s.get_char(2) == 'c'
}

/// `s` split at every newline; one more piece than newlines, in order.
pub open spec fn split_nl_spec(s: Seq<char>) -> Seq<Seq<char>>
    decreases s.len(),
{
    if s.len() == 0 {
        seq![Seq::empty()]
    } else if s[0] == '\n' {
        seq![Seq::<char>::empty()] + split_nl_spec(s.skip(1))
    } else {
        let r = split_nl_spec(s.skip(1));
        seq![seq![s[0]] + r[0]] + r.skip(1)
    }
}

proof fn lemma_split_nl_len(s: Seq<char>)
    ensures
        split_nl_spec(s).len() >= 1,
    decreases s.len(),
{
    if s.len() > 0 {
        lemma_split_nl_len(s.skip(1));
    }
}

fn split_lines(s: &str) -> (r: Vec<String>)
    ensures
        r@.map(|i: int, line: String| line@) == split_nl_spec(s@),
{
    let len = s.unicode_len();
    let mut out: Vec<String> = Vec::new();
    let mut start: usize = 0;
    let mut i: usize = 0;
    proof {
        lemma_split_nl_len(s@);
        assert(s@.skip(0) =~= s@);
        assert(s@.subrange(0, 0) =~= Seq::<char>::empty());
        assert(out@.map(|k: int, line: String| line@) + seq![s@.subrange(0, 0) + split_nl_spec(
            s@)[0]] + split_nl_spec(s@).skip(1) =~= split_nl_spec(s@));
    }
    while i < len
        invariant
            start <= i <= len,
            len == s@.len(),
            out@.map(|k: int, line: String| line@) + seq![s@.subrange(start as int, i as int)
                + split_nl_spec(s@.skip(i as int))[0]] + split_nl_spec(s@.skip(i as int)).skip(1)
                == split_nl_spec(s@),
        decreases len - i,
    {
        let ghost rem = s@.skip(i as int);
        let ghost outv = out@.map(|k: int, line: String| line@);
        proof {
            lemma_split_nl_len(s@.skip(i as int + 1));
            assert(rem[0] == s@[i as int]);
            assert(rem.skip(1) =~= s@.skip(i as int + 1));
        }
        if s.get_char(i) == '\n' {
            let piece = s.substring_char(start, i);
            out.push(piece.to_owned());
            proof {
                assert(split_nl_spec(rem) == seq![Seq::<char>::empty()] + split_nl_spec(s@.skip(
                    i as int + 1)));
                assert(piece@ == s@.subrange(start as int, i as int));
                assert(out@.map(|k: int, line: String| line@) =~= outv + seq![s@.subrange(
                    start as int, i as int)]);
                assert(s@.subrange(i as int + 1, i as int + 1) =~= Seq::<char>::empty());
                assert(out@.map(|k: int, line: String| line@) + seq![s@.subrange(i as int + 1,
                    i as int + 1) + split_nl_spec(s@.skip(i as int + 1))[0]] + split_nl_spec(
                    s@.skip(i as int + 1)).skip(1) =~= outv + seq![s@.subrange(start as int,
                    i as int) + split_nl_spec(rem)[0]] + split_nl_spec(rem).skip(1));
            }
            start = i + 1;
        } else {
            proof {
                let r = split_nl_spec(s@.skip(i as int + 1));
                assert(split_nl_spec(rem) == seq![seq![s@[i as int]] + r[0]] + r.skip(1));
                assert(split_nl_spec(rem).skip(1) =~= r.skip(1));
                assert(split_nl_spec(rem)[0] == seq![s@[i as int]] + r[0]);
                assert(s@.subrange(start as int, i as int + 1) =~= s@.subrange(start as int,
                    i as int) + seq![s@[i as int]]);
                assert(s@.subrange(start as int, i as int) + split_nl_spec(rem)[0] =~= s@.subrange(
                    start as int, i as int + 1) + r[0]);
                assert(outv + seq![s@.subrange(start as int, i as int + 1) + r[0]] + r.skip(1)
                    =~= outv + seq![s@.subrange(start as int, i as int) + split_nl_spec(rem)[0]]
                    + split_nl_spec(rem).skip(1));
            }
        }
        i = i + 1;
    }
    let piece = s.substring_char(start, len);
    out.push(piece.to_owned());
    proof {
        assert(s@.skip(len as int) =~= Seq::<char>::empty());
        assert(split_nl_spec(Seq::<char>::empty()) == seq![Seq::<char>::empty()]);
        assert(piece@ == s@.subrange(start as int, len as int));
        assert(out@.map(|k: int, line: String| line@) =~= split_nl_spec(s@));
    }
    out
}

/// The trace form of one diagnostic line: trimmed, with "at " removed.
pub open spec fn site_line_spec(line: Seq<char>) -> Seq<char> {
    strip_at_spec(trim_spec(line))
}

/// The source locations kept from the diagnostic lines: lines mentioning
/// "src" whose trace form starts with "src", in order.
pub open spec fn sites_spec(lines: Seq<Seq<char>>) -> Seq<Seq<char>>
    decreases lines.len(),
{
    if lines.len() == 0 {
        Seq::empty()
    } else {
        (if has_src(lines[0]) && src_at(site_line_spec(lines[0]), 0) {
            seq![site_line_spec(lines[0])]
        } else {
            Seq::empty()
        }) + sites_spec(lines.skip(1))
    }
}

pub open spec fn join_nl_spec(pieces: Seq<Seq<char>>) -> Seq<char>
    decreases pieces.len(),
{
    if pieces.len() == 0 {
        Seq::empty()
    } else {
        pieces[0] + seq!['\n'] + join_nl_spec(pieces.skip(1))
    }
}

/// The condensed rendering of an error: its message, then every source
/// location found in its diagnostic rendering, one per line.
pub open spec fn backtrace_spec(message: Seq<char>, detail: Seq<char>) -> Seq<char> {
    message + seq!['\n'] + join_nl_spec(sites_spec(split_nl_spec(detail)))
}

/// Renders an error as its message followed by the source locations its
/// diagnostic rendering mentions, each on a line of its own.
pub fn fmt_backtrace(err: &Error) -> (r: String)
    ensures
        r@ == backtrace_spec(err.message@, err.detail@),
{
    let lines = split_lines(err.detail.as_str());
    let ghost linevs = lines@.map(|i: int, line: String| line@);
    let mut sites: Vec<String> = Vec::new();
    let mut i: usize = 0;
    proof {
        assert(linevs.skip(0) =~= linevs);
        assert(sites@.map(|k: int, st: String| st@) + sites_spec(linevs) =~= sites_spec(linevs));
    }
    while i < lines.len()
        invariant
            i <= lines@.len(),
            linevs == lines@.map(|k: int, line: String| line@),
            sites@.map(|k: int, st: String| st@) + sites_spec(linevs.skip(i as int)) == sites_spec(
                linevs),
        decreases lines@.len() - i,
    {
        let ghost sitesv = sites@.map(|k: int, st: String| st@);
        proof {
            assert(linevs.skip(i as int)[0] == linevs[i as int]);
            assert(linevs.skip(i as int).skip(1) =~= linevs.skip(i as int + 1));
            assert(lines@[i as int]@ == linevs[i as int]);
        }
        let line = &lines[i];
        if contains_src(line.as_str()) {
            let trimmed = trim(line.as_str());
            let traced = strip_at(trimmed);
            if starts_with_src(traced.as_str()) {
                sites.push(traced);
                proof {
                    assert(sites@.map(|k: int, st: String| st@) =~= sitesv + seq![site_line_spec(
                        linevs[i as int])]);
                    assert(sites@.map(|k: int, st: String| st@) + sites_spec(linevs.skip(
                        i as int + 1)) =~= sitesv + sites_spec(linevs.skip(i as int)));
                }
            }
        }
        i = i + 1;
    }
    proof {
        assert(linevs.skip(lines@.len() as int) =~= Seq::<Seq<char>>::empty());
        assert(sites_spec(Seq::<Seq<char>>::empty()) == Seq::<Seq<char>>::empty());
        assert(sites@.map(|k: int, st: String| st@) + Seq::<Seq<char>>::empty() =~= sites@.map(
            |k: int, st: String| st@));
    }
    let ghost sitesv = sites@.map(|k: int, st: String| st@);
    let mut res = String::new();
    res.append(err.message.as_str());
    res.append("\n");
    proof {
        reveal_strlit("\n");
        assert("\n"@ =~= seq!['\n']);
        assert(sitesv.skip(0) =~= sitesv);
        assert(res@ + join_nl_spec(sitesv) =~= err.message@ + seq!['\n'] + join_nl_spec(sitesv));
    }
    let mut j: usize = 0;
    while j < sites.len()
        invariant
            j <= sites@.len(),
            sitesv == sites@.map(|k: int, st: String| st@),
            res@ + join_nl_spec(sitesv.skip(j as int)) == backtrace_spec(err.message@, err.detail@),
        decreases sites@.len() - j,
    {
        let ghost prev = res@;
        res.append(sites[j].as_str());
        res.append("\n");
        proof {
            reveal_strlit("\n");
            assert("\n"@ =~= seq!['\n']);
            assert(sitesv.skip(j as int)[0] == sitesv[j as int]);
            assert(sitesv.skip(j as int).skip(1) =~= sitesv.skip(j as int + 1));
            assert(sites@[j as int]@ == sitesv[j as int]);
            assert(join_nl_spec(sitesv.skip(j as int)) == sitesv[j as int] + seq!['\n']
                + join_nl_spec(sitesv.skip(j as int + 1)));
            assert(res@ + join_nl_spec(sitesv.skip(j as int + 1)) =~= prev + join_nl_spec(
                sitesv.skip(j as int)));
        }
        j = j + 1;
    }
    proof {
        assert(sitesv.skip(sites@.len() as int) =~= Seq::<Seq<char>>::empty());
        assert(join_nl_spec(Seq::<Seq<char>>::empty()) == Seq::<char>::empty());
        assert(res@ + Seq::<char>::empty() =~= res@);
    }
    res
}

} // verus!
