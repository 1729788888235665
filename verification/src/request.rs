//! Parsing of the HTTP request line.
//!
//! The first line of the request text is split on blanks into at
//! most three tokens: method, target and version. Missing tokens are
//! empty strings; the caller treats an empty method or target as a
//! malformed request rather than a failure here.

use vstd::prelude::*;
use crate::text::str_eq;

verus! {

/// Token separator in the request line.
pub open spec fn is_space(c: char) -> bool {
    c == ' ' || c == '\t'
}

/// Prefix of `s` up to, and not including, the first line feed.
pub open spec fn spec_take_line(s: Seq<char>) -> Seq<char>
    decreases s.len(),
{
    if s.len() == 0 || s[0] == '\n' {
        Seq::empty()
    } else {
        seq![s[0]] + spec_take_line(s.skip(1))
    }
}

/// The first line of the request text, with one trailing carriage
/// return removed, as the `lines` convention has it.
pub open spec fn spec_first_line(s: Seq<char>) -> Seq<char> {
    let p = spec_take_line(s);
    if p.len() > 0 && p[p.len() - 1] == '\r' {
        p.take(p.len() - 1)
    } else {
        p
    }
}

/// `s` without its leading blanks.
pub open spec fn spec_skip_spaces(s: Seq<char>) -> Seq<char>
    decreases s.len(),
{
    if s.len() == 0 || !is_space(s[0]) {
        s
    } else {
        spec_skip_spaces(s.skip(1))
    }
}

/// Longest prefix of `s` free of blanks.
pub open spec fn spec_take_token(s: Seq<char>) -> Seq<char>
    decreases s.len(),
{
    if s.len() == 0 || is_space(s[0]) {
        Seq::empty()
    } else {
        seq![s[0]] + spec_take_token(s.skip(1))
    }
}

/// `s` without its longest blank-free prefix.
pub open spec fn spec_skip_token(s: Seq<char>) -> Seq<char>
    decreases s.len(),
{
    if s.len() == 0 || is_space(s[0]) {
        s
    } else {
        spec_skip_token(s.skip(1))
    }
}

/// The `k`-th blank-separated token of `s`; empty when `s` has fewer
/// than `k + 1` tokens.
pub open spec fn spec_token(s: Seq<char>, k: nat) -> Seq<char>
    decreases k,
{
    let t = spec_skip_spaces(s);
    if k == 0 {
        spec_take_token(t)
    } else {
        spec_token(spec_skip_token(t), (k - 1) as nat)
    }
}

proof fn lemma_line_scan(s: Seq<char>, r: int)
    requires
        0 <= r <= s.len(),
        forall|j: int| 0 <= j < r ==> s[j] != '\n',
        r < s.len() ==> s[r] == '\n',
    ensures
        spec_take_line(s) =~= s.subrange(0, r),
    decreases r,
{
    if r == 0 {
        assert(s.subrange(0, 0) =~= Seq::<char>::empty());
    } else {
        lemma_line_scan(s.skip(1), r - 1);
        assert(seq![s[0]] + s.skip(1).subrange(0, r - 1) =~= s.subrange(0, r));
    }
}

proof fn lemma_spaces_scan(s: Seq<char>, r: int)
    requires
        0 <= r <= s.len(),
        forall|j: int| 0 <= j < r ==> is_space(s[j]),
        r < s.len() ==> !is_space(s[r]),
    ensures
        spec_skip_spaces(s) =~= s.skip(r),
    decreases r,
{
    if r == 0 {
        assert(s.skip(0) =~= s);
    } else {
        lemma_spaces_scan(s.skip(1), r - 1);
        assert(s.skip(1).skip(r - 1) =~= s.skip(r));
    }
}

proof fn lemma_token_scan(s: Seq<char>, r: int)
    requires
        0 <= r <= s.len(),
        forall|j: int| 0 <= j < r ==> !is_space(s[j]),
        r < s.len() ==> is_space(s[r]),
    ensures
        spec_take_token(s) =~= s.subrange(0, r),
        spec_skip_token(s) =~= s.skip(r),
    decreases r,
{
    if r == 0 {
        assert(s.subrange(0, 0) =~= Seq::<char>::empty());
        assert(s.skip(0) =~= s);
    } else {
        lemma_token_scan(s.skip(1), r - 1);
        assert(seq![s[0]] + s.skip(1).subrange(0, r - 1) =~= s.subrange(0, r));
        assert(s.skip(1).skip(r - 1) =~= s.skip(r));
    }
}

/// Method, target and version extracted from a request line.
pub struct RequestLine {
    pub method: String,
    pub target: String,
    pub version: String,
}

/// First index at or after `p` holding a non-blank, or the length.
fn scan_spaces(line: &str, n: usize, p: usize) -> (r: usize)
    requires
        n == line@.len(),
        p <= n,
    ensures
        p <= r <= n,
        spec_skip_spaces(line@.skip(p as int)) =~= line@.skip(r as int),
        r < n ==> !is_space(line@[r as int]),
{
    let mut i: usize = p;
    loop
        invariant
            n == line@.len(),
            p <= i <= n,
            forall|j: int| p <= j < i ==> is_space(line@[j]),
        ensures
            p <= i <= n,
            forall|j: int| p <= j < i ==> is_space(line@[j]),
            i < n ==> !is_space(line@[i as int]),
        decreases n - i,
    {
        if i == n {
            break ;
        }
        let c = line.get_char(i);
        if c != ' ' && c != '\t' {
            break ;
        }
        i = i + 1;
    }
    proof {
        lemma_spaces_scan(line@.skip(p as int), i - p);
        assert(line@.skip(p as int).skip(i - p) =~= line@.skip(i as int));
    }
    i
}

/// First index at or after `p` holding a blank, or the length.
fn scan_token(line: &str, n: usize, p: usize) -> (r: usize)
    requires
        n == line@.len(),
        p <= n,
    ensures
        p <= r <= n,
        spec_take_token(line@.skip(p as int)) =~= line@.subrange(p as int, r as int),
        spec_skip_token(line@.skip(p as int)) =~= line@.skip(r as int),
{
    let mut i: usize = p;
    loop
        invariant
            n == line@.len(),
            p <= i <= n,
            forall|j: int| p <= j < i ==> !is_space(line@[j]),
        ensures
            p <= i <= n,
            forall|j: int| p <= j < i ==> !is_space(line@[j]),
            i < n ==> is_space(line@[i as int]),
        decreases n - i,
    {
        if i == n {
            break ;
        }
        let c = line.get_char(i);
        if c == ' ' || c == '\t' {
            break ;
        }
        i = i + 1;
    }
    proof {
        lemma_token_scan(line@.skip(p as int), i - p);
        assert(line@.skip(p as int).subrange(0, i - p) =~= line@.subrange(p as int, i as int));
        assert(line@.skip(p as int).skip(i - p) =~= line@.skip(i as int));
    }
    i
}

/// Split the first line of `req` into method, target and version.
pub fn parse_request_line(req: &str) -> (r: RequestLine)
    ensures
        r.method@ == spec_token(spec_first_line(req@), 0),
        r.target@ == spec_token(spec_first_line(req@), 1),
        r.version@ == spec_token(spec_first_line(req@), 2),
{
    let total = req.unicode_len();
    let mut e: usize = 0;
    while e < total && req.get_char(e) != '\n'
        invariant
            total == req@.len(),
            0 <= e <= total,
            forall|j: int| 0 <= j < e ==> req@[j] != '\n',
        decreases total - e,
    {
        e = e + 1;
    }
    proof {
        lemma_line_scan(req@, e as int);
    }
    let line_end: usize = if e > 0 && req.get_char(e - 1) == '\r' {
        e - 1
    } else {
        e
    };
    let line = req.substring_char(0, line_end);
    proof {
        if e > 0 && req@[e - 1] == '\r' {
            assert(req@.subrange(0, e as int).take(e - 1) =~= req@.subrange(0, e - 1));
        }
        assert(line@ =~= spec_first_line(req@));
    }
    let n = line.unicode_len();

    let m0 = scan_spaces(line, n, 0);
    let m1 = scan_token(line, n, m0);
    let method = line.substring_char(m0, m1).to_owned();

    let t0 = scan_spaces(line, n, m1);
    let t1 = scan_token(line, n, t0);
    let target = line.substring_char(t0, t1).to_owned();

    let v0 = scan_spaces(line, n, t1);
    let v1 = scan_token(line, n, v0);
    let version = line.substring_char(v0, v1).to_owned();

    proof {
        assert(line@.skip(0) =~= line@);
        assert(method@ == spec_token(line@, 0));
        assert(spec_token(line@, 1) == spec_token(line@.skip(m1 as int), 0));
        assert(target@ == spec_token(line@, 1));
        assert(spec_token(line@, 2) == spec_token(line@.skip(m1 as int), 1));
        assert(spec_token(line@.skip(m1 as int), 1) == spec_token(line@.skip(t1 as int), 0));
        assert(version@ == spec_token(line@, 2));
    }
    RequestLine { method, target, version }
}

/// True exactly for the two accepted request methods.
pub fn method_allowed(m: &str) -> (r: bool)
    ensures
        r == (m@ == "GET"@ || m@ == "HEAD"@),
{
    str_eq(m, "GET") || str_eq(m, "HEAD")
}

} // verus!
