//! The drone's guard on ad-hoc session-database queries, and the
//! byte-bounded prefix it logs rejected queries with.

use vstd::prelude::*;

use crate::text::{
    is_white_space, is_whitespace, lemma_trim_end_at, lemma_trim_end_char_at, lemma_trim_start_at,
    seq_starts_with, starts_with, substring, to_lowercase, trim_end_char, trim_end_ws,
    trim_ws, unicode_lowercase,
};

verus! {

/// The statement text the guard inspects: the query trimmed, with its
/// trailing semicolons and the whitespace before them removed.
pub open spec fn statement_body(sql: Seq<char>) -> Seq<char> {
    trim_end_ws(trim_end_char(trim_ws(sql), ';'))
}

/// A query passes the guard when, after trimming, it is not empty, holds
/// no semicolon but trailing ones, and its lowercase form begins with the
/// keyword `select` followed by whitespace or the end of the text.
pub open spec fn select_only(sql: Seq<char>) -> bool {
    let body = statement_body(sql);
    let low = unicode_lowercase(body);
    &&& trim_ws(sql).len() > 0
    &&& !body.contains(';')
    &&& seq_starts_with(low, "select"@)
    &&& (low.len() == 6 || is_white_space(low[6]))
}

/// Is `sql` a single SELECT statement? A lexical check: empty text,
/// embedded semicolons (a second statement), `pragma` and every leading
/// keyword but `select` are refused.
pub fn is_select_only(sql: &str) -> (r: bool)
    ensures
        r == select_only(sql@),
{
    let n = sql.unicode_len();
    let ghost s = sql@;
    let mut a: usize = 0;
    while a < n && is_whitespace(sql.get_char(a))
        invariant
            n == s.len(),
            s == sql@,
            a <= n,
            forall|j: int| 0 <= j < a ==> is_white_space(#[trigger] s[j]),
        decreases n - a,
    {
        a = a + 1;
    }
    let mut b: usize = n;
    while b > a && is_whitespace(sql.get_char(b - 1))
        invariant
            n == s.len(),
            s == sql@,
            a <= b <= n,
            forall|j: int| b <= j < n ==> is_white_space(#[trigger] s[j]),
        decreases b,
    {
        b = b - 1;
    }
    proof {
        lemma_trim_start_at(s, a as int);
        let rest = s.subrange(a as int, n as int);
        assert forall|j: int| b - a <= j < rest.len() implies is_white_space(#[trigger] rest[j]) by {
            assert(rest[j] == s[a + j]);
        }
        lemma_trim_end_at(rest, b - a);
        assert(rest.subrange(0, b - a) =~= s.subrange(a as int, b as int));
    }
    if a == b {
        return false;
    }
    let mut c: usize = b;
    while c > a && sql.get_char(c - 1) == ';'
        invariant
            n == s.len(),
            s == sql@,
            a <= c <= b <= n,
            forall|j: int| c <= j < b ==> #[trigger] s[j] == ';',
        decreases c,
    {
        c = c - 1;
    }
    let mut d: usize = c;
    while d > a && is_whitespace(sql.get_char(d - 1))
        invariant
            n == s.len(),
            s == sql@,
            a <= d <= c,
            c <= n,
            forall|j: int| d <= j < c ==> is_white_space(#[trigger] s[j]),
        decreases d,
    {
        d = d - 1;
    }
    proof {
        let t = s.subrange(a as int, b as int);
        assert forall|j: int| c - a <= j < t.len() implies #[trigger] t[j] == ';' by {
            assert(t[j] == s[a + j]);
        }
        lemma_trim_end_char_at(t, ';', c - a);
        let u = t.subrange(0, c - a);
        assert(u =~= s.subrange(a as int, c as int));
        assert forall|j: int| d - a <= j < u.len() implies is_white_space(#[trigger] u[j]) by {
            assert(u[j] == s[a + j]);
        }
        lemma_trim_end_at(u, d - a);
        assert(u.subrange(0, d - a) =~= s.subrange(a as int, d as int));
    }
    let body = substring(sql, a, d);
    let mut k: usize = a;
    while k < d
        invariant
            n == s.len(),
            s == sql@,
            a <= k <= d,
            d <= n,
            body@ == s.subrange(a as int, d as int),
            body@ == statement_body(s),
            trim_ws(s).len() > 0,
            forall|j: int| a <= j < k ==> #[trigger] s[j] != ';',
        decreases d - k,
    {
        if sql.get_char(k) == ';' {
            proof {
                assert(body@[k - a] == ';');
            }
            return false;
        }
        k = k + 1;
    }
    proof {
        assert forall|j: int| 0 <= j < body@.len() implies body@[j] != ';' by {
            assert(body@[j] == s[a + j]);
        }
    }
    let lower = to_lowercase(body.as_str());
    if starts_with(lower.as_str(), "pragma") {
        proof {
            reveal_strlit("pragma");
            reveal_strlit("select");
            assert("pragma"@[0] == 'p');
            assert("select"@[0] == 's');
            assert(lower@.subrange(0, 6)[0] == lower@[0]);
        }
        return false;
    }
    if !starts_with(lower.as_str(), "select") {
        return false;
    }
    proof {
        reveal_strlit("select");
    }
    if lower.unicode_len() == 6 {
        true
    } else {
        is_whitespace(lower.as_str().get_char(6))
    }
}

/// How many bytes the UTF-8 encoding of `c` takes.
pub open spec fn utf8_width(c: char) -> nat {
    if '\u{80}' > c {
        1
    } else if '\u{800}' > c {
        2
    } else if '\u{10000}' > c {
        3
    } else {
        4
    }
}

/// How many bytes the UTF-8 encoding of `s` takes.
pub open spec fn utf8_len(s: Seq<char>) -> nat
    decreases s.len(),
{
    if s.len() == 0 {
        0
    } else {
        utf8_len(s.drop_last()) + utf8_width(s.last())
    }
}

fn char_width(c: char) -> (r: usize)
    ensures
        r == utf8_width(c),
{
    if '\u{80}' > c {
        1
    } else if '\u{800}' > c {
        2
    } else if '\u{10000}' > c {
        3
    } else {
        4
    }
}

/// The longest prefix of `s` whose UTF-8 encoding fits in `max` bytes:
/// `s` itself when it fits, else `s` cut at the last character boundary
/// at or below `max`.
pub fn truncate_for_log(s: &str, max: usize) -> (r: &str)
    ensures
        r@.len() <= s@.len(),
        r@ == s@.subrange(0, r@.len() as int),
        utf8_len(r@) <= max,
        r@.len() == s@.len() || utf8_len(s@.subrange(0, r@.len() as int + 1)) > max,
{
    let n = s.unicode_len();
    let mut total: usize = 0;
    let mut i: usize = 0;
    while i < n
        invariant
            n == s@.len(),
            i <= n,
            total == utf8_len(s@.subrange(0, i as int)),
            total <= max,
        decreases n - i,
    {
        let c = s.get_char(i);
        let w = char_width(c);
        proof {
            assert(s@.subrange(0, i + 1).drop_last() =~= s@.subrange(0, i as int));
        }
        if w > max - total {
            return s.substring_char(0, i);
        }
        total = total + w;
        i = i + 1;
    }
    proof {
        assert(s@.subrange(0, n as int) =~= s@);
    }
    s.substring_char(0, n)
}

} // verus!
