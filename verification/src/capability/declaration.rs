//! Predicates over capability declarations: does a parent grant cover a
//! requested capability, and does one scope contain another?
//!
//! Both predicates are asymmetric: `subsumes(parent, child)` asks whether
//! the parent's grant covers everything the child asks for.

use vstd::prelude::*;

use crate::capability::types::{CapabilityDeclaration, CapabilityScope};
use crate::text::{contains_char, ends_with, seq_ends_with, seq_starts_with, str_eq};

verus! {

/// Whether `globset`, with backslash escaping on, builds `pattern` into a
/// glob set and that set matches `path`.
pub uninterp spec fn glob_matches(pattern: Seq<char>, path: Seq<char>) -> bool;

/// The longest glob pattern, in characters, handed to `globset`. Below it
/// every literal `globset` builds an Aho-Corasick automaton from stays
/// under that crate's state limit, so building the set returns an error
/// instead of panicking.
pub const GLOB_PATTERN_LIMIT: usize = 0x1000_0000;

/// Calls `globset::GlobBuilder::new(pattern).backslash_escape(true).build()`
/// and, when the pattern parses, builds a one-glob `GlobSet` and calls
/// `is_match(path)` on it; a parse or build error answers `false`.
///
/// Claims that the answer is a function of the two strings (named
/// `glob_matches`). That holds on every platform for a path without a
/// backslash: `globset` rewrites separators only off Unix, and only the
/// backslash, and escaping is pinned. Patterns of `GLOB_PATTERN_LIMIT`
/// characters or more are left out: their literals could overflow the
/// automaton `GlobSet::build` unwraps.
#[verifier::external_body]
fn glob_match_path(pattern: &str, path: &str) -> (r: bool)
    requires
        pattern@.len() < GLOB_PATTERN_LIMIT,
        !path@.contains('\\'),
    ensures
        r == glob_matches(pattern@, path@),
{
    let glob = match globset::GlobBuilder::new(pattern).backslash_escape(true).build() {
        Ok(glob) => glob,
        Err(_) => return false,
    };
    match globset::GlobSetBuilder::new().add(glob).build() {
        Ok(set) => set.is_match(path),
        Err(_) => false,
    }
}

/// A glob pattern covers a path when the pattern is shorter than
/// `GLOB_PATTERN_LIMIT`, the path holds no backslash, and `globset`
/// matches the pattern against the path as given.
///
/// `globset` reads a backslash in a path as an ordinary character on Unix
/// and as a separator elsewhere, so for such a path it answers
/// differently by platform. Rather than rewrite the path, a path with a
/// backslash is covered by no glob: the request is refused, as any
/// request no grant covers is.
pub open spec fn glob_covers_path(pattern: Seq<char>, path: Seq<char>) -> bool {
    &&& pattern.len() < GLOB_PATTERN_LIMIT
    &&& !path.contains('\\')
    &&& glob_matches(pattern, path)
}

/// Does glob `pattern` cover `path`? See [`glob_covers_path`].
fn glob_contains_path(pattern: &str, path: &str) -> (r: bool)
    ensures
        r == glob_covers_path(pattern@, path@),
{
    if pattern.unicode_len() >= GLOB_PATTERN_LIMIT {
        return false;
    }
    if contains_char(path, '\\') {
        return false;
    }
    glob_match_path(pattern, path)
}

/// `s` with every trailing `/` removed.
pub open spec fn trim_trailing_slashes(s: Seq<char>) -> Seq<char>
    decreases s.len(),
{
    if s.len() > 0 && s.last() == '/' {
        trim_trailing_slashes(s.drop_last())
    } else {
        s
    }
}

/// Domain containment: equal hosts, or a leading-dot pattern
/// `.example.com` that covers `example.com` and every name ending in
/// `.example.com`.
pub open spec fn domain_covers(outer: Seq<char>, inner: Seq<char>) -> bool {
    outer == inner || (outer.len() > 0 && outer[0] == '.' && (inner == outer.drop_first()
        || seq_ends_with(inner, outer)))
}

/// Path containment: equal paths, or `inner` continues `outer` (trailing
/// slashes removed) with a `/` separator. `src` covers `src/foo` but not
/// `src-other`.
pub open spec fn path_covers(outer: Seq<char>, inner: Seq<char>) -> bool {
    outer == inner || {
        let o = trim_trailing_slashes(outer);
        seq_starts_with(inner, o) && o.len() < inner.len() && inner[o.len() as int] == '/'
    }
}

/// Scope containment, per variant. A glob covers an equal glob or a path
/// it matches; domains and paths cover their own kind; every other pair
/// is non-containing.
pub open spec fn scope_covers(outer: CapabilityScope, inner: CapabilityScope) -> bool {
    match (outer, inner) {
        (CapabilityScope::Glob(g1), CapabilityScope::Glob(g2)) => g1@ == g2@,
        (CapabilityScope::Glob(g), CapabilityScope::Path(p)) => glob_covers_path(g@, p@),
        (CapabilityScope::Domain(d1), CapabilityScope::Domain(d2)) => domain_covers(d1@, d2@),
        (CapabilityScope::Path(p1), CapabilityScope::Path(p2)) => path_covers(p1@, p2@),
        _ => false,
    }
}

/// The parent grant covers the requested capability: same kind, same
/// side-effect class, same resource, and a containing scope.
pub open spec fn grant_covers(parent: CapabilityDeclaration, requested: CapabilityDeclaration) -> bool {
    &&& parent.kind == requested.kind
    &&& parent.side_effect_class == requested.side_effect_class
    &&& parent.resource@ == requested.resource@
    &&& scope_covers(parent.scope, requested.scope)
}

/// Does `parent`'s grant cover the entire surface `requested` declares?
pub fn subsumes(parent: &CapabilityDeclaration, requested: &CapabilityDeclaration) -> (r: bool)
    ensures
        r == grant_covers(*parent, *requested),
{
    parent.kind == requested.kind && parent.side_effect_class == requested.side_effect_class
        && str_eq(parent.resource.as_str(), requested.resource.as_str()) && scope_contains(
        &parent.scope,
        &requested.scope,
    )
}

/// Does `outer` scope cover everything `inner` scope describes?
pub fn scope_contains(outer: &CapabilityScope, inner: &CapabilityScope) -> (r: bool)
    ensures
        r == scope_covers(*outer, *inner),
{
    match (outer, inner) {
        (CapabilityScope::Glob(g1), CapabilityScope::Glob(g2)) => str_eq(g1.as_str(), g2.as_str()),
        (CapabilityScope::Glob(g), CapabilityScope::Path(p)) => glob_contains_path(
            g.as_str(),
            p.as_str(),
        ),
        (CapabilityScope::Domain(d1), CapabilityScope::Domain(d2)) => domain_contains(
            d1.as_str(),
            d2.as_str(),
        ),
        (CapabilityScope::Path(p1), CapabilityScope::Path(p2)) => path_contains(
            p1.as_str(),
            p2.as_str(),
        ),
        _ => false,
    }
}

/// Domain containment; see [`domain_covers`].
pub fn domain_contains(outer: &str, inner: &str) -> (r: bool)
    ensures
        r == domain_covers(outer@, inner@),
{
    if str_eq(outer, inner) {
        return true;
    }
    let n = outer.unicode_len();
    if n > 0 && outer.get_char(0) == '.' {
        let suffix = outer.substring_char(1, n);
        proof {
            assert(suffix@ =~= outer@.drop_first());
        }
        return str_eq(inner, suffix) || ends_with(inner, outer);
    }
    false
}

/// Path containment; see [`path_covers`].
pub fn path_contains(outer: &str, inner: &str) -> (r: bool)
    ensures
        r == path_covers(outer@, inner@),
{
    if str_eq(outer, inner) {
        return true;
    }
    let n = outer.unicode_len();
    let mut k: usize = n;
    proof {
        assert(outer@.subrange(0, n as int) =~= outer@);
    }
    while k > 0 && outer.get_char(k - 1) == '/'
        invariant
            n == outer@.len(),
            k <= n,
            trim_trailing_slashes(outer@) == trim_trailing_slashes(outer@.subrange(0, k as int)),
        decreases k,
    {
        proof {
            let s = outer@.subrange(0, k as int);
            assert(s.drop_last() =~= outer@.subrange(0, k - 1));
        }
        k = k - 1;
    }
    proof {
        assert(outer@.subrange(0, n as int) =~= outer@);
    }
    let ghost o = outer@.subrange(0, k as int);
    assert(trim_trailing_slashes(outer@) == o);
    let m = inner.unicode_len();
    if m <= k {
        return false;
    }
    let mut i: usize = 0;
    while i < k
        invariant
            n == outer@.len(),
            m == inner@.len(),
            k <= n,
            k < m,
            i <= k,
            o == outer@.subrange(0, k as int),
            trim_trailing_slashes(outer@) == o,
            outer@ != inner@,
            forall|j: int| 0 <= j < i ==> inner@[j] == outer@[j],
        decreases k - i,
    {
        if inner.get_char(i) != outer.get_char(i) {
            proof {
                assert(inner@.subrange(0, k as int)[i as int] != o[i as int]);
            }
            return false;
        }
        i = i + 1;
    }
    proof {
        assert(inner@.subrange(0, k as int) =~= o);
    }
    inner.get_char(k) == '/'
}

/// Every domain covers itself.
pub proof fn lemma_domain_covers_itself(d: Seq<char>)
    ensures
        domain_covers(d, d),
{
}

/// A leading-dot domain `.example.com` covers the bare domain
/// `example.com` and every name that ends in `.example.com`.
pub proof fn lemma_dot_domain_covers_subdomains(base: Seq<char>, sub: Seq<char>)
    requires
        base.len() > 0,
        base[0] == '.',
    ensures
        domain_covers(base, base.drop_first()),
        domain_covers(base, sub + base),
{
    assert((sub + base).subrange((sub + base).len() - base.len(), (sub + base).len() as int)
        =~= base);
}

/// A domain without a leading dot covers exactly itself.
pub proof fn lemma_plain_domain_covers_only_itself(outer: Seq<char>, inner: Seq<char>)
    requires
        outer.len() == 0 || outer[0] != '.',
    ensures
        domain_covers(outer, inner) <==> outer == inner,
{
}

proof fn lemma_trim_prefix(s: Seq<char>)
    ensures
        trim_trailing_slashes(s).len() <= s.len(),
        s.subrange(0, trim_trailing_slashes(s).len() as int) == trim_trailing_slashes(s),
        forall|k: int|
            trim_trailing_slashes(s).len() <= k < s.len() ==> #[trigger] s[k] == '/',
    decreases s.len(),
{
    if s.len() > 0 && s.last() == '/' {
        lemma_trim_prefix(s.drop_last());
        let t = trim_trailing_slashes(s.drop_last());
        assert(s.subrange(0, t.len() as int) =~= s.drop_last().subrange(0, t.len() as int));
        assert forall|k: int| t.len() <= k < s.len() implies #[trigger] s[k] == '/' by {
            if k < s.len() - 1 {
                assert(s.drop_last()[k] == s[k]);
            }
        }
    } else {
        assert(s.subrange(0, s.len() as int) =~= s);
    }
}

/// Every path covers itself.
pub proof fn lemma_path_covers_itself(p: Seq<char>)
    ensures
        path_covers(p, p),
{
}

/// A path covers everything beneath it: `outer` covers `outer/rest`, with
/// or without trailing slashes on `outer`.
pub proof fn lemma_path_covers_children(outer: Seq<char>, rest: Seq<char>)
    ensures
        path_covers(outer, outer + "/"@ + rest),
{
    reveal_strlit("/");
    lemma_trim_prefix(outer);
    let o = trim_trailing_slashes(outer);
    let inner = outer + "/"@ + rest;
    assert(inner.subrange(0, o.len() as int) =~= outer.subrange(0, o.len() as int));
    if o.len() < outer.len() {
        assert(inner[o.len() as int] == outer[o.len() as int]);
    } else {
        assert(inner[o.len() as int] == '/');
    }
}

/// A path does not cover a sibling that merely extends its name:
/// `src` does not cover `src-other/...`.
pub proof fn lemma_path_skips_siblings(outer: Seq<char>, suffix: Seq<char>)
    requires
        outer.len() > 0,
        outer.last() != '/',
        suffix.len() > 0,
        suffix[0] != '/',
    ensures
        !path_covers(outer, outer + suffix),
{
    assert(trim_trailing_slashes(outer) == outer);
    assert((outer + suffix)[outer.len() as int] == suffix[0]);
    assert(outer + suffix != outer) by {
        assert((outer + suffix).len() != outer.len());
    }
}

} // verus!
