//! The pure parts of saving and loading a framework directory: the
//! companion markdown files, which top-level files count as companions,
//! and how an artifact's YAML frontmatter splits from its body.

use vstd::prelude::*;

use crate::framework::model::Framework;
use crate::text::{
    ends_with, lemma_seq_lt_irreflexive, lemma_seq_lt_transitive, occurs_at, seq_ends_with, seq_lt,
    push_char, seq_starts_with, starts_with, str_eq, str_lt,
};

verus! {

/// One artifact's companion markdown file.
#[derive(Clone, Debug)]
pub struct Companion {
    /// File name relative to the framework directory.
    pub file_name: String,
    /// The full markdown body, frontmatter included.
    pub body: String,
}

/// A framework reloaded from disk, with every reference resolved.
#[derive(Clone, Debug)]
pub struct LoadedFramework {
    /// The resolved framework.
    pub framework: Framework,
    /// The companion files found with it, sorted by file name.
    pub companions: Vec<Companion>,
}

/// A top-level companion is named `*.skill.md`, `*.tool.md` or
/// `*.agent.md`.
pub open spec fn companion_name(name: Seq<char>) -> bool {
    seq_ends_with(name, ".skill.md"@) || seq_ends_with(name, ".tool.md"@) || seq_ends_with(
        name,
        ".agent.md"@,
    )
}

/// Is `name` a top-level flat companion markdown file?
pub fn is_companion_md(name: &str) -> (r: bool)
    ensures
        r == companion_name(name@),
{
    ends_with(name, ".skill.md") || ends_with(name, ".tool.md") || ends_with(name, ".agent.md")
}

/// The delimiter line of a frontmatter block.
pub open spec fn fence() -> Seq<char> {
    "---\n"@
}

/// `j` is the first position at or after 4 where the delimiter occurs.
pub open spec fn closing_fence_at(t: Seq<char>, j: int) -> bool {
    &&& 4 <= j
    &&& occurs_at(t, fence(), j)
    &&& forall|k: int| 4 <= k < j ==> !occurs_at(t, fence(), k)
}

fn fence_at(s: &str, i: usize) -> (r: bool)
    requires
        i + 4 <= s@.len(),
    ensures
        r == occurs_at(s@, fence(), i as int),
{
    proof {
        reveal_strlit("---\n");
    }
    let _n = s.unicode_len();
    let r = s.get_char(i) == '-' && s.get_char(i + 1) == '-' && s.get_char(i + 2) == '-'
        && s.get_char(i + 3) == '\n';
    proof {
        if r {
            assert(s@.subrange(i as int, i + 4) =~= fence());
        } else if occurs_at(s@, fence(), i as int) {
            let w = s@.subrange(i as int, i + 4);
            assert(w[0] == s@[i as int] && w[1] == s@[i + 1] && w[2] == s@[i + 2] && w[3] == s@[i
                + 3]);
        }
    }
    r
}

/// Splits an artifact's YAML frontmatter from its markdown body. The
/// text must open with the delimiter line `---\n`; the frontmatter runs
/// up to the next `---\n` and the body is everything after it. Any other
/// text has no frontmatter. Line endings must already be LF.
pub fn split_frontmatter(text: &str) -> (r: Option<(&str, &str)>)
    ensures
        match r {
            Some((front, body)) => seq_starts_with(text@, fence()) && exists|j: int|
                closing_fence_at(text@, j) && front@ == text@.subrange(4, j) && body@
                    == text@.subrange(j + 4, text@.len() as int),
            None => !seq_starts_with(text@, fence()) || forall|j: int|
                4 <= j ==> !occurs_at(text@, fence(), j),
        },
{
    if !starts_with(text, "---\n") {
        return None;
    }
    let n = text.unicode_len();
    proof {
        reveal_strlit("---\n");
    }
    let mut j: usize = 4;
    while j <= n - 4
        invariant
            n == text@.len(),
            n >= 4,
            seq_starts_with(text@, fence()),
            4 <= j,
            forall|k: int| 4 <= k < j ==> !occurs_at(text@, fence(), k),
        decreases n - j,
    {
        if fence_at(text, j) {
            proof {
                assert(closing_fence_at(text@, j as int));
            }
            let front = text.substring_char(4, j);
            let body = text.substring_char(j + 4, n);
            return Some((front, body));
        }
        j = j + 1;
    }
    proof {
        assert forall|k: int| 4 <= k implies !occurs_at(text@, fence(), k) by {
            if k >= j {
                assert(k + fence().len() > n) by {
                    reveal_strlit("---\n");
                }
            }
        }
    }
    None
}

/// `s` with every CR LF pair replaced by a single LF, pairs taken
/// from the left.
pub open spec fn crlf_to_lf(s: Seq<char>) -> Seq<char>
    decreases s.len(),
{
    if s.len() == 0 {
        s
    } else if s.len() >= 2 && s[0] == '\r' && s[1] == '\n' {
        seq!['\n'] + crlf_to_lf(s.subrange(2, s.len() as int))
    } else {
        seq![s[0]] + crlf_to_lf(s.drop_first())
    }
}

/// Replaces every CR LF line ending in `text` with LF, as a referenced
/// agent file is read before its frontmatter is split.
pub fn normalize_line_endings(text: &str) -> (r: String)
    ensures
        r@ == crlf_to_lf(text@),
{
    let n = text.unicode_len();
    let mut r = String::new();
    let mut i: usize = 0;
    proof {
        assert(text@.subrange(0, n as int) =~= text@);
        assert(r@ + crlf_to_lf(text@) =~= crlf_to_lf(text@));
    }
    while i < n
        invariant
            n == text@.len(),
            i <= n,
            crlf_to_lf(text@) == r@ + crlf_to_lf(text@.subrange(i as int, n as int)),
        decreases n - i,
    {
        let ghost t = text@.subrange(i as int, n as int);
        let ghost r0 = r@;
        let c = text.get_char(i);
        if c == '\r' && i + 1 < n && text.get_char(i + 1) == '\n' {
            push_char(&mut r, '\n');
            proof {
                assert(t.subrange(2, t.len() as int) =~= text@.subrange(i + 2, n as int));
                assert(r0 + (seq!['\n'] + crlf_to_lf(t.subrange(2, t.len() as int))) =~= r@
                    + crlf_to_lf(text@.subrange(i + 2, n as int)));
            }
            i = i + 2;
        } else {
            push_char(&mut r, c);
            proof {
                assert(t.drop_first() =~= text@.subrange(i + 1, n as int));
                assert(r0 + (seq![t[0]] + crlf_to_lf(t.drop_first())) =~= r@ + crlf_to_lf(
                    text@.subrange(i + 1, n as int),
                ));
            }
            i = i + 1;
        }
    }
    proof {
        assert(text@.subrange(n as int, n as int) =~= Seq::<char>::empty());
        assert(r@ + Seq::<char>::empty() =~= r@);
    }
    r
}

/// Some companion in `cs` has the file name `name`.
pub open spec fn has_companion_named(cs: Seq<Companion>, name: Seq<char>) -> bool {
    exists|i: int| 0 <= i < cs.len() && (#[trigger] cs[i]).file_name@ == name
}

/// No companion's file name precedes that of an earlier one.
pub open spec fn sorted_by_name(cs: Seq<Companion>) -> bool {
    forall|i: int, j: int|
        #![trigger cs[i], cs[j]]
        0 <= i < j < cs.len() ==> !seq_lt(cs[j].file_name@, cs[i].file_name@)
}

/// The companions resolved from references, followed by each flat
/// companion whose file name is not present yet.
pub open spec fn merged_companions(resolved: Seq<Companion>, flat: Seq<Companion>) -> Seq<
    Companion,
>
    decreases flat.len(),
{
    if flat.len() == 0 {
        resolved
    } else {
        let acc = merged_companions(resolved, flat.drop_last());
        if has_companion_named(acc, flat.last().file_name@) {
            acc
        } else {
            acc.push(flat.last())
        }
    }
}

fn has_named(cs: &Vec<Companion>, name: &str) -> (r: bool)
    ensures
        r == has_companion_named(cs@, name@),
{
    let mut i: usize = 0;
    while i < cs.len()
        invariant
            i <= cs@.len(),
            forall|j: int| 0 <= j < i ==> (#[trigger] cs@[j]).file_name@ != name@,
        decreases cs@.len() - i,
    {
        if str_eq(cs[i].file_name.as_str(), name) {
            return true;
        }
        i = i + 1;
    }
    false
}

/// Holds of the companions named `name`.
pub open spec fn name_is(name: Seq<char>) -> spec_fn(Companion) -> bool {
    |c: Companion| c.file_name@ == name
}

/// The companions of `cs` named `name`, in their order in `cs`.
pub open spec fn named(cs: Seq<Companion>, name: Seq<char>) -> Seq<Companion> {
    cs.filter(name_is(name))
}

proof fn lemma_filter_none<A>(s: Seq<A>, pred: spec_fn(A) -> bool)
    requires
        forall|i: int| 0 <= i < s.len() ==> !pred(#[trigger] s[i]),
    ensures
        s.filter(pred) == Seq::<A>::empty(),
    decreases s.len(),
{
    reveal(Seq::filter);
    if s.len() > 0 {
        lemma_filter_none(s.drop_last(), pred);
    }
}

proof fn lemma_filter_push<A>(s: Seq<A>, x: A, pred: spec_fn(A) -> bool)
    ensures
        s.push(x).filter(pred) == (if pred(x) {
            s.filter(pred).push(x)
        } else {
            s.filter(pred)
        }),
{
    reveal(Seq::filter);
    assert(s.push(x).drop_last() =~= s);
}

/// Inserting `c` at `p`, where no later companion shares its name,
/// appends `c` to the companions of its name and leaves the others.
proof fn lemma_insert_named(before: Seq<Companion>, p: int, c: Companion, k: Seq<char>)
    requires
        0 <= p <= before.len(),
        forall|j: int| p <= j < before.len() ==> (#[trigger] before[j]).file_name@ != c.file_name@,
    ensures
        named(before.insert(p, c), k) == (if c.file_name@ == k {
            named(before, k).push(c)
        } else {
            named(before, k)
        }),
{
    let pr = name_is(k);
    let a = before.subrange(0, p);
    let b = before.subrange(p, before.len() as int);
    assert(before.insert(p, c) =~= (a + seq![c]) + b);
    assert(before =~= a + b);
    assert(seq![c] =~= Seq::<Companion>::empty().push(c));
    Seq::filter_distributes_over_add(a + seq![c], b, pr);
    Seq::filter_distributes_over_add(a, seq![c], pr);
    Seq::filter_distributes_over_add(a, b, pr);
    lemma_filter_push(Seq::<Companion>::empty(), c, pr);
    lemma_filter_none(Seq::<Companion>::empty(), pr);
    lemma_filter_push(a, c, pr);
    if c.file_name@ == k {
        assert forall|i: int| 0 <= i < b.len() implies !pr(#[trigger] b[i]) by {
            assert(b[i] == before[p + i]);
        }
        lemma_filter_none(b, pr);
        assert(a.filter(pr) + b.filter(pr) =~= a.filter(pr));
        assert(a.filter(pr).push(c) + b.filter(pr) =~= a.filter(pr).push(c));
    } else {
        assert(a.filter(pr) + Seq::<Companion>::empty() =~= a.filter(pr));
    }
}

/// Sorts companions by file name; companions with equal names keep
/// their order.
fn sort_by_name(v: Vec<Companion>) -> (r: Vec<Companion>)
    ensures
        sorted_by_name(r@),
        r@.to_multiset() == v@.to_multiset(),
        forall|name: Seq<char>| #[trigger] named(r@, name) == named(v@, name),
{
    let ghost v0 = v@;
    let mut rest = v;
    let mut out: Vec<Companion> = Vec::new();
    proof {
        assert(v0.subrange(0, 0) =~= Seq::<Companion>::empty());
        assert(v0.subrange(0, v0.len() as int) =~= v0);
        assert(out@ =~= v0.subrange(0, 0));
    }
    while rest.len() > 0
        invariant
            rest@.len() <= v0.len(),
            rest@ == v0.subrange(v0.len() - rest@.len(), v0.len() as int),
            sorted_by_name(out@),
            out@.to_multiset() == v0.subrange(0, v0.len() - rest@.len()).to_multiset(),
            forall|name: Seq<char>|
                #[trigger] named(out@, name) == named(
                    v0.subrange(0, v0.len() - rest@.len()),
                    name,
                ),
        decreases rest@.len(),
    {
        let ghost m = v0.len() - rest@.len();
        let c = rest.remove(0);
        let mut p: usize = 0;
        while p < out.len() && !str_lt(c.file_name.as_str(), out[p].file_name.as_str())
            invariant
                p <= out@.len(),
                forall|j: int| 0 <= j < p ==> !seq_lt(c.file_name@, (#[trigger] out@[j]).file_name@),
            decreases out@.len() - p,
        {
            p = p + 1;
        }
        let ghost before = out@;
        out.insert(p, c);
        proof {
            let nv = out@;
            assert(nv =~= before.insert(p as int, c));
            assert forall|i: int, j: int|
                #![trigger nv[i], nv[j]]
                0 <= i < j < nv.len() implies !seq_lt(nv[j].file_name@, nv[i].file_name@) by {
                if i == p {
                    let q = j - 1;
                    assert(seq_lt(c.file_name@, before[p as int].file_name@));
                    if seq_lt(before[q].file_name@, c.file_name@) {
                        lemma_seq_lt_transitive(
                            before[q].file_name@,
                            c.file_name@,
                            before[p as int].file_name@,
                        );
                        if q == p {
                            lemma_seq_lt_irreflexive(before[q].file_name@);
                        } else {
                            assert(!seq_lt(before[q].file_name@, before[p as int].file_name@));
                        }
                    }
                } else if j == p {
                    assert(!seq_lt(c.file_name@, before[i].file_name@));
                } else if i > p {
                    assert(!seq_lt(before[j - 1].file_name@, before[i - 1].file_name@));
                } else if j > p {
                    assert(!seq_lt(before[j - 1].file_name@, before[i].file_name@));
                } else {
                    assert(!seq_lt(before[j].file_name@, before[i].file_name@));
                }
            }
            vstd::seq_lib::to_multiset_insert(before, p as int, c);
            assert(v0.subrange(0, m + 1) =~= v0.subrange(0, m).push(c));
            assert forall|j: int| p <= j < before.len() implies (#[trigger] before[j]).file_name@
                != c.file_name@ by {
                if j == p {
                    lemma_seq_lt_irreflexive(c.file_name@);
                } else {
                    assert(!seq_lt(before[j].file_name@, before[p as int].file_name@));
                }
            }
            assert forall|name: Seq<char>| #[trigger]
                named(nv, name) == named(v0.subrange(0, m + 1), name) by {
                lemma_insert_named(before, p as int, c, name);
                lemma_filter_push(v0.subrange(0, m), c, name_is(name));
            }
            vstd::seq_lib::to_multiset_build(v0.subrange(0, m), c);
            assert(rest@ =~= v0.subrange(m + 1, v0.len() as int));
        }
    }
    out
}

/// The companion list a loaded framework reports: the companions read
/// through references, then each top-level flat companion whose file
/// name is not among them yet, all sorted by file name; companions that
/// share a name keep their order.
pub fn merge_companions(resolved: Vec<Companion>, flat: Vec<Companion>) -> (r: Vec<Companion>)
    ensures
        sorted_by_name(r@),
        r@.to_multiset() == merged_companions(resolved@, flat@).to_multiset(),
        forall|name: Seq<char>|
            #[trigger] named(r@, name) == named(merged_companions(resolved@, flat@), name),
{
    let ghost res0 = resolved@;
    let ghost flat0 = flat@;
    let mut acc = resolved;
    let mut rest = flat;
    proof {
        assert(flat0.subrange(0, 0) =~= Seq::<Companion>::empty());
        assert(flat0.subrange(0, flat0.len() as int) =~= flat0);
    }
    while rest.len() > 0
        invariant
            rest@.len() <= flat0.len(),
            rest@ == flat0.subrange(flat0.len() - rest@.len(), flat0.len() as int),
            acc@ == merged_companions(res0, flat0.subrange(0, flat0.len() - rest@.len())),
        decreases rest@.len(),
    {
        let ghost m = flat0.len() - rest@.len();
        let c = rest.remove(0);
        proof {
            let pre = flat0.subrange(0, m + 1);
            assert(pre.drop_last() =~= flat0.subrange(0, m));
            assert(pre.last() == c);
            assert(rest@ =~= flat0.subrange(m + 1, flat0.len() as int));
        }
        if !has_named(&acc, c.file_name.as_str()) {
            acc.push(c);
        }
    }
    sort_by_name(acc)
}

} // verus!
