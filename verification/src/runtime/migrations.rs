//! Which schema migrations of the drone's database still have to run:
//! every known migration, in version order, that the `_migrations` table
//! does not record yet.

use vstd::prelude::*;

verus! {

/// The versions of `known`, in order, that `applied` does not hold.
pub open spec fn pending(known: Seq<u32>, applied: Seq<u32>) -> Seq<u32>
    decreases known.len(),
{
    if known.len() == 0 {
        Seq::empty()
    } else if applied.contains(known.last()) {
        pending(known.drop_last(), applied)
    } else {
        pending(known.drop_last(), applied).push(known.last())
    }
}

fn contains_version(applied: &[u32], v: u32) -> (r: bool)
    ensures
        r == applied@.contains(v),
{
    let mut i: usize = 0;
    while i < applied.len()
        invariant
            i <= applied@.len(),
            forall|j: int| 0 <= j < i ==> applied@[j] != v,
        decreases applied@.len() - i,
    {
        if applied[i] == v {
            proof {
                assert(applied@[i as int] == v);
            }
            return true;
        }
        i = i + 1;
    }
    false
}

/// The migrations to run, in the order `known` lists them: those whose
/// version `applied` does not record.
pub fn pending_migrations(known: &[u32], applied: &[u32]) -> (r: Vec<u32>)
    ensures
        r@ == pending(known@, applied@),
{
    let mut out: Vec<u32> = Vec::new();
    let mut i: usize = 0;
    while i < known.len()
        invariant
            i <= known@.len(),
            out@ == pending(known@.subrange(0, i as int), applied@),
        decreases known@.len() - i,
    {
        proof {
            assert(known@.subrange(0, i + 1).drop_last() =~= known@.subrange(0, i as int));
        }
        let v = known[i];
        if !contains_version(applied, v) {
            out.push(v);
        }
        i = i + 1;
    }
    proof {
        assert(known@.subrange(0, known@.len() as int) =~= known@);
    }
    out
}

proof fn lemma_pending_sub(known: Seq<u32>, applied: Seq<u32>, v: u32)
    ensures
        pending(known, applied).contains(v) ==> known.contains(v) && !applied.contains(v),
    decreases known.len(),
{
    if known.len() > 0 {
        lemma_pending_sub(known.drop_last(), applied, v);
        let p = pending(known.drop_last(), applied);
        if pending(known, applied).contains(v) {
            if p.contains(v) {
                let k = choose|k: int| 0 <= k < known.drop_last().len() && known.drop_last()[k] == v;
                assert(known[k] == v);
            } else {
                vstd::seq_lib::lemma_seq_contains_after_push(p, known.last(), v);
                assert(known[known.len() - 1] == v);
            }
        }
    }
}

proof fn lemma_pending_all_applied(known: Seq<u32>, applied: Seq<u32>)
    requires
        forall|j: int| 0 <= j < known.len() ==> applied.contains(#[trigger] known[j]),
    ensures
        pending(known, applied) == Seq::<u32>::empty(),
    decreases known.len(),
{
    if known.len() > 0 {
        assert(applied.contains(known[known.len() - 1]));
        let d = known.drop_last();
        assert forall|j: int| 0 <= j < d.len() implies applied.contains(#[trigger] d[j]) by {
            assert(d[j] == known[j]);
        }
        lemma_pending_all_applied(d, applied);
    }
}

/// Running the pending migrations and recording them makes the next run
/// a no-op: once the pending versions join the applied ones, nothing is
/// pending.
pub proof fn lemma_migrations_idempotent(known: Seq<u32>, applied: Seq<u32>)
    ensures
        pending(known, applied + pending(known, applied)) == Seq::<u32>::empty(),
{
    let all = applied + pending(known, applied);
    assert forall|j: int| 0 <= j < known.len() implies all.contains(#[trigger] known[j]) by {
        let v = known[j];
        if applied.contains(v) {
            let k = choose|k: int| 0 <= k < applied.len() && applied[k] == v;
            assert(all[k] == v);
        } else {
            lemma_pending_keeps(known, applied, j);
            let p = pending(known, applied);
            let k = choose|k: int| 0 <= k < p.len() && p[k] == v;
            assert(all[applied.len() + k] == v);
        }
    }
    lemma_pending_all_applied(known, all);
}

proof fn lemma_pending_keeps(known: Seq<u32>, applied: Seq<u32>, j: int)
    requires
        0 <= j < known.len(),
        !applied.contains(known[j]),
    ensures
        pending(known, applied).contains(known[j]),
    decreases known.len(),
{
    let p = pending(known.drop_last(), applied);
    if j == known.len() - 1 {
        vstd::seq_lib::lemma_seq_contains_after_push(p, known.last(), known[j]);
    } else {
        assert(known.drop_last()[j] == known[j]);
        lemma_pending_keeps(known.drop_last(), applied, j);
        if !applied.contains(known.last()) {
            vstd::seq_lib::lemma_seq_contains_after_push(p, known.last(), known[j]);
        }
    }
}

/// Every pending migration is a known one that has not been applied.
pub proof fn lemma_pending_are_unapplied(known: Seq<u32>, applied: Seq<u32>, v: u32)
    requires
        pending(known, applied).contains(v),
    ensures
        known.contains(v),
        !applied.contains(v),
{
    lemma_pending_sub(known, applied, v);
}

} // verus!
