//! The budget thresholds and which of them fire when spend reaches a
//! given percentage of the tightest cap. Each threshold fires at most
//! once per cap until the record is reset.

use vstd::prelude::*;

verus! {

/// A budget threshold.
#[derive(Clone, Copy, Debug, PartialEq, Eq, Hash, Structural)]
pub enum BudgetThreshold {
    /// `warn_at_percent` (default 50).
    Warn,
    /// `downshift_at_percent` (default 75).
    Downshift,
    /// `hitl_at_percent` (default 90).
    Suspend,
    /// `hard_stop_at_percent` (default 100).
    HardStop,
}

/// The percentages at which the thresholds fire.
#[derive(Clone, Copy, Debug, PartialEq, Eq, Structural)]
pub struct ThresholdLevels {
    /// Warn at this percent.
    pub warn_at: u32,
    /// Downshift the model at this percent.
    pub downshift_at: u32,
    /// Suspend for human review at this percent.
    pub suspend_at: u32,
    /// Stop at this percent.
    pub hard_stop_at: u32,
}

/// `value`, or `default` when none is configured.
pub open spec fn or_default(value: Option<u32>, default: u32) -> u32 {
    match value {
        Some(v) => v,
        None => default,
    }
}

impl ThresholdLevels {
    /// The configured percentages, each defaulting as documented:
    /// 50 / 75 / 90 / 100.
    pub fn new(
        warn_at: Option<u32>,
        downshift_at: Option<u32>,
        suspend_at: Option<u32>,
        hard_stop_at: Option<u32>,
    ) -> (r: Self)
        ensures
            r.warn_at == or_default(warn_at, 50),
            r.downshift_at == or_default(downshift_at, 75),
            r.suspend_at == or_default(suspend_at, 90),
            r.hard_stop_at == or_default(hard_stop_at, 100),
    {
        ThresholdLevels {
            warn_at: match warn_at {
                Some(v) => v,
                None => 50,
            },
            downshift_at: match downshift_at {
                Some(v) => v,
                None => 75,
            },
            suspend_at: match suspend_at {
                Some(v) => v,
                None => 90,
            },
            hard_stop_at: match hard_stop_at {
                Some(v) => v,
                None => 100,
            },
        }
    }

    /// The percentage a threshold fires at.
    pub fn level(&self, t: BudgetThreshold) -> (r: u32)
        ensures
            r == level_of(*self, t),
    {
        match t {
            BudgetThreshold::Warn => self.warn_at,
            BudgetThreshold::Downshift => self.downshift_at,
            BudgetThreshold::Suspend => self.suspend_at,
            BudgetThreshold::HardStop => self.hard_stop_at,
        }
    }
}

/// The percentage a threshold fires at.
pub open spec fn level_of(l: ThresholdLevels, t: BudgetThreshold) -> u32 {
    match t {
        BudgetThreshold::Warn => l.warn_at,
        BudgetThreshold::Downshift => l.downshift_at,
        BudgetThreshold::Suspend => l.suspend_at,
        BudgetThreshold::HardStop => l.hard_stop_at,
    }
}

/// Does threshold `t` fire at `percent` of the cap keyed `key`, given
/// the thresholds already fired?
pub open spec fn fires(
    l: ThresholdLevels,
    percent: u32,
    key: i64,
    fired: Set<(i64, BudgetThreshold)>,
    t: BudgetThreshold,
) -> bool {
    percent >= level_of(l, t) && !fired.contains((key, t))
}

/// `t` when it fires, else nothing.
pub open spec fn fired_step(
    l: ThresholdLevels,
    percent: u32,
    key: i64,
    fired: Set<(i64, BudgetThreshold)>,
    t: BudgetThreshold,
) -> Seq<BudgetThreshold> {
    if fires(l, percent, key, fired, t) {
        seq![t]
    } else {
        Seq::empty()
    }
}

/// The thresholds that fire, in order warn, downshift, suspend, hard stop.
pub open spec fn crossed(
    l: ThresholdLevels,
    percent: u32,
    key: i64,
    fired: Set<(i64, BudgetThreshold)>,
) -> Seq<BudgetThreshold> {
    fired_step(l, percent, key, fired, BudgetThreshold::Warn) + fired_step(
        l,
        percent,
        key,
        fired,
        BudgetThreshold::Downshift,
    ) + fired_step(l, percent, key, fired, BudgetThreshold::Suspend) + fired_step(
        l,
        percent,
        key,
        fired,
        BudgetThreshold::HardStop,
    )
}

/// The fired record after a crossing: the thresholds that fired are
/// added under the cap's key.
pub open spec fn fired_after(
    l: ThresholdLevels,
    percent: u32,
    key: i64,
    fired: Set<(i64, BudgetThreshold)>,
) -> Set<(i64, BudgetThreshold)> {
    fired.union(Set::new(|x: (i64, BudgetThreshold)| x.0 == key && fires(l, percent, key, fired, x.1)))
}

/// Which thresholds have fired, per cap (keyed by the cap in integer
/// micro-cents).
pub struct FiredThresholds {
    fired: Vec<(i64, BudgetThreshold)>,
}

impl FiredThresholds {
    /// The fired (cap key, threshold) pairs.
    pub closed spec fn fired_set(&self) -> Set<(i64, BudgetThreshold)> {
        self.fired@.to_set()
    }

    /// No pair is recorded twice.
    pub closed spec fn well_formed(&self) -> bool {
        self.fired@.no_duplicates()
    }

    /// Nothing has fired.
    pub fn new() -> (r: Self)
        ensures
            r.well_formed(),
            r.fired_set() == Set::<(i64, BudgetThreshold)>::empty(),
    {
        let r = FiredThresholds { fired: Vec::new() };
        proof {
            assert(r.fired@.to_set() =~= Set::<(i64, BudgetThreshold)>::empty());
        }
        r
    }

    fn contains(&self, key: i64, t: BudgetThreshold) -> (r: bool)
        ensures
            r == self.fired_set().contains((key, t)),
    {
        let mut i: usize = 0;
        while i < self.fired.len()
            invariant
                i <= self.fired@.len(),
                forall|j: int| 0 <= j < i ==> self.fired@[j] != (key, t),
            decreases self.fired@.len() - i,
        {
            let (k, u) = self.fired[i];
            if k == key && u == t {
                proof {
                    assert(self.fired@.to_set().contains(self.fired@[i as int]));
                }
                return true;
            }
            i = i + 1;
        }
        proof {
            if self.fired@.to_set().contains((key, t)) {
                assert(self.fired@.contains((key, t)));
            }
        }
        false
    }

    fn fire(&mut self, key: i64, t: BudgetThreshold, percent: u32, at: u32, out: &mut Vec<
        BudgetThreshold,
    >)
        requires
            old(self).well_formed(),
        ensures
            final(self).well_formed(),
            (percent >= at && !old(self).fired_set().contains((key, t))) ==> {
                &&& final(self).fired_set() == old(self).fired_set().insert((key, t))
                &&& final(out)@ == old(out)@.push(t)
            },
            !(percent >= at && !old(self).fired_set().contains((key, t))) ==> {
                &&& final(self).fired_set() == old(self).fired_set()
                &&& final(out)@ == old(out)@
            },
    {
        if percent >= at && !self.contains(key, t) {
            let ghost before = self.fired@;
            self.fired.push((key, t));
            proof {
                assert forall|x: (i64, BudgetThreshold)|
                    #[trigger] self.fired@.to_set().contains(x) <==> before.to_set().insert(
                        (key, t),
                    ).contains(x) by {
                    vstd::seq_lib::lemma_seq_contains_after_push(before, (key, t), x);
                }
                assert(self.fired@.to_set() =~= before.to_set().insert((key, t)));
                assert forall|i: int, j: int|
                    0 <= i < self.fired@.len() && 0 <= j < self.fired@.len() && i != j implies self.fired@[i]
                    != self.fired@[j] by {
                    if i == before.len() as int {
                        assert(before.to_set().contains(before[j]));
                    } else if j == before.len() as int {
                        assert(before.to_set().contains(before[i]));
                    }
                }
            }
            out.push(t);
        }
    }

    /// Records the thresholds that fire at `percent` of the cap keyed
    /// `key` and returns them in order warn, downshift, suspend, hard
    /// stop. A threshold already fired for this cap does not fire again.
    pub fn record_crossing(&mut self, levels: &ThresholdLevels, percent: u32, key: i64) -> (r: Vec<
        BudgetThreshold,
    >)
        requires
            old(self).well_formed(),
        ensures
            final(self).well_formed(),
            r@ == crossed(*levels, percent, key, old(self).fired_set()),
            final(self).fired_set() == fired_after(*levels, percent, key, old(self).fired_set()),
    {
        let ghost f = self.fired_set();
        let mut out: Vec<BudgetThreshold> = Vec::new();
        self.fire(key, BudgetThreshold::Warn, percent, levels.warn_at, &mut out);
        self.fire(key, BudgetThreshold::Downshift, percent, levels.downshift_at, &mut out);
        self.fire(key, BudgetThreshold::Suspend, percent, levels.suspend_at, &mut out);
        self.fire(key, BudgetThreshold::HardStop, percent, levels.hard_stop_at, &mut out);
        proof {
            assert(out@ =~= crossed(*levels, percent, key, f));
            assert(self.fired_set() =~= fired_after(*levels, percent, key, f));
        }
        out
    }

    /// Forgets every fired threshold.
    pub fn reset(&mut self)
        ensures
            final(self).well_formed(),
            final(self).fired_set() == Set::<(i64, BudgetThreshold)>::empty(),
    {
        self.fired = Vec::new();
        proof {
            assert(self.fired@.to_set() =~= Set::<(i64, BudgetThreshold)>::empty());
        }
    }

    /// How many (cap, threshold) pairs have fired.
    pub fn fired_count(&self) -> (r: usize)
        requires
            self.well_formed(),
        ensures
            r == self.fired_set().len(),
    {
        proof {
            self.fired@.unique_seq_to_set();
        }
        self.fired.len()
    }
}

/// Recording the same crossing twice fires nothing the second time.
pub proof fn lemma_crossing_is_idempotent(
    levels: ThresholdLevels,
    percent: u32,
    key: i64,
    fired: Set<(i64, BudgetThreshold)>,
)
    ensures
        crossed(levels, percent, key, fired_after(levels, percent, key, fired)) == Seq::<
            BudgetThreshold,
        >::empty(),
        fired_after(levels, percent, key, fired_after(levels, percent, key, fired)) == fired_after(
            levels,
            percent,
            key,
            fired,
        ),
{
    let g = fired_after(levels, percent, key, fired);
    assert(!fires(levels, percent, key, g, BudgetThreshold::Warn)) by {
        if percent >= level_of(levels, BudgetThreshold::Warn) && !fired.contains((key, BudgetThreshold::Warn)) {
            assert(g.contains((key, BudgetThreshold::Warn)));
        }
    }
    assert(!fires(levels, percent, key, g, BudgetThreshold::Downshift)) by {
        if percent >= level_of(levels, BudgetThreshold::Downshift) && !fired.contains((key, BudgetThreshold::Downshift)) {
            assert(g.contains((key, BudgetThreshold::Downshift)));
        }
    }
    assert(!fires(levels, percent, key, g, BudgetThreshold::Suspend)) by {
        if percent >= level_of(levels, BudgetThreshold::Suspend) && !fired.contains((key, BudgetThreshold::Suspend)) {
            assert(g.contains((key, BudgetThreshold::Suspend)));
        }
    }
    assert(!fires(levels, percent, key, g, BudgetThreshold::HardStop)) by {
        if percent >= level_of(levels, BudgetThreshold::HardStop) && !fired.contains((key, BudgetThreshold::HardStop)) {
            assert(g.contains((key, BudgetThreshold::HardStop)));
        }
    }
    assert(crossed(levels, percent, key, g) =~= Seq::<BudgetThreshold>::empty());
    assert(fired_after(levels, percent, key, g) =~= g);
}

/// A threshold fires for a cap at most once until the record is reset:
/// once a crossing has fired it, no later crossing of that cap fires it
/// again, whatever the percentage.
pub proof fn lemma_threshold_fires_once(
    levels: ThresholdLevels,
    p1: u32,
    p2: u32,
    key: i64,
    fired: Set<(i64, BudgetThreshold)>,
    t: BudgetThreshold,
)
    requires
        crossed(levels, p1, key, fired).contains(t),
    ensures
        !crossed(levels, p2, key, fired_after(levels, p1, key, fired)).contains(t),
{
    let g = fired_after(levels, p1, key, fired);
    assert(fires(levels, p1, key, fired, t)) by {
        let c = crossed(levels, p1, key, fired);
        let i = choose|i: int| 0 <= i < c.len() && c[i] == t;
        assert(c == fired_step(levels, p1, key, fired, BudgetThreshold::Warn) + fired_step(
            levels,
            p1,
            key,
            fired,
            BudgetThreshold::Downshift,
        ) + fired_step(levels, p1, key, fired, BudgetThreshold::Suspend) + fired_step(
            levels,
            p1,
            key,
            fired,
            BudgetThreshold::HardStop,
        ));
    }
    assert(g.contains((key, t)));
    let c2 = crossed(levels, p2, key, g);
    if c2.contains(t) {
        let i = choose|i: int| 0 <= i < c2.len() && c2[i] == t;
        assert(false);
    }
}

proof fn lemma_crossed_contains(
    levels: ThresholdLevels,
    percent: u32,
    key: i64,
    fired: Set<(i64, BudgetThreshold)>,
    t: BudgetThreshold,
)
    ensures
        crossed(levels, percent, key, fired).contains(t) <==> fires(levels, percent, key, fired, t),
{
    let s1 = fired_step(levels, percent, key, fired, BudgetThreshold::Warn);
    let s2 = fired_step(levels, percent, key, fired, BudgetThreshold::Downshift);
    let s3 = fired_step(levels, percent, key, fired, BudgetThreshold::Suspend);
    let s4 = fired_step(levels, percent, key, fired, BudgetThreshold::HardStop);
    let c = crossed(levels, percent, key, fired);
    assert(c == s1 + s2 + s3 + s4);
    if fires(levels, percent, key, fired, t) {
        let at: int = match t {
            BudgetThreshold::Warn => 0,
            BudgetThreshold::Downshift => s1.len() as int,
            BudgetThreshold::Suspend => (s1.len() + s2.len()) as int,
            BudgetThreshold::HardStop => (s1.len() + s2.len() + s3.len()) as int,
        };
        assert(c[at] == t);
    }
    if c.contains(t) {
        let j = choose|j: int| 0 <= j < c.len() && c[j] == t;
        if j < s1.len() {
            assert(c[j] == s1[j]);
        } else if j < s1.len() + s2.len() {
            assert(c[j] == s2[j - s1.len()]);
        } else if j < s1.len() + s2.len() + s3.len() {
            assert(c[j] == s3[j - s1.len() - s2.len()]);
        } else {
            assert(c[j] == s4[j - s1.len() - s2.len() - s3.len()]);
        }
    }
}

/// Each threshold is compared with its own configured level: a crossing
/// at `percent` fires warn exactly when `percent` reaches `warn_at`,
/// downshift when it reaches `downshift_at`, suspend when it reaches
/// `suspend_at` and hard stop when it reaches `hard_stop_at`, each only
/// if it has not fired for this cap yet. With the default levels a
/// crossing at 95% fires warn, downshift and suspend but not hard stop.
pub proof fn lemma_each_threshold_uses_its_own_level(
    levels: ThresholdLevels,
    percent: u32,
    key: i64,
    fired: Set<(i64, BudgetThreshold)>,
)
    ensures
        crossed(levels, percent, key, fired).contains(BudgetThreshold::Warn) <==> percent
            >= levels.warn_at && !fired.contains((key, BudgetThreshold::Warn)),
        crossed(levels, percent, key, fired).contains(BudgetThreshold::Downshift) <==> percent
            >= levels.downshift_at && !fired.contains((key, BudgetThreshold::Downshift)),
        crossed(levels, percent, key, fired).contains(BudgetThreshold::Suspend) <==> percent
            >= levels.suspend_at && !fired.contains((key, BudgetThreshold::Suspend)),
        crossed(levels, percent, key, fired).contains(BudgetThreshold::HardStop) <==> percent
            >= levels.hard_stop_at && !fired.contains((key, BudgetThreshold::HardStop)),
{
    lemma_crossed_contains(levels, percent, key, fired, BudgetThreshold::Warn);
    lemma_crossed_contains(levels, percent, key, fired, BudgetThreshold::Downshift);
    lemma_crossed_contains(levels, percent, key, fired, BudgetThreshold::Suspend);
    lemma_crossed_contains(levels, percent, key, fired, BudgetThreshold::HardStop);
}

/// Hard stop waits for the hard-stop level: below `hard_stop_at` no
/// crossing fires it, whatever the other levels are.
pub proof fn lemma_no_hard_stop_below_its_level(
    levels: ThresholdLevels,
    percent: u32,
    key: i64,
    fired: Set<(i64, BudgetThreshold)>,
)
    requires
        percent < levels.hard_stop_at,
    ensures
        !crossed(levels, percent, key, fired).contains(BudgetThreshold::HardStop),
        !fired_after(levels, percent, key, fired).contains((key, BudgetThreshold::HardStop))
            || fired.contains((key, BudgetThreshold::HardStop)),
{
    lemma_crossed_contains(levels, percent, key, fired, BudgetThreshold::HardStop);
}

} // verus!
