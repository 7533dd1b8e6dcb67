//! The tester's pure core: folding a test session's event trace into its
//! verdict, the imported artifacts its integrity pre-flight byte-loads,
//! and the built-in tools its agent configuration advertises.

use vstd::prelude::*;

use std::time::Duration;

use crate::capability::types::CapabilityKind;
use crate::framework::model::{Framework, FrameworkAgentsItem, FrameworkSkillsItem, FrameworkToolsItem};
use crate::text::{owned, push_str, str_eq, strs};

verus! {

/// The events of a test session's trace the verdict depends on.
#[derive(Clone, Debug)]
pub enum TraceEvent {
    /// A capability the agent lacked was requested.
    CapabilityViolation {
        /// The agent that made the request.
        agent_id: String,
        /// The capability kind it needed.
        capability_kind: CapabilityKind,
        /// The scope the agent had declared.
        declared_scope: String,
        /// What it tried to do.
        requested_action: String,
    },
    /// Tokens one model turn consumed.
    TokenUsage {
        /// Input tokens.
        input: u64,
        /// Output tokens.
        output: u64,
    },
    /// An imported artifact's bytes drifted from its lock entry.
    ArtifactHashMismatch {
        /// The drifted artifact.
        artifact_ref: String,
    },
    /// Any other event.
    Other,
}

/// One capability violation, reported as a test failure.
#[derive(Clone, Debug)]
pub struct CapabilityFailure {
    /// The agent that attempted the denied action.
    pub agent_id: String,
    /// The capability that was missing (`read`, `write`, `exec`,
    /// `network`, `process_spawn`).
    pub needed: String,
    /// What was requested against what was declared.
    pub reason: String,
}

/// Token in / out / total of a test run.
#[derive(Clone, Copy, Debug, PartialEq, Eq, Structural)]
pub struct TokenSpend {
    /// Input tokens summed over the run.
    pub input: u64,
    /// Output tokens summed over the run.
    pub output: u64,
    /// `input + output`.
    pub total: u64,
}

/// The result of a test run: whether it passed, its capability failures,
/// its token spend, how long it took, and the full ordered trace.
#[derive(Debug)]
pub struct TestOutcome {
    /// No capability failure and no integrity block.
    pub passed: bool,
    /// One entry per capability violation, in trace order.
    pub capability_failures: Vec<CapabilityFailure>,
    /// Tokens spent over the run.
    pub token_spend: TokenSpend,
    /// Wall-clock duration of the test session.
    pub timing: Duration,
    /// The full ordered event trace.
    pub trace: Vec<TraceEvent>,
}

/// Infrastructure failure of the tester itself; a failed test is not
/// one of these.
#[derive(Clone, Debug)]
pub enum TesterError {
    /// The throwaway test database could not be set up; carries the
    /// cause.
    DbSetup(String),
    /// The test session's drone failed to spawn or connect.
    Drone(String),
    /// The session run failed for a reason other than a capability.
    Run(String),
}

impl TesterError {
    /// The error's message, e.g. `test session run failed: <cause>`.
    pub fn message(&self) -> (r: String)
        ensures
            r@ == match *self {
                TesterError::DbSetup(c) => "test database setup failed: "@ + c@,
                TesterError::Drone(c) => "test-session drone failed: "@ + c@,
                TesterError::Run(c) => "test session run failed: "@ + c@,
            },
    {
        match self {
            TesterError::DbSetup(c) => crate::text::concat("test database setup failed: ", c.as_str()),
            TesterError::Drone(c) => crate::text::concat("test-session drone failed: ", c.as_str()),
            TesterError::Run(c) => crate::text::concat("test session run failed: ", c.as_str()),
        }
    }
}

/// The label a failure reports for a capability kind.
pub open spec fn kind_label(kind: CapabilityKind) -> Seq<char> {
    match kind {
        CapabilityKind::Read => "read"@,
        CapabilityKind::Write => "write"@,
        CapabilityKind::Exec => "exec"@,
        CapabilityKind::Network => "network"@,
        CapabilityKind::ProcessSpawn => "process_spawn"@,
    }
}

/// The snake_case label of a capability kind.
pub fn capability_kind_label(kind: CapabilityKind) -> (r: &'static str)
    ensures
        r@ == kind_label(kind),
{
    match kind {
        CapabilityKind::Read => "read",
        CapabilityKind::Write => "write",
        CapabilityKind::Exec => "exec",
        CapabilityKind::Network => "network",
        CapabilityKind::ProcessSpawn => "process_spawn",
    }
}

/// The reason text of a violation.
pub open spec fn violation_reason(requested: Seq<char>, declared: Seq<char>) -> Seq<char> {
    "requested `"@ + requested + "` \u{2014} declared scope `"@ + declared + "`"@
}

/// The failures a trace yields: one (agent, needed, reason) per
/// violation, in order.
pub open spec fn trace_failures(trace: Seq<TraceEvent>) -> Seq<(Seq<char>, Seq<char>, Seq<char>)>
    decreases trace.len(),
{
    if trace.len() == 0 {
        Seq::empty()
    } else {
        trace_failures(trace.drop_last()) + match trace.last() {
            TraceEvent::CapabilityViolation {
                agent_id,
                capability_kind,
                declared_scope,
                requested_action,
            } => seq![
                (
                    agent_id@,
                    kind_label(capability_kind),
                    violation_reason(requested_action@, declared_scope@),
                ),
            ],
            _ => Seq::empty(),
        }
    }
}

/// Input tokens summed over a trace.
pub open spec fn input_sum(trace: Seq<TraceEvent>) -> nat
    decreases trace.len(),
{
    if trace.len() == 0 {
        0
    } else {
        input_sum(trace.drop_last()) + match trace.last() {
            TraceEvent::TokenUsage { input, .. } => input as nat,
            _ => 0,
        }
    }
}

/// Output tokens summed over a trace.
pub open spec fn output_sum(trace: Seq<TraceEvent>) -> nat
    decreases trace.len(),
{
    if trace.len() == 0 {
        0
    } else {
        output_sum(trace.drop_last()) + match trace.last() {
            TraceEvent::TokenUsage { output, .. } => output as nat,
            _ => 0,
        }
    }
}

/// Does the trace hold an integrity block?
pub open spec fn has_hash_mismatch(trace: Seq<TraceEvent>) -> bool {
    exists|i: int| 0 <= i < trace.len() && trace[i] is ArtifactHashMismatch
}

/// The (agent, needed, reason) triple of a failure.
pub open spec fn failure_view(f: CapabilityFailure) -> (Seq<char>, Seq<char>, Seq<char>) {
    (f.agent_id@, f.needed@, f.reason@)
}

proof fn lemma_sums_grow(trace: Seq<TraceEvent>, i: int)
    requires
        0 <= i <= trace.len(),
    ensures
        input_sum(trace.subrange(0, i)) <= input_sum(trace),
        output_sum(trace.subrange(0, i)) <= output_sum(trace),
    decreases trace.len() - i,
{
    if i < trace.len() {
        lemma_sums_grow(trace, i + 1);
        assert(trace.subrange(0, i + 1).drop_last() =~= trace.subrange(0, i));
    } else {
        assert(trace.subrange(0, i) =~= trace);
    }
}

/// Folds a test session's trace into its outcome: every capability
/// violation becomes a failure, token usage is summed, and any failure or
/// integrity block fails the test. The outcome carries the timing and
/// the trace as given.
pub fn fold_outcome(trace: Vec<TraceEvent>, timing: Duration) -> (r: TestOutcome)
    requires
        input_sum(trace@) + output_sum(trace@) <= u64::MAX,
    ensures
        r.capability_failures@.map_values(|f: CapabilityFailure| failure_view(f)) == trace_failures(
            trace@,
        ),
        r.token_spend.input == input_sum(trace@),
        r.token_spend.output == output_sum(trace@),
        r.token_spend.total == input_sum(trace@) + output_sum(trace@),
        r.passed == (trace_failures(trace@).len() == 0 && !has_hash_mismatch(trace@)),
        r.timing == timing,
        r.trace@ == trace@,
{
    let mut failures: Vec<CapabilityFailure> = Vec::new();
    let mut input: u64 = 0;
    let mut output: u64 = 0;
    let mut blocked = false;
    let mut i: usize = 0;
    while i < trace.len()
        invariant
            i <= trace@.len(),
            input_sum(trace@) + output_sum(trace@) <= u64::MAX,
            failures@.map_values(|f: CapabilityFailure| failure_view(f)) == trace_failures(
                trace@.subrange(0, i as int),
            ),
            input == input_sum(trace@.subrange(0, i as int)),
            output == output_sum(trace@.subrange(0, i as int)),
            blocked == exists|j: int| 0 <= j < i && trace@[j] is ArtifactHashMismatch,
        decreases trace@.len() - i,
    {
        let ghost prefix = trace@.subrange(0, i + 1);
        proof {
            assert(prefix.drop_last() =~= trace@.subrange(0, i as int));
            lemma_sums_grow(trace@, i + 1);
        }
        match &trace[i] {
            TraceEvent::CapabilityViolation {
                agent_id,
                capability_kind,
                declared_scope,
                requested_action,
            } => {
                let mut reason = owned("requested `");
                push_str(&mut reason, requested_action.as_str());
                push_str(&mut reason, "` \u{2014} declared scope `");
                push_str(&mut reason, declared_scope.as_str());
                push_str(&mut reason, "`");
                let f = CapabilityFailure {
                    agent_id: owned(agent_id.as_str()),
                    needed: owned(capability_kind_label(*capability_kind)),
                    reason,
                };
                failures.push(f);
            },
            TraceEvent::TokenUsage { input: n_in, output: n_out } => {
                input = input + *n_in;
                output = output + *n_out;
            },
            TraceEvent::ArtifactHashMismatch { .. } => {
                blocked = true;
            },
            TraceEvent::Other => {},
        }
        i = i + 1;
        proof {
            assert(failures@.map_values(|f: CapabilityFailure| failure_view(f)) =~= trace_failures(
                trace@.subrange(0, i as int),
            ));
        }
    }
    proof {
        assert(trace@.subrange(0, trace@.len() as int) =~= trace@);
    }
    let passed = failures.len() == 0 && !blocked;
    TestOutcome {
        passed,
        capability_failures: failures,
        token_spend: TokenSpend { input, output, total: input + output },
        timing,
        trace,
    }
}

/// `(name, path)` of every skill that names a path, in order.
pub open spec fn skill_refs(skills: Seq<FrameworkSkillsItem>) -> Seq<(Seq<char>, Seq<char>)>
    decreases skills.len(),
{
    if skills.len() == 0 {
        Seq::empty()
    } else {
        skill_refs(skills.drop_last()) + match skills.last().path {
            Some(p) => seq![(skills.last().name@, p@)],
            None => Seq::empty(),
        }
    }
}

/// `(name, path)` of every tool that names a path, in order.
pub open spec fn tool_refs(tools: Seq<FrameworkToolsItem>) -> Seq<(Seq<char>, Seq<char>)>
    decreases tools.len(),
{
    if tools.len() == 0 {
        Seq::empty()
    } else {
        tool_refs(tools.drop_last()) + match tools.last().path {
            Some(p) => seq![(tools.last().name@, p@)],
            None => Seq::empty(),
        }
    }
}

/// The views of a list of string pairs.
pub open spec fn pair_views(v: Seq<(String, String)>) -> Seq<(Seq<char>, Seq<char>)> {
    v.map_values(|p: (String, String)| (p.0@, p.1@))
}

/// The framework's imported artifacts that carry a path, as `(name,
/// path)`: its skills first, then its tools, each in declaration order.
pub fn imported_artifact_refs(framework: &Framework) -> (r: Vec<(String, String)>)
    ensures
        pair_views(r@) == skill_refs(framework.skills@) + tool_refs(framework.tools@),
{
    let mut out: Vec<(String, String)> = Vec::new();
    let mut i: usize = 0;
    while i < framework.skills.len()
        invariant
            i <= framework.skills@.len(),
            pair_views(out@) == skill_refs(framework.skills@.subrange(0, i as int)),
        decreases framework.skills@.len() - i,
    {
        proof {
            assert(framework.skills@.subrange(0, i + 1).drop_last() =~= framework.skills@.subrange(
                0,
                i as int,
            ));
        }
        let s = &framework.skills[i];
        match &s.path {
            Some(p) => {
                out.push((owned(s.name.as_str()), owned(p.as_str())));
            },
            None => {},
        }
        i = i + 1;
        proof {
            assert(pair_views(out@) =~= skill_refs(framework.skills@.subrange(0, i as int)));
        }
    }
    proof {
        assert(framework.skills@.subrange(0, i as int) =~= framework.skills@);
    }
    let ghost skills_part = pair_views(out@);
    let mut k: usize = 0;
    while k < framework.tools.len()
        invariant
            k <= framework.tools@.len(),
            skills_part == skill_refs(framework.skills@),
            pair_views(out@) == skills_part + tool_refs(framework.tools@.subrange(0, k as int)),
        decreases framework.tools@.len() - k,
    {
        proof {
            assert(framework.tools@.subrange(0, k + 1).drop_last() =~= framework.tools@.subrange(
                0,
                k as int,
            ));
        }
        let t = &framework.tools[k];
        let ghost before = tool_refs(framework.tools@.subrange(0, k as int));
        let ghost step = tool_refs(framework.tools@.subrange(0, k + 1));
        proof {
            assert(step == before + match t.path {
                Some(p) => seq![(t.name@, p@)],
                None => Seq::<(Seq<char>, Seq<char>)>::empty(),
            });
        }
        let ghost old_out = out@;
        match &t.path {
            Some(p) => {
                out.push((owned(t.name.as_str()), owned(p.as_str())));
                proof {
                    assert(pair_views(out@) =~= pair_views(old_out).push((t.name@, p@)));
                    assert(skills_part + step =~= (skills_part + before).push((t.name@, p@)));
                }
            },
            None => {
                proof {
                    assert(skills_part + step =~= skills_part + before);
                }
            },
        }
        k = k + 1;
        proof {
            assert(pair_views(out@) =~= skills_part + tool_refs(
                framework.tools@.subrange(0, k as int),
            ));
        }
    }
    proof {
        assert(framework.tools@.subrange(0, k as int) =~= framework.tools@);
    }
    out
}

/// Every inline agent's allowed tools, concatenated in declaration order.
pub open spec fn allowed_tools_of(items: Seq<FrameworkAgentsItem>) -> Seq<Seq<char>>
    decreases items.len(),
{
    if items.len() == 0 {
        Seq::empty()
    } else {
        allowed_tools_of(items.drop_last()) + match items.last() {
            FrameworkAgentsItem::Agent(a) => strs(a.allowed_tools@),
            _ => Seq::empty(),
        }
    }
}

/// `s` with every repeat of an earlier element removed.
pub open spec fn dedup(s: Seq<Seq<char>>) -> Seq<Seq<char>>
    decreases s.len(),
{
    if s.len() == 0 {
        Seq::empty()
    } else if dedup(s.drop_last()).contains(s.last()) {
        dedup(s.drop_last())
    } else {
        dedup(s.drop_last()).push(s.last())
    }
}

fn contains_str(v: &Vec<String>, s: &str) -> (r: bool)
    ensures
        r == strs(v@).contains(s@),
{
    let mut i: usize = 0;
    while i < v.len()
        invariant
            i <= v@.len(),
            forall|j: int| 0 <= j < i ==> v@[j]@ != s@,
        decreases v@.len() - i,
    {
        if str_eq(v[i].as_str(), s) {
            proof {
                assert(strs(v@)[i as int] == s@);
            }
            return true;
        }
        i = i + 1;
    }
    proof {
        if strs(v@).contains(s@) {
            let j = choose|j: int| 0 <= j < strs(v@).len() && strs(v@)[j] == s@;
            assert(v@[j]@ == s@);
        }
    }
    false
}

/// The tools a test run advertises: the union of every inline agent's
/// allowed tools, each once, in the order first met.
pub fn allowed_test_tools(framework: &Framework) -> (r: Vec<String>)
    ensures
        strs(r@) == dedup(allowed_tools_of(framework.agents@)),
{
    let mut out: Vec<String> = Vec::new();
    let mut i: usize = 0;
    while i < framework.agents.len()
        invariant
            i <= framework.agents@.len(),
            strs(out@) == dedup(allowed_tools_of(framework.agents@.subrange(0, i as int))),
        decreases framework.agents@.len() - i,
    {
        let ghost before = allowed_tools_of(framework.agents@.subrange(0, i as int));
        proof {
            assert(framework.agents@.subrange(0, i + 1).drop_last() =~= framework.agents@.subrange(
                0,
                i as int,
            ));
        }
        match &framework.agents[i] {
            FrameworkAgentsItem::Agent(a) => {
                let mut k: usize = 0;
                while k < a.allowed_tools.len()
                    invariant
                        k <= a.allowed_tools@.len(),
                        strs(out@) == dedup(before + strs(a.allowed_tools@).subrange(0, k as int)),
                    decreases a.allowed_tools@.len() - k,
                {
                    let t = a.allowed_tools[k].as_str();
                    let ghost prev = before + strs(a.allowed_tools@).subrange(0, k as int);
                    proof {
                        assert((before + strs(a.allowed_tools@).subrange(0, k + 1)).drop_last()
                            =~= prev);
                        assert((before + strs(a.allowed_tools@).subrange(0, k + 1)).last() == t@);
                    }
                    if !contains_str(&out, t) {
                        out.push(owned(t));
                    }
                    k = k + 1;
                    proof {
                        assert(strs(out@) =~= dedup(
                            before + strs(a.allowed_tools@).subrange(0, k as int),
                        ));
                    }
                }
                proof {
                    assert(strs(a.allowed_tools@).subrange(0, k as int) =~= strs(a.allowed_tools@));
                }
            },
            _ => {
                proof {
                    assert(before + Seq::<Seq<char>>::empty() =~= before);
                }
            },
        }
        i = i + 1;
    }
    proof {
        assert(framework.agents@.subrange(0, i as int) =~= framework.agents@);
    }
    out
}

} // verus!
