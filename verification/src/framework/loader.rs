//! What loading a parsed framework leads to: the audit records to write,
//! the gap events to emit, and whether the load succeeds. The caller
//! performs the writes and emissions in the order given.

use vstd::prelude::*;

use crate::audit::entry::{
    framework_loaded, gap_detected, is_count_detail, is_text_detail, recorded_session, AuditEntry,
    AuditEntryKind,
};
use crate::framework::model::Framework;
use crate::framework::walker::{framework_gaps, gap_views, renders, walk, GapEvent, GapKind, GapSource, GapView};

verus! {

/// The audit-log name of a gap kind.
pub open spec fn gap_kind_text(kind: GapKind) -> Seq<char> {
    match kind {
        GapKind::Tool => "tool_missing"@,
        GapKind::Skill => "skill_missing"@,
        GapKind::Mcp => "mcp_missing"@,
        GapKind::Agent => "agent_missing"@,
    }
}

/// The audit-log name of a gap kind: `tool_missing`, `skill_missing`,
/// `mcp_missing` or `agent_missing`.
pub fn gap_kind_str(kind: GapKind) -> (r: &'static str)
    ensures
        r@ == gap_kind_text(kind),
{
    match kind {
        GapKind::Tool => "tool_missing",
        GapKind::Skill => "skill_missing",
        GapKind::Mcp => "mcp_missing",
        GapKind::Agent => "agent_missing",
    }
}

/// How a load ends.
#[derive(Clone, Copy, Debug, PartialEq, Eq, Structural)]
pub enum LoadVerdict {
    /// Every reference resolved.
    Loaded,
    /// Some references did not resolve.
    GapsFound {
        /// How many gaps were found.
        count: usize,
    },
}

/// The effects of loading a framework, in the order they happen.
#[derive(Debug)]
pub struct LoadPlan {
    /// Audit records to write.
    pub audit: Vec<AuditEntry>,
    /// Gap events to emit, one per gap.
    pub events: Vec<GapEvent>,
    /// How the load ends.
    pub verdict: LoadVerdict,
}

/// `e` is the `gap_detected` record of gap `g` in `session`, as the
/// loader writes it.
pub open spec fn records_gap(e: AuditEntry, session: Seq<char>, g: GapView) -> bool {
    &&& e.kind == AuditEntryKind::GapDetected
    &&& e.session_id@ == recorded_session(session)
    &&& e.details@.len() == 4
    &&& is_text_detail(e.details@[0], "agent_id"@, g.agent_id)
    &&& is_text_detail(e.details@[1], "gap_kind"@, gap_kind_text(g.kind))
    &&& is_text_detail(e.details@[2], "missing_name"@, g.missing_name)
    &&& is_text_detail(e.details@[3], "requested_via"@, "loader"@)
}

/// Decides what loading `framework` does. With no gaps: one
/// `framework_loaded` record (name and agent count) and no events. With
/// gaps: per gap, in order, a `gap_detected` record and a loader gap
/// event; the load then fails with the gap count.
pub fn plan_load(session_id: &str, framework: &Framework) -> (r: LoadPlan)
    ensures
        framework_gaps(*framework).len() == 0 ==> {
            &&& r.verdict == LoadVerdict::Loaded
            &&& r.events@.len() == 0
            &&& r.audit@.len() == 1
            &&& r.audit@[0].kind == AuditEntryKind::FrameworkLoaded
            &&& r.audit@[0].session_id@ == recorded_session(session_id@)
            &&& r.audit@[0].details@.len() == 2
            &&& is_text_detail(r.audit@[0].details@[0], "framework_name"@, framework.name@)
            &&& is_count_detail(
                r.audit@[0].details@[1],
                "agent_count"@,
                framework.agents@.len() as u64,
            )
        },
        framework_gaps(*framework).len() > 0 ==> {
            &&& r.verdict == LoadVerdict::GapsFound { count: framework_gaps(*framework).len() as usize }
            &&& r.audit@.len() == framework_gaps(*framework).len()
            &&& r.events@.len() == framework_gaps(*framework).len()
            &&& forall|i: int|
                0 <= i < r.audit@.len() ==> records_gap(
                    #[trigger] r.audit@[i],
                    session_id@,
                    framework_gaps(*framework)[i],
                )
            &&& forall|i: int|
                0 <= i < r.events@.len() ==> renders(
                    framework_gaps(*framework)[i],
                    GapSource::Loader,
                    #[trigger] r.events@[i],
                )
        },
{
    let gaps = walk(framework);
    let mut audit: Vec<AuditEntry> = Vec::new();
    let mut events: Vec<GapEvent> = Vec::new();
    if gaps.len() == 0 {
        audit.push(framework_loaded(session_id, framework.name.as_str(), framework.agents.len()));
        return LoadPlan { audit, events, verdict: LoadVerdict::Loaded };
    }
    let mut i: usize = 0;
    while i < gaps.len()
        invariant
            i <= gaps@.len(),
            gap_views(gaps@) == framework_gaps(*framework),
            audit@.len() == i,
            events@.len() == i,
            forall|j: int|
                0 <= j < i ==> records_gap(#[trigger] audit@[j], session_id@, gap_views(gaps@)[j]),
            forall|j: int|
                0 <= j < i ==> renders(gap_views(gaps@)[j], GapSource::Loader, #[trigger] events@[j]),
        decreases gaps@.len() - i,
    {
        let g = &gaps[i];
        let e = gap_detected(
            session_id,
            g.agent_id.as_str(),
            gap_kind_str(g.kind),
            g.missing_name.as_str(),
            "loader",
        );
        audit.push(e);
        events.push(g.to_event(GapSource::Loader));
        i = i + 1;
    }
    LoadPlan { audit, events, verdict: LoadVerdict::GapsFound { count: gaps.len() } }
}

} // verus!
