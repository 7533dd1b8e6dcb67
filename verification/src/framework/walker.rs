//! Layer-1 gap detection: every reference an inline agent makes to a
//! tool, skill or sub-agent that the framework does not declare.
//!
//! The walk is pure and never short-circuits: all gaps surface at once,
//! in agent order, and within an agent tools first, then skills, then
//! spawned agents.

use vstd::prelude::*;

use crate::framework::model::{
    agent_declared, has_agent, has_skill, find_tool, item_id, skill_declared, tool_declared, Agent,
    Framework, FrameworkAgentsItem,
};
use crate::text::{owned, push_str};

verus! {

/// Which primitive is missing.
#[derive(Clone, Copy, Debug, PartialEq, Eq, Structural)]
pub enum GapKind {
    /// An `allowed_tools[]` reference is unresolved.
    Tool,
    /// An `allowed_skills[]` reference is unresolved.
    Skill,
    /// An MCP server reference is unresolved (raised by capability
    /// requests only; the loader never reports it).
    Mcp,
    /// A `spawns[]` reference is unresolved.
    Agent,
}

/// Severity of a gap.
#[derive(Clone, Copy, Debug, PartialEq, Eq, Structural)]
pub enum GapSeverity {
    /// Blocks the agent from starting.
    Critical,
    /// Needs attention but does not block.
    Important,
    /// The agent continues without the primitive.
    Advisory,
}

/// Which layer detected a gap.
#[derive(Clone, Copy, Debug, PartialEq, Eq, Structural)]
pub enum GapSource {
    /// The framework loader (Layer 1).
    Loader,
    /// A `request_capability` call (Layer 2).
    RequestCapability,
}

/// One unresolved reference.
#[derive(Clone, Debug)]
pub struct Gap {
    /// Which primitive is missing.
    pub kind: GapKind,
    /// The agent that made the reference.
    pub agent_id: String,
    /// Name (or id) of the missing primitive.
    pub missing_name: String,
    /// Severity of the gap.
    pub severity: GapSeverity,
    /// Next step shown to the user.
    pub suggested_action: String,
}

/// A gap as plain values.
pub struct GapView {
    /// Which primitive is missing.
    pub kind: GapKind,
    /// The agent that made the reference.
    pub agent_id: Seq<char>,
    /// Name (or id) of the missing primitive.
    pub missing_name: Seq<char>,
    /// Severity of the gap.
    pub severity: GapSeverity,
    /// Next step shown to the user.
    pub suggested_action: Seq<char>,
}

impl View for Gap {
    type V = GapView;

    open spec fn view(&self) -> GapView {
        GapView {
            kind: self.kind,
            agent_id: self.agent_id@,
            missing_name: self.missing_name@,
            severity: self.severity,
            suggested_action: self.suggested_action@,
        }
    }
}

/// The gap-event payload a gap renders to.
#[derive(Debug)]
pub enum GapEvent {
    /// A tool is missing.
    ToolMissing {
        /// Referencing agent.
        agent_id: String,
        /// Missing tool.
        tool_name: String,
        /// Severity.
        severity: GapSeverity,
        /// Next step.
        suggested_action: String,
        /// Detecting layer.
        requested_via: GapSource,
    },
    /// A skill is missing.
    SkillMissing {
        /// Referencing agent.
        agent_id: String,
        /// Missing skill.
        skill_name: String,
        /// Severity.
        severity: GapSeverity,
        /// Next step.
        suggested_action: String,
        /// Detecting layer.
        requested_via: GapSource,
    },
    /// An MCP server is missing.
    McpMissing {
        /// Referencing agent.
        agent_id: String,
        /// Missing server.
        server_name: String,
        /// Severity.
        severity: GapSeverity,
        /// Next step.
        suggested_action: String,
        /// Detecting layer.
        requested_via: GapSource,
    },
    /// A sub-agent is missing.
    AgentMissing {
        /// Referencing agent.
        agent_id: String,
        /// Missing agent id.
        missing_agent_id: String,
        /// Severity.
        severity: GapSeverity,
        /// Next step.
        suggested_action: String,
        /// Detecting layer.
        requested_via: GapSource,
    },
}

/// `r` is the event payload of gap `g` detected by `source`: the variant
/// follows the gap kind and every field is carried over.
pub open spec fn renders(g: GapView, source: GapSource, r: GapEvent) -> bool {
    match g.kind {
        GapKind::Tool => r matches GapEvent::ToolMissing {
            agent_id,
            tool_name,
            severity,
            suggested_action,
            requested_via,
        } && agent_id@ == g.agent_id && tool_name@ == g.missing_name && severity
            == g.severity && suggested_action@ == g.suggested_action && requested_via
            == source,
        GapKind::Skill => r matches GapEvent::SkillMissing {
            agent_id,
            skill_name,
            severity,
            suggested_action,
            requested_via,
        } && agent_id@ == g.agent_id && skill_name@ == g.missing_name && severity
            == g.severity && suggested_action@ == g.suggested_action && requested_via
            == source,
        GapKind::Mcp => r matches GapEvent::McpMissing {
            agent_id,
            server_name,
            severity,
            suggested_action,
            requested_via,
        } && agent_id@ == g.agent_id && server_name@ == g.missing_name && severity
            == g.severity && suggested_action@ == g.suggested_action && requested_via
            == source,
        GapKind::Agent => r matches GapEvent::AgentMissing {
            agent_id,
            missing_agent_id,
            severity,
            suggested_action,
            requested_via,
        } && agent_id@ == g.agent_id && missing_agent_id@ == g.missing_name
            && severity == g.severity && suggested_action@ == g.suggested_action
            && requested_via == source,
    }
}

impl Gap {
    /// Renders this gap to its event payload, tagged with the layer that
    /// detected it. The variant follows the gap kind; every field is
    /// carried over unchanged.
    pub fn to_event(&self, source: GapSource) -> (r: GapEvent)
        ensures
            renders(self@, source, r),
    {
        match self.kind {
            GapKind::Tool => GapEvent::ToolMissing {
                agent_id: self.agent_id.clone(),
                tool_name: self.missing_name.clone(),
                severity: self.severity,
                suggested_action: self.suggested_action.clone(),
                requested_via: source,
            },
            GapKind::Skill => GapEvent::SkillMissing {
                agent_id: self.agent_id.clone(),
                skill_name: self.missing_name.clone(),
                severity: self.severity,
                suggested_action: self.suggested_action.clone(),
                requested_via: source,
            },
            GapKind::Mcp => GapEvent::McpMissing {
                agent_id: self.agent_id.clone(),
                server_name: self.missing_name.clone(),
                severity: self.severity,
                suggested_action: self.suggested_action.clone(),
                requested_via: source,
            },
            GapKind::Agent => GapEvent::AgentMissing {
                agent_id: self.agent_id.clone(),
                missing_agent_id: self.missing_name.clone(),
                severity: self.severity,
                suggested_action: self.suggested_action.clone(),
                requested_via: source,
            },
        }
    }
}

/// The message for a missing tool.
pub open spec fn tool_action(tool: Seq<char>, agent: Seq<char>) -> Seq<char> {
    "Install tool '"@ + tool + "' and click Resume; agent '"@ + agent
        + "' cannot start until it resolves."@
}

/// The message for a missing skill.
pub open spec fn skill_action(skill: Seq<char>, agent: Seq<char>) -> Seq<char> {
    "Skill '"@ + skill + "' not installed; agent '"@ + agent
        + "' continues without it — install async or dismiss."@
}

/// The message for a missing sub-agent.
pub open spec fn spawn_action(spawn: Seq<char>) -> Seq<char> {
    "Sub-agent '"@ + spawn + "' not declared in framework; fix framework JSON before reloading."@
}

/// Gaps for the unresolved tool references among `tools`.
pub open spec fn tool_gaps(fw: Framework, agent: Seq<char>, tools: Seq<String>) -> Seq<GapView>
    decreases tools.len(),
{
    if tools.len() == 0 {
        Seq::empty()
    } else {
        let t = tools.last()@;
        tool_gaps(fw, agent, tools.drop_last()) + if tool_declared(fw, t) {
            Seq::empty()
        } else {
            seq![GapView { kind: GapKind::Tool, agent_id: agent, missing_name: t, severity: GapSeverity::Critical, suggested_action: tool_action(t, agent) }]
        }
    }
}

/// Gaps for the unresolved skill references among `skills`.
pub open spec fn skill_gaps(fw: Framework, agent: Seq<char>, skills: Seq<String>) -> Seq<GapView>
    decreases skills.len(),
{
    if skills.len() == 0 {
        Seq::empty()
    } else {
        let s = skills.last()@;
        skill_gaps(fw, agent, skills.drop_last()) + if skill_declared(fw, s) {
            Seq::empty()
        } else {
            seq![GapView { kind: GapKind::Skill, agent_id: agent, missing_name: s, severity: GapSeverity::Advisory, suggested_action: skill_action(s, agent) }]
        }
    }
}

/// Gaps for the unresolved sub-agent references among `spawns`.
pub open spec fn spawn_gaps(fw: Framework, agent: Seq<char>, spawns: Seq<String>) -> Seq<GapView>
    decreases spawns.len(),
{
    if spawns.len() == 0 {
        Seq::empty()
    } else {
        let s = spawns.last()@;
        spawn_gaps(fw, agent, spawns.drop_last()) + if agent_declared(fw, s) {
            Seq::empty()
        } else {
            seq![GapView { kind: GapKind::Agent, agent_id: agent, missing_name: s, severity: GapSeverity::Critical, suggested_action: spawn_action(s) }]
        }
    }
}

/// Gaps of one `agents[]` entry: tools, then skills, then spawns, for an
/// inline agent; none for a by-reference entry.
pub open spec fn item_gaps(fw: Framework, item: FrameworkAgentsItem) -> Seq<GapView> {
    match item {
        FrameworkAgentsItem::Agent(a) => tool_gaps(fw, a.id@, a.allowed_tools@) + skill_gaps(
            fw,
            a.id@,
            a.allowed_skills@,
        ) + spawn_gaps(fw, a.id@, a.spawns@),
        FrameworkAgentsItem::Object { .. } => Seq::empty(),
    }
}

/// Gaps of the entries `items`, in order.
pub open spec fn items_gaps(fw: Framework, items: Seq<FrameworkAgentsItem>) -> Seq<GapView>
    decreases items.len(),
{
    if items.len() == 0 {
        Seq::empty()
    } else {
        items_gaps(fw, items.drop_last()) + item_gaps(fw, items.last())
    }
}

/// Every gap of the framework, in walk order.
pub open spec fn framework_gaps(fw: Framework) -> Seq<GapView> {
    items_gaps(fw, fw.agents@)
}

/// The views of a sequence of gaps.
pub open spec fn gap_views(gaps: Seq<Gap>) -> Seq<GapView> {
    gaps.map_values(|g: Gap| g@)
}

proof fn lemma_push_view(gaps: Seq<Gap>, g: Gap)
    ensures
        gap_views(gaps.push(g)) == gap_views(gaps) + seq![g@],
{
    assert(gap_views(gaps.push(g)) =~= gap_views(gaps) + seq![g@]);
}

fn push_gap(
    gaps: &mut Vec<Gap>,
    kind: GapKind,
    agent_id: &str,
    missing: &str,
    severity: GapSeverity,
    action: String,
)
    ensures
        gap_views(final(gaps)@) == gap_views(old(gaps)@) + seq![GapView { kind, agent_id: agent_id@, missing_name: missing@, severity, suggested_action: action@ }],
{
    let g = Gap {
        kind,
        agent_id: owned(agent_id),
        missing_name: owned(missing),
        severity,
        suggested_action: action,
    };
    proof {
        lemma_push_view(gaps@, g);
    }
    gaps.push(g);
}

fn tool_message(tool: &str, agent: &str) -> (r: String)
    ensures
        r@ == tool_action(tool@, agent@),
{
    let mut s = owned("Install tool '");
    push_str(&mut s, tool);
    push_str(&mut s, "' and click Resume; agent '");
    push_str(&mut s, agent);
    push_str(&mut s, "' cannot start until it resolves.");
    s
}

fn skill_message(skill: &str, agent: &str) -> (r: String)
    ensures
        r@ == skill_action(skill@, agent@),
{
    let mut s = owned("Skill '");
    push_str(&mut s, skill);
    push_str(&mut s, "' not installed; agent '");
    push_str(&mut s, agent);
    push_str(&mut s, "' continues without it — install async or dismiss.");
    s
}

fn spawn_message(spawn: &str) -> (r: String)
    ensures
        r@ == spawn_action(spawn@),
{
    let mut s = owned("Sub-agent '");
    push_str(&mut s, spawn);
    push_str(&mut s, "' not declared in framework; fix framework JSON before reloading.");
    s
}

fn walk_agent(fw: &Framework, agent: &Agent, gaps: &mut Vec<Gap>)
    ensures
        gap_views(final(gaps)@) == gap_views(old(gaps)@) + tool_gaps(
            *fw,
            agent.id@,
            agent.allowed_tools@,
        ) + skill_gaps(*fw, agent.id@, agent.allowed_skills@) + spawn_gaps(
            *fw,
            agent.id@,
            agent.spawns@,
        ),
{
    let ghost start = gap_views(gaps@);
    let id = agent.id.as_str();
    let mut k: usize = 0;
    while k < agent.allowed_tools.len()
        invariant
            k <= agent.allowed_tools@.len(),
            id@ == agent.id@,
            gap_views(gaps@) == start + tool_gaps(*fw, id@, agent.allowed_tools@.subrange(0, k as int)),
        decreases agent.allowed_tools@.len() - k,
    {
        let tool = agent.allowed_tools[k].as_str();
        proof {
            assert(agent.allowed_tools@.subrange(0, k + 1).drop_last() =~= agent.allowed_tools@.subrange(0, k as int));
        }
        if find_tool(fw, tool).is_none() {
            let msg = tool_message(tool, id);
            push_gap(gaps, GapKind::Tool, id, tool, GapSeverity::Critical, msg);
        }
        k = k + 1;
    }
    proof {
        assert(agent.allowed_tools@.subrange(0, agent.allowed_tools@.len() as int) =~= agent.allowed_tools@);
    }
    let ghost mid = gap_views(gaps@);
    let mut k: usize = 0;
    while k < agent.allowed_skills.len()
        invariant
            k <= agent.allowed_skills@.len(),
            id@ == agent.id@,
            gap_views(gaps@) == mid + skill_gaps(*fw, id@, agent.allowed_skills@.subrange(0, k as int)),
        decreases agent.allowed_skills@.len() - k,
    {
        let skill = agent.allowed_skills[k].as_str();
        proof {
            assert(agent.allowed_skills@.subrange(0, k + 1).drop_last() =~= agent.allowed_skills@.subrange(0, k as int));
        }
        if !has_skill(fw, skill) {
            let msg = skill_message(skill, id);
            push_gap(gaps, GapKind::Skill, id, skill, GapSeverity::Advisory, msg);
        }
        k = k + 1;
    }
    proof {
        assert(agent.allowed_skills@.subrange(0, agent.allowed_skills@.len() as int) =~= agent.allowed_skills@);
    }
    let ghost mid2 = gap_views(gaps@);
    let mut k: usize = 0;
    while k < agent.spawns.len()
        invariant
            k <= agent.spawns@.len(),
            id@ == agent.id@,
            gap_views(gaps@) == mid2 + spawn_gaps(*fw, id@, agent.spawns@.subrange(0, k as int)),
        decreases agent.spawns@.len() - k,
    {
        let spawn = agent.spawns[k].as_str();
        proof {
            assert(agent.spawns@.subrange(0, k + 1).drop_last() =~= agent.spawns@.subrange(0, k as int));
        }
        if !has_agent(fw, spawn) {
            let msg = spawn_message(spawn);
            push_gap(gaps, GapKind::Agent, id, spawn, GapSeverity::Critical, msg);
        }
        k = k + 1;
    }
    proof {
        assert(agent.spawns@.subrange(0, agent.spawns@.len() as int) =~= agent.spawns@);
        assert(gap_views(gaps@) =~= start + tool_gaps(*fw, agent.id@, agent.allowed_tools@)
            + skill_gaps(*fw, agent.id@, agent.allowed_skills@) + spawn_gaps(*fw, agent.id@, agent.spawns@));
    }
}

/// Walks a framework and collects every Layer-1 gap; empty when every
/// reference resolves.
pub fn walk(framework: &Framework) -> (r: Vec<Gap>)
    ensures
        gap_views(r@) == framework_gaps(*framework),
{
    let mut gaps: Vec<Gap> = Vec::new();
    let mut i: usize = 0;
    proof {
        assert(gap_views(gaps@) =~= Seq::<GapView>::empty());
    }
    while i < framework.agents.len()
        invariant
            i <= framework.agents@.len(),
            gap_views(gaps@) == items_gaps(*framework, framework.agents@.subrange(0, i as int)),
        decreases framework.agents@.len() - i,
    {
        proof {
            assert(framework.agents@.subrange(0, i + 1).drop_last() =~= framework.agents@.subrange(0, i as int));
        }
        match &framework.agents[i] {
            FrameworkAgentsItem::Agent(agent) => {
                walk_agent(framework, agent, &mut gaps);
                proof {
                    assert(gap_views(gaps@) =~= items_gaps(*framework, framework.agents@.subrange(0, i as int))
                        + item_gaps(*framework, framework.agents@[i as int]));
                }
            },
            FrameworkAgentsItem::Object { .. } => {
                proof {
                    assert(gap_views(gaps@) =~= items_gaps(*framework, framework.agents@.subrange(0, i as int))
                        + item_gaps(*framework, framework.agents@[i as int]));
                }
            },
        }
        i = i + 1;
    }
    proof {
        assert(framework.agents@.subrange(0, framework.agents@.len() as int) =~= framework.agents@);
    }
    gaps
}

/// Some entry of the framework's `skills`, at position `i`, is named
/// `name`.
pub open spec fn skill_at(fw: Framework, i: int, name: Seq<char>) -> bool {
    0 <= i < fw.skills@.len() && fw.skills@[i].name@ == name
}

/// Some entry of the framework's `skills`, at any position, is named
/// `name`.
pub open spec fn named_by_a_skill(fw: Framework, name: Seq<char>) -> bool {
    exists|i: int| #[trigger] skill_at(fw, i, name)
}

/// A skill reference resolves when any declared skill, at any position of
/// the framework's `skills`, carries its name: if every skill an agent
/// references is so named, its skill references raise no gap.
pub proof fn lemma_named_skills_raise_no_gap(fw: Framework, agent: Seq<char>, skills: Seq<String>)
    requires
        forall|k: int| 0 <= k < skills.len() ==> named_by_a_skill(fw, (#[trigger] skills[k])@),
    ensures
        skill_gaps(fw, agent, skills).len() == 0,
    decreases skills.len(),
{
    if skills.len() > 0 {
        let rest = skills.drop_last();
        assert forall|k: int| 0 <= k < rest.len() implies named_by_a_skill(fw, (#[trigger] rest[k])@) by {
            assert(rest[k] == skills[k]);
        }
        lemma_named_skills_raise_no_gap(fw, agent, rest);
        let last = skills.len() - 1;
        assert(skills[last] == skills.last());
        assert(named_by_a_skill(fw, skills[last]@));
        let i = choose|i: int| #[trigger] skill_at(fw, i, skills[last]@);
        assert(fw.skills@[i].name@ == skills.last()@);
        assert(skill_declared(fw, skills.last()@));
    }
}

/// A skill reference that no declared skill names, at any position, is
/// reported: the agent's skill gaps hold an `Advisory` skill gap for it,
/// attributed to the agent.
pub proof fn lemma_unnamed_skill_raises_a_gap(
    fw: Framework,
    agent: Seq<char>,
    skills: Seq<String>,
    k: int,
)
    requires
        0 <= k < skills.len(),
        forall|i: int| 0 <= i < fw.skills@.len() ==> (#[trigger] fw.skills@[i]).name@ != skills[k]@,
    ensures
        exists|j: int|
            0 <= j < skill_gaps(fw, agent, skills).len() && (#[trigger] skill_gaps(
                fw,
                agent,
                skills,
            )[j]).kind == GapKind::Skill && skill_gaps(fw, agent, skills)[j].missing_name
                == skills[k]@ && skill_gaps(fw, agent, skills)[j].agent_id == agent && skill_gaps(
                fw,
                agent,
                skills,
            )[j].severity == GapSeverity::Advisory,
    decreases skills.len(),
{
    let rest = skills.drop_last();
    let prev = skill_gaps(fw, agent, rest);
    let all = skill_gaps(fw, agent, skills);
    if k == skills.len() - 1 {
        assert(skills[k] == skills.last());
        assert(!skill_declared(fw, skills.last()@));
        assert(all[prev.len() as int].missing_name == skills[k]@);
    } else {
        assert(rest[k] == skills[k]);
        lemma_unnamed_skill_raises_a_gap(fw, agent, rest, k);
        let j = choose|j: int|
            0 <= j < prev.len() && (#[trigger] prev[j]).kind == GapKind::Skill && prev[j].missing_name
                == rest[k]@ && prev[j].agent_id == agent && prev[j].severity == GapSeverity::Advisory;
        assert(all[j] == prev[j]);
    }
}

/// Some entry of the framework's `tools`, at position `i`, is named `name`.
pub open spec fn tool_at(fw: Framework, i: int, name: Seq<char>) -> bool {
    0 <= i < fw.tools@.len() && fw.tools@[i].name@ == name
}

/// Some entry of the framework's `tools`, at any position, is named `name`.
pub open spec fn named_by_a_tool(fw: Framework, name: Seq<char>) -> bool {
    exists|i: int| #[trigger] tool_at(fw, i, name)
}

/// A tool reference resolves when any entry of the framework's
/// `tools`, at any position, is named it: if every tool an agent references is
/// so declared, those references raise no gap.
pub proof fn lemma_named_tools_raise_no_gap(fw: Framework, agent: Seq<char>, refs: Seq<String>)
    requires
        forall|k: int| 0 <= k < refs.len() ==> named_by_a_tool(fw, (#[trigger] refs[k])@),
    ensures
        tool_gaps(fw, agent, refs).len() == 0,
    decreases refs.len(),
{
    if refs.len() > 0 {
        let rest = refs.drop_last();
        assert forall|k: int| 0 <= k < rest.len() implies named_by_a_tool(fw, (#[trigger] rest[k])@) by {
            assert(rest[k] == refs[k]);
        }
        lemma_named_tools_raise_no_gap(fw, agent, rest);
        let last = refs.len() - 1;
        assert(refs[last] == refs.last());
        assert(named_by_a_tool(fw, refs[last]@));
        let i = choose|i: int| #[trigger] tool_at(fw, i, refs[last]@);
        assert(fw.tools@[i].name@ == refs.last()@);
        assert(tool_declared(fw, refs.last()@));
    }
}

/// A tool reference that no entry of the framework's `tools` is named, at
/// any position, is reported: the agent's gaps hold a `Critical` gap of kind
/// `Tool` for it, attributed to the agent.
pub proof fn lemma_unnamed_tool_raises_a_gap(fw: Framework, agent: Seq<char>, refs: Seq<String>, k: int)
    requires
        0 <= k < refs.len(),
        forall|i: int| !#[trigger] tool_at(fw, i, refs[k]@),
    ensures
        exists|j: int|
            0 <= j < tool_gaps(fw, agent, refs).len() && (#[trigger] tool_gaps(fw, agent, refs)[j]).kind
                == GapKind::Tool && tool_gaps(fw, agent, refs)[j].missing_name == refs[k]@
                && tool_gaps(fw, agent, refs)[j].agent_id == agent && tool_gaps(fw, agent, refs)[j].severity
                == GapSeverity::Critical,
    decreases refs.len(),
{
    let rest = refs.drop_last();
    let prev = tool_gaps(fw, agent, rest);
    let all = tool_gaps(fw, agent, refs);
    if k == refs.len() - 1 {
        assert(refs[k] == refs.last());
        if tool_declared(fw, refs.last()@) {
            let i = choose|i: int| 0 <= i < fw.tools@.len() && (#[trigger] fw.tools@[i]).name@ == refs.last()@;
            assert(tool_at(fw, i, refs[k]@));
        }
        assert(all[prev.len() as int].missing_name == refs[k]@);
    } else {
        assert(rest[k] == refs[k]);
        lemma_unnamed_tool_raises_a_gap(fw, agent, rest, k);
        let j = choose|j: int|
            0 <= j < prev.len() && (#[trigger] prev[j]).kind == GapKind::Tool && prev[j].missing_name
                == rest[k]@ && prev[j].agent_id == agent && prev[j].severity == GapSeverity::Critical;
        assert(all[j] == prev[j]);
    }
}

/// Some entry of the framework's `agents`, at position `i`, has the id `name`.
pub open spec fn agent_entry_at(fw: Framework, i: int, name: Seq<char>) -> bool {
    0 <= i < fw.agents@.len() && item_id(fw.agents@[i]) == name
}

/// Some entry of the framework's `agents`, at any position, has the id `name`.
pub open spec fn named_by_an_agent(fw: Framework, name: Seq<char>) -> bool {
    exists|i: int| #[trigger] agent_entry_at(fw, i, name)
}

/// A sub-agent reference resolves when any entry of the framework's
/// `agents`, at any position, has the id it: if every sub-agent an agent references is
/// so declared, those references raise no gap.
pub proof fn lemma_declared_spawns_raise_no_gap(fw: Framework, agent: Seq<char>, refs: Seq<String>)
    requires
        forall|k: int| 0 <= k < refs.len() ==> named_by_an_agent(fw, (#[trigger] refs[k])@),
    ensures
        spawn_gaps(fw, agent, refs).len() == 0,
    decreases refs.len(),
{
    if refs.len() > 0 {
        let rest = refs.drop_last();
        assert forall|k: int| 0 <= k < rest.len() implies named_by_an_agent(fw, (#[trigger] rest[k])@) by {
            assert(rest[k] == refs[k]);
        }
        lemma_declared_spawns_raise_no_gap(fw, agent, rest);
        let last = refs.len() - 1;
        assert(refs[last] == refs.last());
        assert(named_by_an_agent(fw, refs[last]@));
        let i = choose|i: int| #[trigger] agent_entry_at(fw, i, refs[last]@);
        assert(item_id(fw.agents@[i]) == refs.last()@);
        assert(agent_declared(fw, refs.last()@));
    }
}

/// A sub-agent reference that no entry of the framework's `agents` has the id, at
/// any position, is reported: the agent's gaps hold a `Critical` gap of kind
/// `Agent` for it, attributed to the agent.
pub proof fn lemma_undeclared_spawn_raises_a_gap(fw: Framework, agent: Seq<char>, refs: Seq<String>, k: int)
    requires
        0 <= k < refs.len(),
        forall|i: int| !#[trigger] agent_entry_at(fw, i, refs[k]@),
    ensures
        exists|j: int|
            0 <= j < spawn_gaps(fw, agent, refs).len() && (#[trigger] spawn_gaps(fw, agent, refs)[j]).kind
                == GapKind::Agent && spawn_gaps(fw, agent, refs)[j].missing_name == refs[k]@
                && spawn_gaps(fw, agent, refs)[j].agent_id == agent && spawn_gaps(fw, agent, refs)[j].severity
                == GapSeverity::Critical,
    decreases refs.len(),
{
    let rest = refs.drop_last();
    let prev = spawn_gaps(fw, agent, rest);
    let all = spawn_gaps(fw, agent, refs);
    if k == refs.len() - 1 {
        assert(refs[k] == refs.last());
        if agent_declared(fw, refs.last()@) {
            let i = choose|i: int| 0 <= i < fw.agents@.len() && item_id(#[trigger] fw.agents@[i]) == refs.last()@;
            assert(agent_entry_at(fw, i, refs[k]@));
        }
        assert(all[prev.len() as int].missing_name == refs[k]@);
    } else {
        assert(rest[k] == refs[k]);
        lemma_undeclared_spawn_raises_a_gap(fw, agent, rest, k);
        let j = choose|j: int|
            0 <= j < prev.len() && (#[trigger] prev[j]).kind == GapKind::Agent && prev[j].missing_name
                == rest[k]@ && prev[j].agent_id == agent && prev[j].severity == GapSeverity::Critical;
        assert(all[j] == prev[j]);
    }
}

} // verus!
