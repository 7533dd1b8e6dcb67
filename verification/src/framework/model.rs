//! The parts of a framework document the loader, the capability map and
//! the builder read: its declared tools, skills and agents, and each inline
//! agent's coarse capabilities block.

use vstd::prelude::*;

use crate::text::str_eq;

verus! {

/// Provider + model id pair.
#[derive(Clone, Debug)]
pub struct ModelRef {
    /// Provider name.
    pub provider: String,
    /// Model id.
    pub id: String,
}

/// Where a declared tool comes from.
#[derive(Clone, Copy, Debug, PartialEq, Eq, Structural)]
pub enum FrameworkToolsItemSource {
    /// Shipped with the runtime and statically reviewed.
    Builtin,
    /// Produced by a generator.
    Generated,
    /// Provided by an outside party.
    External,
    /// Imported from a registry.
    Registry,
}

/// One `tools[]` entry.
#[derive(Clone, Debug)]
pub struct FrameworkToolsItem {
    /// Tool name.
    pub name: String,
    /// Tool source.
    pub source: FrameworkToolsItemSource,
    /// Companion markdown path, for imported tools.
    pub path: Option<String>,
}

/// One `skills[]` entry.
#[derive(Clone, Debug)]
pub struct FrameworkSkillsItem {
    /// Skill name.
    pub name: String,
    /// Skill source tag (e.g. `local`).
    pub source: String,
    /// Companion markdown path, for imported skills.
    pub path: Option<String>,
}

/// File-access globs of an agent.
#[derive(Clone, Debug)]
pub struct FileAccess {
    /// Globs the agent may read.
    pub read: Vec<String>,
    /// Globs the agent may write.
    pub write: Vec<String>,
}

/// An agent's coarse capabilities block.
#[derive(Clone, Debug)]
pub struct Capabilities {
    /// Tools the agent may call.
    pub tools_called: Vec<String>,
    /// Skills the agent may load.
    pub skills_loaded: Vec<String>,
    /// File read/write globs.
    pub file_access: FileAccess,
    /// Network hosts the agent may reach.
    pub network: Vec<String>,
    /// Whether the agent may run a shell.
    pub shell: bool,
    /// Agent ids the agent may spawn.
    pub spawn_agents: Vec<String>,
}

/// An inline agent declaration.
#[derive(Clone, Debug)]
pub struct Agent {
    /// Agent id.
    pub id: String,
    /// Display role.
    pub role: String,
    /// Model the agent runs on.
    pub model: ModelRef,
    /// Coarse capabilities.
    pub capabilities: Capabilities,
    /// Tools the agent references.
    pub allowed_tools: Vec<String>,
    /// Skills the agent references.
    pub allowed_skills: Vec<String>,
    /// Sub-agents the agent spawns.
    pub spawns: Vec<String>,
}

/// One `agents[]` entry: inline, or a reference to an agent file.
#[derive(Clone, Debug)]
pub enum FrameworkAgentsItem {
    /// An inline agent.
    Agent(Agent),
    /// A reference `{ id, path }` to an agent markdown file.
    Object {
        /// Agent id.
        id: String,
        /// Path of the agent file, relative to the framework directory.
        path: String,
    },
}

/// A framework document.
#[derive(Clone, Debug)]
pub struct Framework {
    /// Framework name.
    pub name: String,
    /// Framework version.
    pub version: String,
    /// Human-readable description.
    pub description: String,
    /// Default model.
    pub model: ModelRef,
    /// Declared agents, in declaration order.
    pub agents: Vec<FrameworkAgentsItem>,
    /// Declared tools.
    pub tools: Vec<FrameworkToolsItem>,
    /// Declared skills.
    pub skills: Vec<FrameworkSkillsItem>,
    /// Id of the agent a session starts with.
    pub session_root_agent: String,
}

/// The id of an `agents[]` entry, whichever form it takes.
pub open spec fn item_id(item: FrameworkAgentsItem) -> Seq<char> {
    match item {
        FrameworkAgentsItem::Agent(a) => a.id@,
        FrameworkAgentsItem::Object { id, .. } => id@,
    }
}

/// Some declared tool is named `name`.
pub open spec fn tool_declared(fw: Framework, name: Seq<char>) -> bool {
    exists|i: int| 0 <= i < fw.tools@.len() && (#[trigger] fw.tools@[i]).name@ == name
}

/// Some declared skill is named `name`.
pub open spec fn skill_declared(fw: Framework, name: Seq<char>) -> bool {
    exists|i: int| 0 <= i < fw.skills@.len() && (#[trigger] fw.skills@[i]).name@ == name
}

/// Some `agents[]` entry, inline or by reference, has id `id`.
pub open spec fn agent_declared(fw: Framework, id: Seq<char>) -> bool {
    exists|i: int| 0 <= i < fw.agents@.len() && item_id(#[trigger] fw.agents@[i]) == id
}

/// The id of an `agents[]` entry, whichever form it takes.
pub fn agents_item_id(item: &FrameworkAgentsItem) -> (r: &str)
    ensures
        r@ == item_id(*item),
{
    match item {
        FrameworkAgentsItem::Object { id, .. } => id.as_str(),
        FrameworkAgentsItem::Agent(a) => a.id.as_str(),
    }
}

/// Index of the first declared tool named `name`.
pub fn find_tool(fw: &Framework, name: &str) -> (r: Option<usize>)
    ensures
        r is Some <==> tool_declared(*fw, name@),
        r matches Some(i) ==> i < fw.tools@.len() && fw.tools@[i as int].name@ == name@
            && forall|j: int| 0 <= j < i ==> (#[trigger] fw.tools@[j]).name@ != name@,
{
    let mut i: usize = 0;
    while i < fw.tools.len()
        invariant
            i <= fw.tools@.len(),
            forall|j: int| 0 <= j < i ==> (#[trigger] fw.tools@[j]).name@ != name@,
        decreases fw.tools@.len() - i,
    {
        if str_eq(fw.tools[i].name.as_str(), name) {
            return Some(i);
        }
        i = i + 1;
    }
    None
}

/// Is some skill named `name` declared?
pub fn has_skill(fw: &Framework, name: &str) -> (r: bool)
    ensures
        r == skill_declared(*fw, name@),
{
    let mut i: usize = 0;
    while i < fw.skills.len()
        invariant
            i <= fw.skills@.len(),
            forall|j: int| 0 <= j < i ==> (#[trigger] fw.skills@[j]).name@ != name@,
        decreases fw.skills@.len() - i,
    {
        if str_eq(fw.skills[i].name.as_str(), name) {
            return true;
        }
        i = i + 1;
    }
    false
}

/// Is some agent, inline or by reference, declared with id `id`?
pub fn has_agent(fw: &Framework, id: &str) -> (r: bool)
    ensures
        r == agent_declared(*fw, id@),
{
    let mut i: usize = 0;
    while i < fw.agents.len()
        invariant
            i <= fw.agents@.len(),
            forall|j: int| 0 <= j < i ==> item_id(#[trigger] fw.agents@[j]) != id@,
        decreases fw.agents@.len() - i,
    {
        if str_eq(agents_item_id(&fw.agents[i]), id) {
            return true;
        }
        i = i + 1;
    }
    false
}

} // verus!
