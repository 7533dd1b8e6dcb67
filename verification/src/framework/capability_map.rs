//! Translation between a framework's declarations and the capability
//! declarations the enforcer and the narrowing evaluator consume.
//!
//! Every tool dispatch needs `(Exec, tool, Glob(*), class)` where the
//! class follows the tool's source; every agent's grant set is its
//! capabilities block translated entry by entry. Both sides use the same
//! shape so a grant subsumes the matching request exactly.

use vstd::prelude::*;

use crate::capability::types::{
    CapabilityDeclaration, CapabilityKind, CapabilityScope, DeclView, ScopeView, SideEffectClass,
};
use crate::framework::model::{
    find_tool, tool_declared, Agent, Capabilities, Framework, FrameworkAgentsItem,
    FrameworkToolsItemSource,
};
use crate::capability::declaration::grant_covers;
use crate::text::{owned, push_str, str_eq, to_lowercase, unicode_lowercase};

verus! {

/// Failure raised by `capabilities_for_tool`.
#[derive(Debug)]
pub enum CapabilityLookupError {
    /// No declared tool has this name.
    ToolNotFound {
        /// The name looked up.
        name: String,
    },
}

/// `value`, or a placeholder when it is empty: resource names are never
/// empty.
pub open spec fn resource_name(value: Seq<char>) -> Seq<char> {
    if value.len() == 0 {
        "invalid_resource_name"@
    } else {
        value
    }
}

/// The side-effect class of a tool dispatch: built-in tools are pure,
/// every other source is treated as irreversible.
pub open spec fn source_class(source: FrameworkToolsItemSource) -> SideEffectClass {
    match source {
        FrameworkToolsItemSource::Builtin => SideEffectClass::Pure,
        _ => SideEffectClass::Irreversible,
    }
}

/// The declaration a dispatch of tool `name` needs.
pub open spec fn tool_decl(name: Seq<char>, source: FrameworkToolsItemSource) -> DeclView {
    DeclView {
        kind: CapabilityKind::Exec,
        resource: if name.len() == 0 {
            "invalid_tool_name"@
        } else {
            name
        },
        scope: ScopeView::Glob("*"@),
        side_effect_class: source_class(source),
    }
}

/// One translation rule of a capabilities block.
pub enum Rule {
    /// `tools_called[name]` and `skills_loaded[name]`.
    Loadable,
    /// `file_access.read[glob]`.
    ReadGlob,
    /// `file_access.write[glob]`.
    WriteGlob,
    /// `network[host]`.
    Host,
    /// `spawn_agents[id]`.
    Spawn,
}

/// The declaration one entry translates to under `rule`; `None` where the
/// entry is dropped (an empty glob or host cannot form a scope).
pub open spec fn rule_decl(rule: Rule, v: Seq<char>) -> Option<DeclView> {
    match rule {
        Rule::Loadable => Some(
            DeclView {
                kind: CapabilityKind::Exec,
                resource: resource_name(v),
                scope: ScopeView::Glob("*"@),
                side_effect_class: SideEffectClass::Pure,
            },
        ),
        Rule::ReadGlob => if v.len() == 0 {
            None
        } else {
            Some(
                DeclView {
                    kind: CapabilityKind::Read,
                    resource: "filesystem"@,
                    scope: ScopeView::Glob(v),
                    side_effect_class: SideEffectClass::Pure,
                },
            )
        },
        Rule::WriteGlob => if v.len() == 0 {
            None
        } else {
            Some(
                DeclView {
                    kind: CapabilityKind::Write,
                    resource: "filesystem"@,
                    scope: ScopeView::Glob(v),
                    side_effect_class: SideEffectClass::FilesystemMutate,
                },
            )
        },
        Rule::Host => if v.len() == 0 {
            None
        } else {
            Some(
                DeclView {
                    kind: CapabilityKind::Network,
                    resource: "host"@,
                    scope: ScopeView::Domain(v),
                    side_effect_class: SideEffectClass::NetworkEgress,
                },
            )
        },
        Rule::Spawn => Some(
            DeclView {
                kind: CapabilityKind::ProcessSpawn,
                resource: resource_name(v),
                scope: ScopeView::Glob("*"@),
                side_effect_class: SideEffectClass::ProcessSpawn,
            },
        ),
    }
}

/// The declarations a list of entries translates to under `rule`, in
/// order.
pub open spec fn rule_decls(rule: Rule, items: Seq<String>) -> Seq<DeclView>
    decreases items.len(),
{
    if items.len() == 0 {
        Seq::empty()
    } else {
        rule_decls(rule, items.drop_last()) + match rule_decl(rule, items.last()@) {
            Some(d) => seq![d],
            None => Seq::empty(),
        }
    }
}

/// The shell grant, present when `shell` is set.
pub open spec fn shell_decls(shell: bool) -> Seq<DeclView> {
    if shell {
        seq![DeclView { kind: CapabilityKind::ProcessSpawn, resource: "shell"@, scope: ScopeView::Glob("*"@), side_effect_class: SideEffectClass::ProcessSpawn }]
    } else {
        Seq::empty()
    }
}

/// The grant set of a capabilities block: tools, skills, read globs,
/// write globs, network hosts, the shell, spawnable agents, in that order.
pub open spec fn caps_decls(caps: Capabilities) -> Seq<DeclView> {
    rule_decls(Rule::Loadable, caps.tools_called@) + rule_decls(Rule::Loadable, caps.skills_loaded@)
        + rule_decls(Rule::ReadGlob, caps.file_access.read@) + rule_decls(
        Rule::WriteGlob,
        caps.file_access.write@,
    ) + rule_decls(Rule::Host, caps.network@) + shell_decls(caps.shell) + rule_decls(
        Rule::Spawn,
        caps.spawn_agents@,
    )
}

/// The views of a sequence of declarations.
pub open spec fn decl_views(decls: Seq<CapabilityDeclaration>) -> Seq<DeclView> {
    decls.map_values(|d: CapabilityDeclaration| d@)
}

fn non_empty_or(value: &str, placeholder: &str) -> (r: String)
    ensures
        r@ == (if value@.len() == 0 {
            placeholder@
        } else {
            value@
        }),
{
    if value.unicode_len() == 0 {
        owned(placeholder)
    } else {
        owned(value)
    }
}

fn any_glob() -> (r: CapabilityScope)
    ensures
        r@ == ScopeView::Glob("*"@),
{
    CapabilityScope::Glob(owned("*"))
}

/// The declaration a dispatch of tool `name` from `source` needs.
pub fn tool_to_declaration(name: &str, source: FrameworkToolsItemSource) -> (r: CapabilityDeclaration)
    ensures
        r@ == tool_decl(name@, source),
{
    let side_effect_class = match source {
        FrameworkToolsItemSource::Builtin => SideEffectClass::Pure,
        FrameworkToolsItemSource::Generated
        | FrameworkToolsItemSource::External
        | FrameworkToolsItemSource::Registry => SideEffectClass::Irreversible,
    };
    CapabilityDeclaration {
        kind: CapabilityKind::Exec,
        resource: non_empty_or(name, "invalid_tool_name"),
        scope: any_glob(),
        side_effect_class,
    }
}

/// The per-dispatch declarations for a tool declared in the framework:
/// one `(Exec, tool, Glob(*), class)` built from the first declared tool
/// of that name; `ToolNotFound` when none is declared.
pub fn capabilities_for_tool(framework: &Framework, tool_name: &str) -> (r: Result<
    Vec<CapabilityDeclaration>,
    CapabilityLookupError,
>)
    ensures
        r is Ok <==> tool_declared(*framework, tool_name@),
        r matches Ok(v) ==> exists|i: int|
            0 <= i < framework.tools@.len() && (#[trigger] framework.tools@[i]).name@ == tool_name@
                && (forall|j: int| 0 <= j < i ==> (#[trigger] framework.tools@[j]).name@ != tool_name@)
                && decl_views(v@) == seq![tool_decl(tool_name@, framework.tools@[i].source)],
        r matches Err(CapabilityLookupError::ToolNotFound { name }) ==> name@ == tool_name@,
{
    match find_tool(framework, tool_name) {
        Some(i) => {
            let d = tool_to_declaration(tool_name, framework.tools[i].source);
            let mut v: Vec<CapabilityDeclaration> = Vec::new();
            v.push(d);
            proof {
                assert(decl_views(v@) =~= seq![tool_decl(tool_name@, framework.tools@[i as int].source)]);
            }
            Ok(v)
        },
        None => Err(CapabilityLookupError::ToolNotFound { name: owned(tool_name) }),
    }
}

fn rule_to_declaration(rule: &Rule, v: &str) -> (r: Option<CapabilityDeclaration>)
    ensures
        match r {
            Some(d) => rule_decl(*rule, v@) == Some(d@),
            None => rule_decl(*rule, v@) is None,
        },
{
    match rule {
        Rule::Loadable => Some(
            CapabilityDeclaration {
                kind: CapabilityKind::Exec,
                resource: non_empty_or(v, "invalid_resource_name"),
                scope: any_glob(),
                side_effect_class: SideEffectClass::Pure,
            },
        ),
        Rule::ReadGlob => if v.unicode_len() == 0 {
            None
        } else {
            Some(
                CapabilityDeclaration {
                    kind: CapabilityKind::Read,
                    resource: owned("filesystem"),
                    scope: CapabilityScope::Glob(owned(v)),
                    side_effect_class: SideEffectClass::Pure,
                },
            )
        },
        Rule::WriteGlob => if v.unicode_len() == 0 {
            None
        } else {
            Some(
                CapabilityDeclaration {
                    kind: CapabilityKind::Write,
                    resource: owned("filesystem"),
                    scope: CapabilityScope::Glob(owned(v)),
                    side_effect_class: SideEffectClass::FilesystemMutate,
                },
            )
        },
        Rule::Host => if v.unicode_len() == 0 {
            None
        } else {
            Some(
                CapabilityDeclaration {
                    kind: CapabilityKind::Network,
                    resource: owned("host"),
                    scope: CapabilityScope::Domain(owned(v)),
                    side_effect_class: SideEffectClass::NetworkEgress,
                },
            )
        },
        Rule::Spawn => Some(
            CapabilityDeclaration {
                kind: CapabilityKind::ProcessSpawn,
                resource: non_empty_or(v, "invalid_resource_name"),
                scope: any_glob(),
                side_effect_class: SideEffectClass::ProcessSpawn,
            },
        ),
    }
}

proof fn lemma_push_decl_view(decls: Seq<CapabilityDeclaration>, d: CapabilityDeclaration)
    ensures
        decl_views(decls.push(d)) == decl_views(decls) + seq![d@],
{
    assert(decl_views(decls.push(d)) =~= decl_views(decls) + seq![d@]);
}

fn push_rule(out: &mut Vec<CapabilityDeclaration>, rule: Rule, items: &Vec<String>)
    ensures
        decl_views(final(out)@) == decl_views(old(out)@) + rule_decls(rule, items@),
{
    let ghost start = decl_views(out@);
    let mut k: usize = 0;
    while k < items.len()
        invariant
            k <= items@.len(),
            decl_views(out@) == start + rule_decls(rule, items@.subrange(0, k as int)),
        decreases items@.len() - k,
    {
        proof {
            assert(items@.subrange(0, k + 1).drop_last() =~= items@.subrange(0, k as int));
        }
        match rule_to_declaration(&rule, items[k].as_str()) {
            Some(d) => {
                proof {
                    lemma_push_decl_view(out@, d);
                }
                out.push(d);
            },
            None => {},
        }
        k = k + 1;
        proof {
            assert(decl_views(out@) =~= start + rule_decls(rule, items@.subrange(0, k as int)));
        }
    }
    proof {
        assert(items@.subrange(0, items@.len() as int) =~= items@);
    }
}

/// Translates a capabilities block into its grant set; see
/// [`caps_decls`] for the rules and their order.
pub fn capabilities_to_declarations(caps: &Capabilities) -> (r: Vec<CapabilityDeclaration>)
    ensures
        decl_views(r@) == caps_decls(*caps),
{
    let mut out: Vec<CapabilityDeclaration> = Vec::new();
    proof {
        assert(decl_views(out@) =~= Seq::<DeclView>::empty());
    }
    push_rule(&mut out, Rule::Loadable, &caps.tools_called);
    push_rule(&mut out, Rule::Loadable, &caps.skills_loaded);
    push_rule(&mut out, Rule::ReadGlob, &caps.file_access.read);
    push_rule(&mut out, Rule::WriteGlob, &caps.file_access.write);
    push_rule(&mut out, Rule::Host, &caps.network);
    let ghost before_shell = out@;
    if caps.shell {
        let d = CapabilityDeclaration {
            kind: CapabilityKind::ProcessSpawn,
            resource: owned("shell"),
            scope: any_glob(),
            side_effect_class: SideEffectClass::ProcessSpawn,
        };
        proof {
            lemma_push_decl_view(out@, d);
        }
        out.push(d);
    }
    proof {
        assert(decl_views(out@) =~= decl_views(before_shell) + shell_decls(caps.shell));
    }
    push_rule(&mut out, Rule::Spawn, &caps.spawn_agents);
    proof {
        assert(decl_views(out@) =~= caps_decls(*caps));
    }
    out
}

/// The first inline agent with id `agent_id`, if any.
pub open spec fn first_inline(items: Seq<FrameworkAgentsItem>, agent_id: Seq<char>) -> Option<
    Agent,
>
    decreases items.len(),
{
    if items.len() == 0 {
        None
    } else {
        match items[0] {
            FrameworkAgentsItem::Agent(a) => if a.id@ == agent_id {
                Some(a)
            } else {
                first_inline(items.drop_first(), agent_id)
            },
            _ => first_inline(items.drop_first(), agent_id),
        }
    }
}

fn find_inline<'a>(framework: &'a Framework, agent_id: &str) -> (r: Option<&'a Agent>)
    ensures
        match r {
            Some(a) => first_inline(framework.agents@, agent_id@) == Some(*a),
            None => first_inline(framework.agents@, agent_id@) is None,
        },
{
    let mut i: usize = 0;
    proof {
        assert(framework.agents@.subrange(0, framework.agents@.len() as int) =~= framework.agents@);
    }
    while i < framework.agents.len()
        invariant
            i <= framework.agents@.len(),
            first_inline(framework.agents@, agent_id@) == first_inline(
                framework.agents@.subrange(i as int, framework.agents@.len() as int),
                agent_id@,
            ),
        decreases framework.agents@.len() - i,
    {
        let ghost rest = framework.agents@.subrange(i as int, framework.agents@.len() as int);
        proof {
            assert(rest.drop_first() =~= framework.agents@.subrange(i + 1, framework.agents@.len() as int));
        }
        match &framework.agents[i] {
            FrameworkAgentsItem::Agent(a) => {
                if str_eq(a.id.as_str(), agent_id) {
                    return Some(a);
                }
            },
            _ => {},
        }
        i = i + 1;
    }
    None
}

/// The grant set of the first inline agent with id `agent_id`; `None`
/// when no inline agent has that id (a by-reference entry has no inline
/// capabilities block).
pub fn parent_grants_for_agent(framework: &Framework, agent_id: &str) -> (r: Option<
    Vec<CapabilityDeclaration>,
>)
    ensures
        match first_inline(framework.agents@, agent_id@) {
            Some(a) => r matches Some(v) && decl_views(v@) == caps_decls(a.capabilities),
            None => r is None,
        },
{
    match find_inline(framework, agent_id) {
        Some(a) => Some(capabilities_to_declarations(&a.capabilities)),
        None => None,
    }
}

/// The display name of a framework agent: the `role` of the first inline
/// agent with that id; the id itself for a by-reference or undeclared
/// agent.
pub fn root_agent_role(framework: &Framework, agent_id: &str) -> (r: String)
    ensures
        r@ == match first_inline(framework.agents@, agent_id@) {
            Some(a) => a.role@,
            None => agent_id@,
        },
{
    match find_inline(framework, agent_id) {
        Some(a) => a.role.clone(),
        None => owned(agent_id),
    }
}

/// The inline agents of a framework, in declaration order.
pub open spec fn inline_list(items: Seq<FrameworkAgentsItem>) -> Seq<Agent>
    decreases items.len(),
{
    if items.len() == 0 {
        Seq::empty()
    } else {
        inline_list(items.drop_last()) + match items.last() {
            FrameworkAgentsItem::Agent(a) => seq![a],
            _ => Seq::empty(),
        }
    }
}

/// All inline agents in declaration order; by-reference entries are
/// skipped.
pub fn inline_agents(framework: &Framework) -> (r: Vec<&Agent>)
    ensures
        r@.map_values(|a: &Agent| *a) == inline_list(framework.agents@),
{
    let mut out: Vec<&Agent> = Vec::new();
    let mut i: usize = 0;
    while i < framework.agents.len()
        invariant
            i <= framework.agents@.len(),
            out@.map_values(|a: &Agent| *a) == inline_list(framework.agents@.subrange(0, i as int)),
        decreases framework.agents@.len() - i,
    {
        proof {
            assert(framework.agents@.subrange(0, i + 1).drop_last() =~= framework.agents@.subrange(0, i as int));
        }
        let ghost before = out@;
        match &framework.agents[i] {
            FrameworkAgentsItem::Agent(a) => {
                out.push(a);
            },
            _ => {},
        }
        i = i + 1;
        proof {
            assert(out@.map_values(|a: &Agent| *a) =~= inline_list(framework.agents@.subrange(0, i as int)));
        }
    }
    proof {
        assert(framework.agents@.subrange(0, framework.agents@.len() as int) =~= framework.agents@);
    }
    out
}

/// The name `{:?}` prints for a capability kind.
pub open spec fn kind_name(kind: CapabilityKind) -> Seq<char> {
    match kind {
        CapabilityKind::Read => "Read"@,
        CapabilityKind::Write => "Write"@,
        CapabilityKind::Exec => "Exec"@,
        CapabilityKind::Network => "Network"@,
        CapabilityKind::ProcessSpawn => "ProcessSpawn"@,
    }
}

/// The name `{:?}` prints for a side-effect class.
pub open spec fn class_name(class: SideEffectClass) -> Seq<char> {
    match class {
        SideEffectClass::Pure => "Pure"@,
        SideEffectClass::FilesystemMutate => "FilesystemMutate"@,
        SideEffectClass::NetworkEgress => "NetworkEgress"@,
        SideEffectClass::ProcessSpawn => "ProcessSpawn"@,
        SideEffectClass::Irreversible => "Irreversible"@,
    }
}

/// `glob:<pattern>`, `domain:<host>` or `path:<prefix>`.
pub open spec fn scope_text(scope: ScopeView) -> Seq<char> {
    match scope {
        ScopeView::Glob(g) => "glob:"@ + g,
        ScopeView::Domain(d) => "domain:"@ + d,
        ScopeView::Path(p) => "path:"@ + p,
    }
}

/// `kind:resource:scope:class`, before lowercasing.
pub open spec fn narrowed_from_text(d: DeclView) -> Seq<char> {
    kind_name(d.kind) + ":"@ + d.resource + ":"@ + scope_text(d.scope) + ":"@ + class_name(
        d.side_effect_class,
    )
}

fn kind_str(kind: CapabilityKind) -> (r: &'static str)
    ensures
        r@ == kind_name(kind),
{
    match kind {
        CapabilityKind::Read => "Read",
        CapabilityKind::Write => "Write",
        CapabilityKind::Exec => "Exec",
        CapabilityKind::Network => "Network",
        CapabilityKind::ProcessSpawn => "ProcessSpawn",
    }
}

fn class_str(class: SideEffectClass) -> (r: &'static str)
    ensures
        r@ == class_name(class),
{
    match class {
        SideEffectClass::Pure => "Pure",
        SideEffectClass::FilesystemMutate => "FilesystemMutate",
        SideEffectClass::NetworkEgress => "NetworkEgress",
        SideEffectClass::ProcessSpawn => "ProcessSpawn",
        SideEffectClass::Irreversible => "Irreversible",
    }
}

/// Renders a declaration as `kind:resource:scope:class`.
pub fn declaration_text(decl: &CapabilityDeclaration) -> (r: String)
    ensures
        r@ == narrowed_from_text(decl@),
{
    let mut s = owned(kind_str(decl.kind));
    push_str(&mut s, ":");
    push_str(&mut s, decl.resource.as_str());
    push_str(&mut s, ":");
    match &decl.scope {
        CapabilityScope::Glob(g) => {
            push_str(&mut s, "glob:");
            push_str(&mut s, g.as_str());
        },
        CapabilityScope::Domain(d) => {
            push_str(&mut s, "domain:");
            push_str(&mut s, d.as_str());
        },
        CapabilityScope::Path(p) => {
            push_str(&mut s, "path:");
            push_str(&mut s, p.as_str());
        },
    }
    push_str(&mut s, ":");
    push_str(&mut s, class_str(decl.side_effect_class));
    proof {
        assert(s@ =~= narrowed_from_text(decl@));
    }
    s
}

/// Renders a declaration as `kind:resource:scope:class`, lowercased.
pub fn declaration_to_narrowed_from_str(decl: &CapabilityDeclaration) -> (r: String)
    ensures
        r@ == unicode_lowercase(narrowed_from_text(decl@)),
{
    let s = declaration_text(decl);
    to_lowercase(s.as_str())
}

/// The grant a called tool or loaded skill named `v` translates to.
pub open spec fn loadable_decl(v: Seq<char>) -> DeclView {
    DeclView {
        kind: CapabilityKind::Exec,
        resource: resource_name(v),
        scope: ScopeView::Glob("*"@),
        side_effect_class: SideEffectClass::Pure,
    }
}

proof fn lemma_loadable_decls(items: Seq<String>)
    ensures
        rule_decls(Rule::Loadable, items).len() == items.len(),
        forall|i: int|
            0 <= i < items.len() ==> #[trigger] rule_decls(Rule::Loadable, items)[i] == loadable_decl(items[i]@),
    decreases items.len(),
{
    if items.len() > 0 {
        lemma_loadable_decls(items.drop_last());
        let prev = rule_decls(Rule::Loadable, items.drop_last());
        assert forall|i: int| 0 <= i < items.len() implies #[trigger] rule_decls(
            Rule::Loadable,
            items,
        )[i] == loadable_decl(items[i]@) by {
            if i < items.len() - 1 {
                assert(items.drop_last()[i] == items[i]);
            }
        }
    }
}

/// An agent's own built-in tool passes the grant match: when the agent's
/// capabilities call a tool with a non-empty name, one of the grants its
/// capabilities block translates to (what `parent_grants_for_agent`
/// returns) covers the request `capabilities_for_tool` builds for that
/// tool when it is declared built-in. An empty name is left out: its
/// request names `invalid_tool_name` and its grant `invalid_resource_name`.
pub proof fn lemma_own_builtin_tool_is_granted(
    caps: Capabilities,
    name: Seq<char>,
    grants: Seq<CapabilityDeclaration>,
    request: CapabilityDeclaration,
)
    requires
        name.len() > 0,
        exists|i: int| 0 <= i < caps.tools_called@.len() && (#[trigger] caps.tools_called@[i])@ == name,
        decl_views(grants) == caps_decls(caps),
        request@ == tool_decl(name, FrameworkToolsItemSource::Builtin),
    ensures
        exists|j: int| 0 <= j < grants.len() && grant_covers(#[trigger] grants[j], request),
{
    let i = choose|i: int| 0 <= i < caps.tools_called@.len() && (#[trigger] caps.tools_called@[i])@ == name;
    lemma_loadable_decls(caps.tools_called@);
    let a = rule_decls(Rule::Loadable, caps.tools_called@);
    let all = caps_decls(caps);
    assert(all.len() >= a.len());
    assert(all[i] == a[i]);
    assert(decl_views(grants).len() == grants.len());
    assert(decl_views(grants)[i] == grants[i]@);
    let g = grants[i];
    assert(g@ == a[i]);
    match (g.scope, request.scope) {
        (CapabilityScope::Glob(x), CapabilityScope::Glob(y)) => {
            assert(x@ == y@);
        },
        _ => {},
    }
    assert(grant_covers(grants[i], request));
}

/// The first declared tool named `name` is built in.
pub open spec fn first_tool_is_builtin(fw: Framework, name: Seq<char>) -> bool {
    exists|i: int|
        0 <= i < fw.tools@.len() && (#[trigger] fw.tools@[i]).name@ == name && fw.tools@[i].source
            == FrameworkToolsItemSource::Builtin && forall|j: int|
            0 <= j < i ==> (#[trigger] fw.tools@[j]).name@ != name
}

/// An agent's own built-in tool passes the grant match, stated over what
/// the two lookups return: when the first inline agent with id
/// `agent_id` calls a tool with the non-empty name `name`, and the first
/// declared tool of that name is built in, some grant that
/// `parent_grants_for_agent(fw, agent_id)` returns (`grants`) covers the
/// request `capabilities_for_tool(fw, name)` returns (`request`). An
/// empty name is left out (its request names `invalid_tool_name`, its
/// grant `invalid_resource_name`), as are a first tool of that name that
/// is not built in and an agent id whose first inline agent does not call
/// the tool.
pub proof fn lemma_agent_builtin_tool_passes_grant_match(
    fw: Framework,
    agent_id: Seq<char>,
    name: Seq<char>,
    grants: Seq<CapabilityDeclaration>,
    request: Seq<CapabilityDeclaration>,
)
    requires
        name.len() > 0,
        first_inline(fw.agents@, agent_id) matches Some(a) && exists|i: int|
            0 <= i < a.capabilities.tools_called@.len() && (
            #[trigger] a.capabilities.tools_called@[i])@ == name,
        first_tool_is_builtin(fw, name),
        first_inline(fw.agents@, agent_id) matches Some(a) && decl_views(grants) == caps_decls(
            a.capabilities,
        ),
        exists|i: int|
            0 <= i < fw.tools@.len() && (#[trigger] fw.tools@[i]).name@ == name && (forall|j: int|
                0 <= j < i ==> (#[trigger] fw.tools@[j]).name@ != name) && decl_views(request)
                == seq![tool_decl(name, fw.tools@[i].source)],
    ensures
        request.len() == 1,
        exists|j: int| 0 <= j < grants.len() && grant_covers(#[trigger] grants[j], request[0]),
{
    let a = first_inline(fw.agents@, agent_id).unwrap();
    let i = choose|i: int|
        0 <= i < fw.tools@.len() && (#[trigger] fw.tools@[i]).name@ == name && (forall|j: int|
            0 <= j < i ==> (#[trigger] fw.tools@[j]).name@ != name) && decl_views(request)
            == seq![tool_decl(name, fw.tools@[i].source)];
    lemma_first_tool_source(fw, name, i);
    assert(decl_views(request).len() == request.len());
    assert(decl_views(request)[0] == request[0]@);
    lemma_own_builtin_tool_is_granted(a.capabilities, name, grants, request[0]);
}

proof fn lemma_first_tool_source(fw: Framework, name: Seq<char>, i: int)
    requires
        first_tool_is_builtin(fw, name),
        0 <= i < fw.tools@.len(),
        fw.tools@[i].name@ == name,
        forall|j: int| 0 <= j < i ==> (#[trigger] fw.tools@[j]).name@ != name,
    ensures
        fw.tools@[i].source == FrameworkToolsItemSource::Builtin,
{
    let b = choose|b: int|
        0 <= b < fw.tools@.len() && (#[trigger] fw.tools@[b]).name@ == name && fw.tools@[b].source
            == FrameworkToolsItemSource::Builtin && forall|j: int|
            0 <= j < b ==> (#[trigger] fw.tools@[j]).name@ != name;
    if i < b {
        assert(fw.tools@[i].name@ != name);
    } else if b < i {
        assert(fw.tools@[b].name@ != name);
    }
}

/// The request a tool dispatch needs is classed `Pure` exactly when the
/// tool is built in; a generated, external or registry tool is not
/// statically reviewed and its request is classed `Irreversible`. Every
/// other part of the request is the same for every source: an `Exec` of
/// the tool's name over `Glob("*")`.
pub proof fn lemma_tool_request_class_follows_source(
    name: Seq<char>,
    source: FrameworkToolsItemSource,
)
    ensures
        (tool_decl(name, source).side_effect_class == SideEffectClass::Pure) <==> source
            == FrameworkToolsItemSource::Builtin,
        source != FrameworkToolsItemSource::Builtin ==> tool_decl(name, source).side_effect_class
            == SideEffectClass::Irreversible,
        tool_decl(name, source).kind == CapabilityKind::Exec,
        tool_decl(name, source).scope == ScopeView::Glob("*"@),
        name.len() > 0 ==> tool_decl(name, source).resource == name,
{
}

} // verus!
