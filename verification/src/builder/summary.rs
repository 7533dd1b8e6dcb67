//! The whole-framework capability picture: distinct read globs, write
//! globs and network hosts across the inline agents, whether any agent
//! may use the shell, and for every agent-to-agent spawn edge the
//! narrowing decision between the parent's and the child's grants.

use vstd::prelude::*;

use crate::capability::error::NarrowingError;
use crate::capability::narrowing::{all_covered, narrow};
use crate::capability::enforcer::some_grant_covers;
use crate::capability::types::{CapabilityDeclaration, DeclView};
use crate::framework::capability_map::{
    capabilities_to_declarations, caps_decls, decl_views, first_inline, narrowed_from_text,
};
use crate::framework::model::{Agent, Framework, FrameworkAgentsItem};
use crate::text::{insert_sorted, owned, str_eq, strictly_sorted, strs};

verus! {

/// The narrowing decision for one agent-to-agent spawn edge.
#[derive(Debug)]
pub struct SpawnEdgeNarrowing {
    /// Parent agent id.
    pub parent_id: String,
    /// Child (spawned) agent id.
    pub child_id: String,
    /// The parent's grant set.
    pub parent_caps: Vec<CapabilityDeclaration>,
    /// The child's declared grant set.
    pub child_declared_caps: Vec<CapabilityDeclaration>,
    /// The child's declared set when the parent covers all of it, else
    /// the narrowing error's message.
    pub narrowed_caps: Result<Vec<CapabilityDeclaration>, String>,
}

/// The whole-framework capability picture.
#[derive(Debug)]
pub struct FrameworkCapabilitySummary {
    /// Distinct file-read globs across the inline agents, sorted.
    pub files_read: Vec<String>,
    /// Distinct file-write globs across the inline agents, sorted.
    pub files_written: Vec<String>,
    /// Distinct network hosts across the inline agents, sorted.
    pub network_hosts: Vec<String>,
    /// Whether any inline agent may use the shell.
    pub any_shell: bool,
    /// One decision per agent-to-agent spawn edge, in declaration order.
    pub spawn_edges: Vec<SpawnEdgeNarrowing>,
}

/// Which list of an agent's capabilities block is summed up.
pub enum CapabilityList {
    /// `file_access.read`.
    FilesRead,
    /// `file_access.write`.
    FilesWritten,
    /// `network`.
    NetworkHosts,
}

/// One agent's entries of a list.
pub open spec fn list_of(a: Agent, which: CapabilityList) -> Seq<String> {
    match which {
        CapabilityList::FilesRead => a.capabilities.file_access.read@,
        CapabilityList::FilesWritten => a.capabilities.file_access.write@,
        CapabilityList::NetworkHosts => a.capabilities.network@,
    }
}

/// Every inline agent's entries of a list, concatenated.
pub open spec fn listed(items: Seq<FrameworkAgentsItem>, which: CapabilityList) -> Seq<Seq<char>>
    decreases items.len(),
{
    if items.len() == 0 {
        Seq::empty()
    } else {
        listed(items.drop_last(), which) + match items.last() {
            FrameworkAgentsItem::Agent(a) => strs(list_of(a, which)),
            _ => Seq::empty(),
        }
    }
}

/// Does some inline agent allow the shell?
pub open spec fn any_shell_of(items: Seq<FrameworkAgentsItem>) -> bool {
    exists|i: int|
        0 <= i < items.len() && (#[trigger] items[i] matches FrameworkAgentsItem::Agent(a)
            && a.capabilities.shell)
}

proof fn lemma_push_contains(s: Seq<Seq<char>>, e: Seq<char>, x: Seq<char>)
    ensures
        s.push(e).contains(x) <==> s.contains(x) || x == e,
{
    if s.push(e).contains(x) {
        let k = choose|k: int| 0 <= k < s.push(e).len() && s.push(e)[k] == x;
        if k < s.len() {
            assert(s[k] == x);
        }
    }
    if s.contains(x) {
        let k = choose|k: int| 0 <= k < s.len() && s[k] == x;
        assert(s.push(e)[k] == x);
    }
    if x == e {
        assert(s.push(e)[s.len() as int] == x);
    }
}

fn agent_list<'a>(a: &'a Agent, which: &CapabilityList) -> (r: &'a Vec<String>)
    ensures
        r@ == list_of(*a, *which),
{
    match which {
        CapabilityList::FilesRead => &a.capabilities.file_access.read,
        CapabilityList::FilesWritten => &a.capabilities.file_access.write,
        CapabilityList::NetworkHosts => &a.capabilities.network,
    }
}

/// The distinct entries of a list across the inline agents, sorted.
pub fn collect_sorted(framework: &Framework, which: CapabilityList) -> (r: Vec<String>)
    ensures
        strictly_sorted(strs(r@)),
        forall|x: Seq<char>|
            #[trigger] strs(r@).contains(x) <==> listed(
                framework.agents@,
                which,
            ).contains(x),
{
    let mut out: Vec<String> = Vec::new();
    let mut i: usize = 0;
    proof {
        assert(strs(out@) =~= Seq::<Seq<char>>::empty());
    }
    while i < framework.agents.len()
        invariant
            i <= framework.agents@.len(),
            strictly_sorted(strs(out@)),
            forall|x: Seq<char>|
                #[trigger] strs(out@).contains(x) <==> listed(
                    framework.agents@.subrange(0, i as int),
                    which,
                ).contains(x),
        decreases framework.agents@.len() - i,
    {
        let ghost before = listed(framework.agents@.subrange(0, i as int), which);
        proof {
            assert(framework.agents@.subrange(0, i + 1).drop_last() =~= framework.agents@.subrange(
                0,
                i as int,
            ));
        }
        match &framework.agents[i] {
            FrameworkAgentsItem::Agent(a) => {
                let list = agent_list(a, &which);
                let mut k: usize = 0;
                while k < list.len()
                    invariant
                        k <= list@.len(),
                        strictly_sorted(strs(out@)),
                        forall|x: Seq<char>|
                            #[trigger] strs(out@).contains(x) <==> (before + strs(
                                list@,
                            ).subrange(0, k as int)).contains(x),
                    decreases list@.len() - k,
                {
                    let e = list[k].as_str();
                    let ghost prev = before + strs(list@).subrange(0, k as int);
                    let ghost old_out = strs(out@);
                    proof {
                        assert(before + strs(list@).subrange(0, k + 1) =~= prev.push(e@));
                    }
                    insert_sorted(&mut out, e);
                    k = k + 1;
                    proof {
                        assert forall|x: Seq<char>| #[trigger]
                            strs(out@).contains(x) <==> (before + strs(
                                list@,
                            ).subrange(0, k as int)).contains(x) by {
                            lemma_push_contains(prev, e@, x);
                        }
                    }
                }
                proof {
                    assert(strs(list@).subrange(0, k as int) =~= strs(list@));
                }
            },
            _ => {
                proof {
                    assert(before + Seq::<Seq<char>>::empty() =~= before);
                }
            },
        }
        i = i + 1;
    }
    proof {
        assert(framework.agents@.subrange(0, i as int) =~= framework.agents@);
    }
    out
}

/// Does some inline agent allow the shell?
pub fn any_shell(framework: &Framework) -> (r: bool)
    ensures
        r == any_shell_of(framework.agents@),
{
    let mut i: usize = 0;
    while i < framework.agents.len()
        invariant
            i <= framework.agents@.len(),
            forall|j: int|
                0 <= j < i ==> !(#[trigger] framework.agents@[j] matches FrameworkAgentsItem::Agent(a)
                    && a.capabilities.shell),
        decreases framework.agents@.len() - i,
    {
        match &framework.agents[i] {
            FrameworkAgentsItem::Agent(a) => {
                if a.capabilities.shell {
                    return true;
                }
            },
            _ => {},
        }
        i = i + 1;
    }
    false
}

/// What the summary states of one spawn edge: the two ids and the two
/// grant sets.
pub struct EdgeSpec {
    /// Parent agent id.
    pub parent_id: Seq<char>,
    /// Child agent id.
    pub child_id: Seq<char>,
    /// The parent's grants.
    pub parent_caps: Seq<DeclView>,
    /// The child's declared grants.
    pub child_caps: Seq<DeclView>,
}

/// The edges from agent `a` to the inline agents its `spawns` list names,
/// in order; a name no inline agent carries gives no edge.
pub open spec fn child_edges(all: Seq<FrameworkAgentsItem>, a: Agent, ids: Seq<String>) -> Seq<
    EdgeSpec,
>
    decreases ids.len(),
{
    if ids.len() == 0 {
        Seq::empty()
    } else {
        child_edges(all, a, ids.drop_last()) + match first_inline(all, ids.last()@) {
            Some(c) => seq![
                EdgeSpec {
                    parent_id: a.id@,
                    child_id: ids.last()@,
                    parent_caps: caps_decls(a.capabilities),
                    child_caps: caps_decls(c.capabilities),
                },
            ],
            None => Seq::empty(),
        }
    }
}

/// Every agent-to-agent spawn edge of the inline agents in `items`, in
/// declaration order; children are looked up among `all`.
pub open spec fn spawn_edges_of(
    all: Seq<FrameworkAgentsItem>,
    items: Seq<FrameworkAgentsItem>,
) -> Seq<EdgeSpec>
    decreases items.len(),
{
    if items.len() == 0 {
        Seq::empty()
    } else {
        spawn_edges_of(all, items.drop_last()) + match items.last() {
            FrameworkAgentsItem::Agent(a) => child_edges(all, a, a.spawns@),
            _ => Seq::empty(),
        }
    }
}

/// The ids and grant sets an edge carries.
pub open spec fn edge_view(e: SpawnEdgeNarrowing) -> EdgeSpec {
    EdgeSpec {
        parent_id: e.parent_id@,
        child_id: e.child_id@,
        parent_caps: decl_views(e.parent_caps@),
        child_caps: decl_views(e.child_declared_caps@),
    }
}

/// The edge's decision is `narrow`'s: the child's set verbatim when the
/// parent covers all of it, else the message naming the first child
/// grant the parent does not cover.
pub open spec fn decided_by_narrowing(e: SpawnEdgeNarrowing) -> bool {
    match e.narrowed_caps {
        Ok(v) => all_covered(e.parent_caps@, e.child_declared_caps@) && v@
            == e.child_declared_caps@,
        Err(m) => exists|i: int|
            0 <= i < e.child_declared_caps@.len() && !some_grant_covers(
                e.parent_caps@,
                #[trigger] e.child_declared_caps@[i],
            ) && (forall|j: int|
                0 <= j < i ==> some_grant_covers(e.parent_caps@, #[trigger] e.child_declared_caps@[j]))
                && m@ == "proposed capability is not held by parent: "@ + narrowed_from_text(
                e.child_declared_caps@[i]@,
            ),
    }
}

fn find_inline_agent<'a>(framework: &'a Framework, agent_id: &str) -> (r: Option<&'a Agent>)
    ensures
        match r {
            Some(a) => first_inline(framework.agents@, agent_id@) == Some(*a),
            None => first_inline(framework.agents@, agent_id@) is None,
        },
{
    let mut i: usize = 0;
    proof {
        assert(framework.agents@.subrange(0, framework.agents@.len() as int) =~= framework.agents@);
    }
    while i < framework.agents.len()
        invariant
            i <= framework.agents@.len(),
            first_inline(framework.agents@, agent_id@) == first_inline(
                framework.agents@.subrange(i as int, framework.agents@.len() as int),
                agent_id@,
            ),
        decreases framework.agents@.len() - i,
    {
        let ghost rest = framework.agents@.subrange(i as int, framework.agents@.len() as int);
        proof {
            assert(rest.drop_first() =~= framework.agents@.subrange(i + 1, framework.agents@.len() as int));
        }
        match &framework.agents[i] {
            FrameworkAgentsItem::Agent(a) => {
                if str_eq(a.id.as_str(), agent_id) {
                    return Some(a);
                }
            },
            _ => {},
        }
        i = i + 1;
    }
    None
}

fn edge_for(parent: &Agent, child_id: &str, child: &Agent) -> (r: SpawnEdgeNarrowing)
    ensures
        edge_view(r) == (EdgeSpec {
            parent_id: parent.id@,
            child_id: child_id@,
            parent_caps: caps_decls(parent.capabilities),
            child_caps: caps_decls(child.capabilities),
        }),
        decided_by_narrowing(r),
{
    let parent_caps = capabilities_to_declarations(&parent.capabilities);
    let child_caps = capabilities_to_declarations(&child.capabilities);
    let narrowed = match narrow(parent_caps.as_slice(), child_caps.as_slice()) {
        Ok(v) => Ok(v),
        Err(e) => {
            let m = e.message();
            proof {
                let bad = match e {
                    NarrowingError::CapabilityNotHeldByParent { proposed } => *proposed,
                };
                let i = choose|i: int|
                    0 <= i < child_caps@.len() && bad == child_caps@[i] && !some_grant_covers(
                        parent_caps@,
                        #[trigger] child_caps@[i],
                    ) && forall|j: int|
                        0 <= j < i ==> some_grant_covers(parent_caps@, #[trigger] child_caps@[j]);
                assert(m@ == "proposed capability is not held by parent: "@ + narrowed_from_text(
                    child_caps@[i]@,
                ));
            }
            Err(m)
        },
    };
    let r = SpawnEdgeNarrowing {
        parent_id: owned(parent.id.as_str()),
        child_id: owned(child_id),
        parent_caps,
        child_declared_caps: child_caps,
        narrowed_caps: narrowed,
    };
    r
}

proof fn lemma_edge_push(s: Seq<SpawnEdgeNarrowing>, e: SpawnEdgeNarrowing)
    ensures
        s.push(e).map_values(|x: SpawnEdgeNarrowing| edge_view(x)) == s.map_values(
            |x: SpawnEdgeNarrowing| edge_view(x),
        ).push(edge_view(e)),
{
    assert(s.push(e).map_values(|x: SpawnEdgeNarrowing| edge_view(x)) =~= s.map_values(
        |x: SpawnEdgeNarrowing| edge_view(x),
    ).push(edge_view(e)));
}

/// The narrowing decision of every agent-to-agent spawn edge, in
/// declaration order.
pub fn spawn_edges(framework: &Framework) -> (r: Vec<SpawnEdgeNarrowing>)
    ensures
        r@.map_values(|x: SpawnEdgeNarrowing| edge_view(x)) == spawn_edges_of(
            framework.agents@,
            framework.agents@,
        ),
        forall|i: int| 0 <= i < r@.len() ==> decided_by_narrowing(#[trigger] r@[i]),
{
    let ghost all = framework.agents@;
    let mut out: Vec<SpawnEdgeNarrowing> = Vec::new();
    let mut i: usize = 0;
    proof {
        assert(out@.map_values(|x: SpawnEdgeNarrowing| edge_view(x)) =~= Seq::<EdgeSpec>::empty());
    }
    while i < framework.agents.len()
        invariant
            all == framework.agents@,
            i <= all.len(),
            out@.map_values(|x: SpawnEdgeNarrowing| edge_view(x)) == spawn_edges_of(
                all,
                all.subrange(0, i as int),
            ),
            forall|j: int| 0 <= j < out@.len() ==> decided_by_narrowing(#[trigger] out@[j]),
        decreases all.len() - i,
    {
        let ghost before = spawn_edges_of(all, all.subrange(0, i as int));
        proof {
            assert(all.subrange(0, i + 1).drop_last() =~= all.subrange(0, i as int));
        }
        match &framework.agents[i] {
            FrameworkAgentsItem::Agent(a) => {
                let mut k: usize = 0;
                proof {
                    assert(a.spawns@.subrange(0, 0) =~= Seq::<String>::empty());
                    assert(before + child_edges(all, *a, a.spawns@.subrange(0, 0)) =~= before);
                }
                while k < a.spawns.len()
                    invariant
                        all == framework.agents@,
                        k <= a.spawns@.len(),
                        out@.map_values(|x: SpawnEdgeNarrowing| edge_view(x)) == before
                            + child_edges(all, *a, a.spawns@.subrange(0, k as int)),
                        forall|j: int| 0 <= j < out@.len() ==> decided_by_narrowing(
                            #[trigger] out@[j],
                        ),
                    decreases a.spawns@.len() - k,
                {
                    let id = a.spawns[k].as_str();
                    let ghost prev = child_edges(all, *a, a.spawns@.subrange(0, k as int));
                    proof {
                        assert(a.spawns@.subrange(0, k + 1).drop_last() =~= a.spawns@.subrange(
                            0,
                            k as int,
                        ));
                    }
                    match find_inline_agent(framework, id) {
                        Some(child) => {
                            let e = edge_for(a, id, child);
                            proof {
                                lemma_edge_push(out@, e);
                            }
                            out.push(e);
                            proof {
                                assert(before + child_edges(all, *a, a.spawns@.subrange(0, k + 1))
                                    =~= (before + prev).push(edge_view(e)));
                            }
                        },
                        None => {
                            proof {
                                assert(before + child_edges(all, *a, a.spawns@.subrange(0, k + 1))
                                    =~= before + prev);
                            }
                        },
                    }
                    k = k + 1;
                }
                proof {
                    assert(a.spawns@.subrange(0, k as int) =~= a.spawns@);
                }
            },
            _ => {
                proof {
                    assert(before + Seq::<EdgeSpec>::empty() =~= before);
                }
            },
        }
        i = i + 1;
    }
    proof {
        assert(all.subrange(0, i as int) =~= all);
    }
    out
}

/// `r` is the capability summary of `fw`: distinct sorted read globs,
/// write globs and network hosts across the inline agents, whether any inline agent allows the shell, and the
/// narrowing decision of every agent-to-agent spawn edge.
pub open spec fn summarizes(fw: Framework, r: FrameworkCapabilitySummary) -> bool {
    &&& strictly_sorted(strs(r.files_read@))
    &&& strictly_sorted(strs(r.files_written@))
    &&& strictly_sorted(strs(r.network_hosts@))
    &&& forall|x: Seq<char>|
        #[trigger] strs(r.files_read@).contains(x) <==> listed(
            fw.agents@,
            CapabilityList::FilesRead,
        ).contains(x)
    &&& forall|x: Seq<char>|
        #[trigger] strs(r.files_written@).contains(x) <==> listed(
            fw.agents@,
            CapabilityList::FilesWritten,
        ).contains(x)
    &&& forall|x: Seq<char>|
        #[trigger] strs(r.network_hosts@).contains(x) <==> listed(
            fw.agents@,
            CapabilityList::NetworkHosts,
        ).contains(x)
    &&& r.any_shell == any_shell_of(fw.agents@)
    &&& r.spawn_edges@.map_values(|x: SpawnEdgeNarrowing| edge_view(x)) == spawn_edges_of(
        fw.agents@,
        fw.agents@,
    )
    &&& forall|i: int| 0 <= i < r.spawn_edges@.len() ==> decided_by_narrowing(#[trigger] r.spawn_edges@[i])
}

/// The whole-framework capability summary (see `summarizes`).
pub fn framework_capability_summary(fw: &Framework) -> (r: FrameworkCapabilitySummary)
    ensures
        summarizes(*fw, r),
{
    FrameworkCapabilitySummary {
        files_read: collect_sorted(fw, CapabilityList::FilesRead),
        files_written: collect_sorted(fw, CapabilityList::FilesWritten),
        network_hosts: collect_sorted(fw, CapabilityList::NetworkHosts),
        any_shell: any_shell(fw),
        spawn_edges: spawn_edges(fw),
    }
}

} // verus!
