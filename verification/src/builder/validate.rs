//! The validation report the canvas, the inspector and the tester share:
//! schema problems, unresolved references and failed spawn narrowings,
//! with the capability summary alongside.

use vstd::prelude::*;

use crate::builder::summary::{framework_capability_summary, summarizes, FrameworkCapabilitySummary, SpawnEdgeNarrowing};
use crate::framework::model::Framework;
use crate::framework::walker::{framework_gaps, gap_views, walk, GapView};
use crate::text::owned;

verus! {

/// One validation problem, keyed to the node it concerns.
#[derive(Clone, Debug)]
pub struct NodeError {
    /// The agent id a reference or narrowing problem concerns, or
    /// `(root)` when the whole document failed to parse.
    pub node_path: String,
    /// What is wrong.
    pub message: String,
}

/// The validation report; `ok` iff both error lists are empty.
#[derive(Debug)]
pub struct FrameworkValidationReport {
    /// Problems with the document's shape.
    pub schema_errors: Vec<NodeError>,
    /// Unresolved references and failed spawn narrowings.
    pub capability_errors: Vec<NodeError>,
    /// Both lists are empty.
    pub ok: bool,
    /// The capability summary; none when the document did not parse.
    pub capability_summary: Option<FrameworkCapabilitySummary>,
}

/// The (node, message) form of a node error.
pub open spec fn node_view(e: NodeError) -> (Seq<char>, Seq<char>) {
    (e.node_path@, e.message@)
}

/// The views of a list of node errors.
pub open spec fn node_views(v: Seq<NodeError>) -> Seq<(Seq<char>, Seq<char>)> {
    v.map_values(|e: NodeError| node_view(e))
}

/// One error per unresolved reference: the referring agent and the
/// suggested fix.
pub open spec fn gap_errors(gaps: Seq<GapView>) -> Seq<(Seq<char>, Seq<char>)> {
    gaps.map_values(|g: GapView| (g.agent_id, g.suggested_action))
}

/// One error per spawn edge whose narrowing failed: the child agent and
/// the narrowing message.
pub open spec fn narrowing_errors(edges: Seq<SpawnEdgeNarrowing>) -> Seq<(Seq<char>, Seq<char>)>
    decreases edges.len(),
{
    if edges.len() == 0 {
        Seq::empty()
    } else {
        narrowing_errors(edges.drop_last()) + match edges.last().narrowed_caps {
            Err(m) => seq![(edges.last().child_id@, m@)],
            Ok(_) => Seq::empty(),
        }
    }
}

/// Validates a framework document. `parsed` is the document read into a
/// `Framework`, or the parse error's message: a document that does not
/// parse yields a single `(root)` schema error and no summary; one that
/// does yields an error per unresolved reference and per failed spawn
/// narrowing, and its capability summary.
pub fn validate_framework(parsed: Result<Framework, String>) -> (r: FrameworkValidationReport)
    ensures
        match parsed {
            Err(msg) => {
                &&& node_views(r.schema_errors@) == seq![("(root)"@, msg@)]
                &&& r.capability_errors@.len() == 0
                &&& !r.ok
                &&& r.capability_summary is None
            },
            Ok(fw) => {
                &&& r.schema_errors@.len() == 0
                &&& r.capability_summary matches Some(s) && summarizes(fw, s) && node_views(
                    r.capability_errors@,
                ) == gap_errors(framework_gaps(fw)) + narrowing_errors(s.spawn_edges@)
                &&& r.ok == (r.capability_errors@.len() == 0)
            },
        },
{
    match parsed {
        Err(msg) => {
            let mut schema_errors: Vec<NodeError> = Vec::new();
            schema_errors.push(NodeError { node_path: owned("(root)"), message: msg });
            proof {
                assert(node_views(schema_errors@) =~= seq![("(root)"@, msg@)]);
            }
            FrameworkValidationReport {
                schema_errors,
                capability_errors: Vec::new(),
                ok: false,
                capability_summary: None,
            }
        },
        Ok(fw) => {
            let gaps = walk(&fw);
            let summary = framework_capability_summary(&fw);
            let mut errors: Vec<NodeError> = Vec::new();
            let mut i: usize = 0;
            while i < gaps.len()
                invariant
                    i <= gaps@.len(),
                    gap_views(gaps@) == framework_gaps(fw),
                    node_views(errors@) == gap_errors(framework_gaps(fw)).subrange(0, i as int),
                decreases gaps@.len() - i,
            {
                let g = &gaps[i];
                let e = NodeError {
                    node_path: owned(g.agent_id.as_str()),
                    message: owned(g.suggested_action.as_str()),
                };
                proof {
                    assert(framework_gaps(fw)[i as int] == gap_views(gaps@)[i as int]);
                    assert(framework_gaps(fw).len() == gaps@.len());
                    assert(node_view(e) == gap_errors(framework_gaps(fw))[i as int]);
                }
                let ghost before = errors@;
                errors.push(e);
                i = i + 1;
                proof {
                    assert(node_views(errors@) =~= node_views(before).push(node_view(e)));
                    assert(node_views(errors@) =~= gap_errors(framework_gaps(fw)).subrange(
                        0,
                        i as int,
                    ));
                }
            }
            let ghost gap_part = node_views(errors@);
            proof {
                assert(gap_part =~= gap_errors(framework_gaps(fw)));
            }
            let mut k: usize = 0;
            while k < summary.spawn_edges.len()
                invariant
                    k <= summary.spawn_edges@.len(),
                    gap_part == gap_errors(framework_gaps(fw)),
                    node_views(errors@) == gap_part + narrowing_errors(
                        summary.spawn_edges@.subrange(0, k as int),
                    ),
                decreases summary.spawn_edges@.len() - k,
            {
                let edge = &summary.spawn_edges[k];
                proof {
                    assert(summary.spawn_edges@.subrange(0, k + 1).drop_last()
                        =~= summary.spawn_edges@.subrange(0, k as int));
                }
                let ghost prev = node_views(errors@);
                match &edge.narrowed_caps {
                    Err(m) => {
                        errors.push(
                            NodeError { node_path: owned(edge.child_id.as_str()), message: owned(m.as_str()) },
                        );
                        proof {
                            assert(node_views(errors@) =~= prev.push((edge.child_id@, m@)));
                        }
                    },
                    Ok(_) => {},
                }
                k = k + 1;
                proof {
                    assert(node_views(errors@) =~= gap_part + narrowing_errors(
                        summary.spawn_edges@.subrange(0, k as int),
                    ));
                }
            }
            proof {
                assert(summary.spawn_edges@.subrange(0, k as int) =~= summary.spawn_edges@);
            }
            let ok = errors.len() == 0;
            FrameworkValidationReport {
                schema_errors: Vec::new(),
                capability_errors: errors,
                ok,
                capability_summary: Some(summary),
            }
        },
    }
}

} // verus!
