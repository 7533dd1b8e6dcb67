//! Snapshot integrity and session recovery: the hash a snapshot's state
//! is stored with, how task statuses read back after a crash, and which
//! tool invocations are left uncertain.

use vstd::prelude::*;

use sha2::Digest;
use vstd::string::StringSliceAdditionalSpecFns;

use crate::runtime::projection::{event_type_of, text_or_empty, Payload, PayloadValue};
use crate::text::{owned, push_char, str_eq};

verus! {

/// The SHA-256 digest of a byte string.
pub uninterp spec fn sha256_bytes(data: Seq<u8>) -> Seq<u8>;

/// Calls `sha2::Sha256::digest`. Claims that the digest is a function of
/// the input bytes (named `sha256_bytes`) and is 32 bytes long, the
/// output size `Sha256` declares.
#[verifier::external_body]
fn sha256_digest(data: &[u8]) -> (r: Vec<u8>)
    ensures
        r@ == sha256_bytes(data@),
        r@.len() == 32,
{
    sha2::Sha256::digest(data).to_vec()
}

/// The lowercase hexadecimal digit of a value below 16.
pub open spec fn hex_digit(d: u8) -> char {
    if d < 10 {
        (48 + d) as char
    } else {
        (87 + d) as char
    }
}

/// Lowercase hexadecimal of a byte string, two digits per byte.
pub open spec fn hex_of(bytes: Seq<u8>) -> Seq<char>
    decreases bytes.len(),
{
    if bytes.len() == 0 {
        Seq::empty()
    } else {
        hex_of(bytes.drop_last()) + seq![
            hex_digit(bytes.last() / 16),
            hex_digit(bytes.last() % 16),
        ]
    }
}

fn hex_char(d: u8) -> (r: char)
    requires
        d < 16,
    ensures
        r == hex_digit(d),
{
    if d < 10 {
        (48u8 + d) as char
    } else {
        (87u8 + d) as char
    }
}

proof fn lemma_hex_len(bytes: Seq<u8>)
    ensures
        hex_of(bytes).len() == 2 * bytes.len(),
    decreases bytes.len(),
{
    if bytes.len() > 0 {
        lemma_hex_len(bytes.drop_last());
    }
}

/// Lowercase hexadecimal of a byte string.
pub fn hex_lower(bytes: &[u8]) -> (r: String)
    ensures
        r@ == hex_of(bytes@),
        r@.len() == 2 * bytes@.len(),
{
    let mut out = String::new();
    let mut i: usize = 0;
    while i < bytes.len()
        invariant
            i <= bytes@.len(),
            out@ == hex_of(bytes@.subrange(0, i as int)),
        decreases bytes@.len() - i,
    {
        let b = bytes[i];
        proof {
            assert(bytes@.subrange(0, i + 1).drop_last() =~= bytes@.subrange(0, i as int));
        }
        push_char(&mut out, hex_char(b / 16));
        push_char(&mut out, hex_char(b % 16));
        i = i + 1;
        proof {
            assert(out@ =~= hex_of(bytes@.subrange(0, i as int)));
        }
    }
    proof {
        assert(bytes@.subrange(0, bytes@.len() as int) =~= bytes@);
        lemma_hex_len(bytes@);
    }
    out
}

/// The hash a snapshot's serialized state is stored with: the lowercase
/// hex of the SHA-256 digest of its UTF-8 bytes, 64 characters.
pub fn sha256_hex(data: &str) -> (r: String)
    ensures
        r@ == hex_of(sha256_bytes(data.spec_bytes())),
        r@.len() == 64,
{
    let digest = sha256_digest(data.as_bytes());
    hex_lower(digest.as_slice())
}

/// The status a task reads back with after a crash: a task that was
/// running is pending again (its agent process is gone); any other
/// status is kept.
pub open spec fn recovered_status(raw: Seq<char>) -> Seq<char> {
    if raw == "running"@ {
        "pending"@
    } else {
        raw
    }
}

/// The status a task reads back with after a crash.
pub fn normalized_task_status(raw: &str) -> (r: String)
    ensures
        r@ == recovered_status(raw@),
{
    if str_eq(raw, "running") {
        owned("pending")
    } else {
        owned(raw)
    }
}

/// A tool signal's payload reports a result of `tool` run by `agent`.
pub open spec fn reports_result(p: Seq<(String, PayloadValue)>, agent: Seq<char>, tool: Seq<char>) -> bool {
    &&& event_type_of(p) == "tool_result"@
    &&& text_or_empty(p, "agent_id"@) == agent
    &&& text_or_empty(p, "tool_name"@) == tool
}

/// Some signal among `rows` reports a result of `tool` run by `agent`.
pub open spec fn has_result(rows: Seq<(String, Payload)>, agent: Seq<char>, tool: Seq<char>) -> bool {
    exists|j: int| 0 <= j < rows.len() && reports_result(#[trigger] rows[j].1.fields@, agent, tool)
}

/// The ids, in order, of the `tool_invoked` signals among `prefix` that
/// no signal in `all` reports a result for (same agent, same tool).
pub open spec fn uncertain_ids(all: Seq<(String, Payload)>, prefix: Seq<(String, Payload)>) -> Seq<
    Seq<char>,
>
    decreases prefix.len(),
{
    if prefix.len() == 0 {
        Seq::empty()
    } else {
        let p = prefix.last().1.fields@;
        uncertain_ids(all, prefix.drop_last()) + if event_type_of(p) == "tool_invoked"@ && !has_result(
            all,
            text_or_empty(p, "agent_id"@),
            text_or_empty(p, "tool_name"@),
        ) {
            seq![prefix.last().0@]
        } else {
            Seq::empty()
        }
    }
}

fn find_result(rows: &Vec<(String, Payload)>, agent: &str, tool: &str) -> (r: bool)
    ensures
        r == has_result(rows@, agent@, tool@),
{
    let mut i: usize = 0;
    while i < rows.len()
        invariant
            i <= rows@.len(),
            forall|j: int| 0 <= j < i ==> !reports_result(#[trigger] rows@[j].1.fields@, agent@, tool@),
        decreases rows@.len() - i,
    {
        let p = &rows[i].1;
        let et = p.text_or_empty("type");
        if str_eq(et.as_str(), "tool_result") {
            let a = p.text_or_empty("agent_id");
            let t = p.text_or_empty("tool_name");
            if str_eq(a.as_str(), agent) && str_eq(t.as_str(), tool) {
                proof {
                    assert(reports_result(rows@[i as int].1.fields@, agent@, tool@));
                }
                return true;
            }
        }
        i = i + 1;
    }
    false
}

/// The tool invocations a recovered session is uncertain about: the ids,
/// in signal order, of `tool_invoked` signals for which no `tool_result`
/// from the same agent and tool appears among the session's tool
/// signals. Each row is a signal id and its payload.
pub fn uncertain_tool_invocations(rows: &Vec<(String, Payload)>) -> (r: Vec<String>)
    ensures
        r@.map_values(|s: String| s@) == uncertain_ids(rows@, rows@),
{
    let mut out: Vec<String> = Vec::new();
    let mut k: usize = 0;
    proof {
        assert(out@.map_values(|s: String| s@) =~= uncertain_ids(rows@, rows@.subrange(0, 0)));
    }
    while k < rows.len()
        invariant
            k <= rows@.len(),
            out@.map_values(|s: String| s@) == uncertain_ids(rows@, rows@.subrange(0, k as int)),
        decreases rows@.len() - k,
    {
        proof {
            assert(rows@.subrange(0, k + 1).drop_last() =~= rows@.subrange(0, k as int));
        }
        let p = &rows[k].1;
        let et = p.text_or_empty("type");
        if str_eq(et.as_str(), "tool_invoked") {
            let agent = p.text_or_empty("agent_id");
            let tool = p.text_or_empty("tool_name");
            if !find_result(rows, agent.as_str(), tool.as_str()) {
                out.push(owned(rows[k].0.as_str()));
            }
        }
        k = k + 1;
        proof {
            assert(out@.map_values(|s: String| s@) =~= uncertain_ids(
                rows@,
                rows@.subrange(0, k as int),
            ));
        }
    }
    proof {
        assert(rows@.subrange(0, k as int) =~= rows@);
    }
    out
}

/// Recovery resets only running tasks: a task that was running reads
/// back as pending, and every other status (done, skipped, failed,
/// escalated, pending) reads back unchanged.
pub proof fn lemma_recovery_only_resets_running(raw: Seq<char>)
    ensures
        raw == "running"@ ==> recovered_status(raw) == "pending"@,
        raw != "running"@ ==> recovered_status(raw) == raw,
{
}

} // verus!
