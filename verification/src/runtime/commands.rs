//! The alerts the drone's command loop answers with: the guard on ad-hoc
//! queries, acknowledgements, and the notices for commands not yet
//! implemented.

use vstd::prelude::*;

use crate::runtime::drone::ProcessType;
use crate::runtime::sql::{is_select_only, select_only, truncate_for_log, utf8_len};
use crate::text::{concat, owned, push_char, push_str};

verus! {

/// The decimal digit character of a value below 10.
pub open spec fn digit_char(d: nat) -> char {
    (48 + d) as char
}

/// The decimal text of a number, without leading zeros.
pub open spec fn decimal(n: nat) -> Seq<char>
    decreases n,
{
    if n < 10 {
        seq![digit_char(n)]
    } else {
        decimal(n / 10).push(digit_char(n % 10))
    }
}

/// The decimal text of `n`.
pub fn decimal_string(n: u64) -> (r: String)
    ensures
        r@ == decimal(n as nat),
    decreases n,
{
    if n < 10 {
        let mut s = String::new();
        push_char(&mut s, ((48u64 + n) as u8) as char);
        proof {
            assert(s@ =~= seq![digit_char(n as nat)]);
        }
        s
    } else {
        let mut s = decimal_string(n / 10);
        push_char(&mut s, ((48u64 + n % 10) as u8) as char);
        s
    }
}

/// The text Rust prints for a boolean.
pub open spec fn bool_text(b: bool) -> Seq<char> {
    if b {
        "true"@
    } else {
        "false"@
    }
}

/// The alert a rejected query is answered with: the guard's reason and
/// the query cut to at most 80 bytes; none when the query is a single
/// SELECT.
pub fn query_rejection(sql: &str) -> (r: Option<String>)
    ensures
        r is None <==> select_only(sql@),
        r matches Some(m) ==> exists|cut: Seq<char>|
            m@ == "query_session_db rejected: only SELECT statements permitted; got: "@ + cut && cut
                == sql@.subrange(0, cut.len() as int) && utf8_len(cut) <= 80 && (cut.len()
                == sql@.len() || utf8_len(sql@.subrange(0, cut.len() as int + 1)) > 80),
{
    if is_select_only(sql) {
        None
    } else {
        let cut = truncate_for_log(sql, 80);
        Some(concat("query_session_db rejected: only SELECT statements permitted; got: ", cut))
    }
}

/// `stop_process not yet implemented (pid=<pid>, force=<force>)`.
pub fn stop_process_alert(pid: u32, force: bool) -> (r: String)
    ensures
        r@ == "stop_process not yet implemented (pid="@ + decimal(pid as nat) + ", force="@
            + bool_text(force) + ")"@,
{
    let mut s = owned("stop_process not yet implemented (pid=");
    let p = decimal_string(pid as u64);
    push_str(&mut s, p.as_str());
    push_str(&mut s, ", force=");
    push_str(
        &mut s,
        if force {
            "true"
        } else {
            "false"
        },
    );
    push_str(&mut s, ")");
    s
}

/// `set_activity_timeout not yet implemented (ms=<ms>)`.
pub fn activity_timeout_alert(ms: u64) -> (r: String)
    ensures
        r@ == "set_activity_timeout not yet implemented (ms="@ + decimal(ms as nat) + ")"@,
{
    let mut s = owned("set_activity_timeout not yet implemented (ms=");
    let d = decimal_string(ms);
    push_str(&mut s, d.as_str());
    push_str(&mut s, ")");
    s
}

/// The name a process type prints with.
pub open spec fn process_type_name(t: ProcessType) -> Seq<char> {
    match t {
        ProcessType::Agent => "Agent"@,
        ProcessType::Mcp => "Mcp"@,
        ProcessType::SkillSandbox => "SkillSandbox"@,
    }
}

/// `<op> not yet implemented (type=<process type>, command=<command>)`.
pub fn unsupported_alert(op: &str, process_type: ProcessType, command: &str) -> (r: String)
    ensures
        r@ == op@ + " not yet implemented (type="@ + process_type_name(process_type)
            + ", command="@ + command@ + ")"@,
{
    let mut s = owned(op);
    push_str(&mut s, " not yet implemented (type=");
    push_str(
        &mut s,
        match process_type {
            ProcessType::Agent => "Agent",
            ProcessType::Mcp => "Mcp",
            ProcessType::SkillSandbox => "SkillSandbox",
        },
    );
    push_str(&mut s, ", command=");
    push_str(&mut s, command);
    push_str(&mut s, ")");
    s
}

/// `write_signal ok: <signal id>`.
pub fn write_signal_ack(signal_id: &str) -> (r: String)
    ensures
        r@ == "write_signal ok: "@ + signal_id@,
{
    concat("write_signal ok: ", signal_id)
}

/// `unknown snapshot id: <snapshot id>`.
pub fn unknown_snapshot_alert(snapshot_id: &str) -> (r: String)
    ensures
        r@ == "unknown snapshot id: "@ + snapshot_id@,
{
    concat("unknown snapshot id: ", snapshot_id)
}

} // verus!
