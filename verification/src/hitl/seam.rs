//! Values exchanged with the HITL seam: the prompt the runtime raises,
//! the user's choice, and the errors a wait or a resolution can end in.

use vstd::prelude::*;

use crate::runtime::commands::{decimal, decimal_string, digit_char};
use crate::text::{concat, owned, push_char, push_str};

verus! {

/// The user's choice in response to a prompt: one of the prompt's
/// options, or free text. Empty tokens are allowed.
#[derive(Clone, Debug)]
pub struct HitlChoice {
    /// The chosen token.
    pub token: String,
}

impl HitlChoice {
    /// A choice carrying `token`.
    pub fn new(token: &str) -> (r: Self)
        ensures
            r.token@ == token@,
    {
        HitlChoice { token: owned(token) }
    }
}

/// An outstanding HITL request.
#[derive(Clone, Debug)]
pub struct HitlPrompt {
    /// Correlation id round-tripped by the response.
    pub prompt_id: String,
    /// The question.
    pub question: String,
    /// Expected choice tokens; empty means free text.
    pub options: Vec<String>,
}

/// The digits of `f` thousandths after the point, trailing zeros
/// dropped (for `f` from 1 to 999).
pub open spec fn thousandths(f: nat) -> Seq<char> {
    let d1 = digit_char(f / 100);
    let d2 = digit_char((f / 10) % 10);
    let d3 = digit_char(f % 10);
    if f % 10 != 0 {
        seq![d1, d2, d3]
    } else if (f / 10) % 10 != 0 {
        seq![d1, d2]
    } else {
        seq![d1]
    }
}

/// What `{:?}` prints for `Duration::from_millis(ms)`: `0ns` at zero,
/// `<ms>ms` below a second, and from a second up the whole seconds, then
/// a point and the thousandths without trailing zeros when there are any,
/// then `s`.
pub open spec fn duration_debug(ms: u64) -> Seq<char> {
    if ms == 0 {
        "0ns"@
    } else if ms < 1000 {
        decimal(ms as nat) + "ms"@
    } else if ms % 1000 == 0 {
        decimal((ms / 1000) as nat) + "s"@
    } else {
        decimal((ms / 1000) as nat) + "."@ + thousandths((ms % 1000) as nat) + "s"@
    }
}

fn digit(d: u64) -> (c: char)
    requires
        d < 10,
    ensures
        c == digit_char(d as nat),
{
    ((48u64 + d) as u8) as char
}

/// The text of a wait of `ms` milliseconds, as `Duration` debug-prints it.
fn duration_text(ms: u64) -> (r: String)
    ensures
        r@ == duration_debug(ms),
{
    if ms == 0 {
        return owned("0ns");
    }
    if ms < 1000 {
        let mut s = decimal_string(ms);
        push_str(&mut s, "ms");
        return s;
    }
    let mut s = decimal_string(ms / 1000);
    let f = ms % 1000;
    if f != 0 {
        let ghost head = s@;
        push_str(&mut s, ".");
        let ghost dot = s@;
        push_char(&mut s, digit(f / 100));
        if f % 10 != 0 {
            push_char(&mut s, digit((f / 10) % 10));
            push_char(&mut s, digit(f % 10));
        } else if (f / 10) % 10 != 0 {
            push_char(&mut s, digit((f / 10) % 10));
        }
        proof {
            assert(s@ =~= dot + thousandths(f as nat));
        }
        push_str(&mut s, "s");
        proof {
            assert(s@ =~= head + "."@ + thousandths(f as nat) + "s"@);
        }
    } else {
        push_str(&mut s, "s");
    }
    s
}

/// Errors a seam wait or resolution ends in.
#[derive(Debug)]
pub enum HitlError {
    /// No wait is registered for this prompt id.
    NotFound(String),
    /// The wait was cancelled before a choice arrived.
    Cancelled,
    /// The waiter was gone when the choice was delivered.
    ReceiverDropped,
    /// The wait reached its deadline; carries the wait in milliseconds.
    TimedOut(u64),
}

/// The text an error displays.
pub open spec fn hitl_error_text(e: HitlError) -> Seq<char> {
    match e {
        HitlError::NotFound(p) => "no pending hitl prompt for prompt_id: "@ + p@,
        HitlError::Cancelled => "hitl channel cancelled before resolution"@,
        HitlError::ReceiverDropped => "hitl receiver dropped before resolve completed"@,
        HitlError::TimedOut(ms) => "hitl prompt timed out after "@ + duration_debug(ms),
    }
}

impl HitlError {
    /// The human-readable message for this error.
    pub fn message(&self) -> (r: String)
        ensures
            r@ == hitl_error_text(*self),
    {
        match self {
            HitlError::NotFound(p) => concat("no pending hitl prompt for prompt_id: ", p.as_str()),
            HitlError::Cancelled => owned("hitl channel cancelled before resolution"),
            HitlError::ReceiverDropped => owned("hitl receiver dropped before resolve completed"),
            HitlError::TimedOut(ms) => {
                let t = duration_text(*ms);
                concat("hitl prompt timed out after ", t.as_str())
            },
        }
    }
}

} // verus!
