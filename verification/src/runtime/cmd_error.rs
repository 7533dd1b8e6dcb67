//! The command-error surface the shell returns to the renderer.
//!
//! Every message-carrying variant holds a non-empty message: the
//! constructors substitute `(no message)` for an empty string so callers
//! never handle a validation error.

use vstd::prelude::*;

use crate::text::{concat, owned};

verus! {

/// A non-empty error message.
#[derive(Debug)]
pub struct ErrorMessage {
    text: String,
}

impl ErrorMessage {
    /// The message text.
    pub closed spec fn text(&self) -> Seq<char> {
        self.text@
    }

    /// The message is non-empty.
    pub closed spec fn well_formed(&self) -> bool {
        self.text@.len() > 0
    }

    /// A message holding `s`, or `None` when `s` is empty.
    pub fn try_from(s: &str) -> (r: Option<Self>)
        ensures
            r is Some <==> s@.len() > 0,
            r matches Some(m) ==> m.text() == s@ && m.well_formed(),
    {
        if s.unicode_len() == 0 {
            None
        } else {
            Some(ErrorMessage { text: owned(s) })
        }
    }

    /// The message text.
    pub fn as_str(&self) -> (r: &str)
        ensures
            r@ == self.text(),
    {
        self.text.as_str()
    }
}

/// The text an empty message is replaced with.
pub open spec fn message_or_placeholder(s: Seq<char>) -> Seq<char> {
    if s.len() == 0 {
        "(no message)"@
    } else {
        s
    }
}

/// Wraps `msg` as a message, substituting `(no message)` when it is
/// empty.
pub fn into_error_message(msg: &str) -> (r: ErrorMessage)
    ensures
        r.text() == message_or_placeholder(msg@),
        r.well_formed(),
{
    if msg.unicode_len() == 0 {
        let p = "(no message)";
        proof {
            reveal_strlit("(no message)");
        }
        ErrorMessage { text: owned(p) }
    } else {
        ErrorMessage { text: owned(msg) }
    }
}

/// An error returned by a shell command.
#[derive(Debug)]
pub enum CmdError {
    /// No API key is configured.
    SetupRequired,
    /// The model provider failed.
    Provider(ErrorMessage),
    /// The drone is unreachable.
    Drone(ErrorMessage),
    /// The key store failed.
    KeyStore(ErrorMessage),
    /// An internal error.
    Internal(ErrorMessage),
}

/// The text a command error displays.
pub open spec fn cmd_error_text(e: CmdError) -> Seq<char> {
    match e {
        CmdError::SetupRequired => "API key not set; call set_api_key first"@,
        CmdError::Provider(m) => "provider error: "@ + m.text(),
        CmdError::Drone(m) => "drone IPC unavailable: "@ + m.text(),
        CmdError::KeyStore(m) => "key store: "@ + m.text(),
        CmdError::Internal(m) => "internal: "@ + m.text(),
    }
}

impl CmdError {
    /// A provider error carrying `msg` (or the placeholder).
    pub fn provider(msg: &str) -> (r: Self)
        ensures
            r matches CmdError::Provider(m) && m.text() == message_or_placeholder(msg@),
    {
        CmdError::Provider(into_error_message(msg))
    }

    /// A drone error carrying `msg` (or the placeholder).
    pub fn drone(msg: &str) -> (r: Self)
        ensures
            r matches CmdError::Drone(m) && m.text() == message_or_placeholder(msg@),
    {
        CmdError::Drone(into_error_message(msg))
    }

    /// A key-store error carrying `msg` (or the placeholder).
    pub fn key_store(msg: &str) -> (r: Self)
        ensures
            r matches CmdError::KeyStore(m) && m.text() == message_or_placeholder(msg@),
    {
        CmdError::KeyStore(into_error_message(msg))
    }

    /// An internal error carrying `msg` (or the placeholder).
    pub fn internal(msg: &str) -> (r: Self)
        ensures
            r matches CmdError::Internal(m) && m.text() == message_or_placeholder(msg@),
    {
        CmdError::Internal(into_error_message(msg))
    }

    /// The message body; `None` for `SetupRequired`.
    pub fn message(&self) -> (r: Option<&str>)
        ensures
            match *self {
                CmdError::SetupRequired => r is None,
                CmdError::Provider(m) => r matches Some(s) && s@ == m.text(),
                CmdError::Drone(m) => r matches Some(s) && s@ == m.text(),
                CmdError::KeyStore(m) => r matches Some(s) && s@ == m.text(),
                CmdError::Internal(m) => r matches Some(s) && s@ == m.text(),
            },
    {
        match self {
            CmdError::SetupRequired => None,
            CmdError::Provider(m) | CmdError::Drone(m) | CmdError::KeyStore(m) | CmdError::Internal(
                m,
            ) => Some(m.as_str()),
        }
    }

    /// The human-readable text: a fixed prefix per variant followed by the
    /// message.
    pub fn to_display_string(&self) -> (r: String)
        ensures
            r@ == cmd_error_text(*self),
    {
        match self {
            CmdError::SetupRequired => owned("API key not set; call set_api_key first"),
            CmdError::Provider(m) => concat("provider error: ", m.as_str()),
            CmdError::Drone(m) => concat("drone IPC unavailable: ", m.as_str()),
            CmdError::KeyStore(m) => concat("key store: ", m.as_str()),
            CmdError::Internal(m) => concat("internal: ", m.as_str()),
        }
    }
}

} // verus!
