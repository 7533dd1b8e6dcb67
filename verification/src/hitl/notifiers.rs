//! Notifiers fired when a HITL trigger resolves: the registry built from
//! a framework's notifier list, the desktop notification text, and the
//! bell the terminal and sound notifiers emit.
//!
//! Notifier failures are non-fatal; the seam resolves on the user's
//! response or on timeout whichever notifiers fired.

use vstd::prelude::*;

use crate::hitl::policy::{HitlNotifierConfig, HitlNotifierType, HitlTriggerRef};
use crate::text::{concat, owned, push_char};

verus! {

/// What a notifier needs to surface a HITL request out-of-band.
#[derive(Clone, Debug)]
pub struct HitlNotifyEvent {
    /// Which trigger fired.
    pub trigger: HitlTriggerRef,
    /// Session id.
    pub session_id: String,
    /// Correlation id of the originating request.
    pub prompt_id: String,
    /// The user-facing question.
    pub question: String,
    /// Expected choice tokens; empty means free text.
    pub options: Vec<String>,
    /// Deadline, unix milliseconds.
    pub timeout_at_unix_ms: u64,
}

/// A notifier failure.
#[derive(Clone, Debug)]
pub enum NotifierError {
    /// Dispatch failed.
    Dispatch(String),
    /// Plugin notifiers are not supported.
    PluginNotSupported(String),
}

/// The text a notifier error displays.
pub open spec fn notifier_error_text(e: NotifierError) -> Seq<char> {
    match e {
        NotifierError::Dispatch(m) => "notifier dispatch failed: "@ + m@,
        NotifierError::PluginNotSupported(n) => "plugin notifier not supported in v0.1: "@ + n@,
    }
}

impl NotifierError {
    /// The human-readable message for this error.
    pub fn message(&self) -> (r: String)
        ensures
            r@ == notifier_error_text(*self),
    {
        match self {
            NotifierError::Dispatch(m) => concat("notifier dispatch failed: ", m.as_str()),
            NotifierError::PluginNotSupported(n) => concat(
                "plugin notifier not supported in v0.1: ",
                n.as_str(),
            ),
        }
    }
}

/// Per-notifier dispatch outcome.
#[derive(Debug)]
pub struct NotifierOutcome {
    /// Notifier type discriminator (e.g. `terminal_bell`).
    pub notifier_type: String,
    /// The dispatch result.
    pub result: Result<(), NotifierError>,
}

/// A built-in notifier.
#[derive(Clone, Copy, Debug, PartialEq, Eq, Structural)]
pub enum NotifierKind {
    /// ASCII bell on stderr.
    TerminalBell,
    /// Desktop notification.
    Desktop,
    /// Audible tone (the bell, for now).
    Sound,
}

/// The type discriminator a notifier reports.
pub open spec fn kind_type_name(kind: NotifierKind) -> Seq<char> {
    match kind {
        NotifierKind::TerminalBell => "terminal_bell"@,
        NotifierKind::Desktop => "desktop"@,
        NotifierKind::Sound => "sound"@,
    }
}

impl NotifierKind {
    /// The type discriminator this notifier reports.
    pub fn notifier_type(&self) -> (r: &'static str)
        ensures
            r@ == kind_type_name(*self),
    {
        match self {
            NotifierKind::TerminalBell => "terminal_bell",
            NotifierKind::Desktop => "desktop",
            NotifierKind::Sound => "sound",
        }
    }
}

/// The configured notifiers, built from a framework's notifier list.
pub struct NotifierRegistry {
    notifiers: Vec<NotifierKind>,
}

/// The plugin name an error reports: the configured name, or
/// `<unnamed>`.
pub open spec fn plugin_name(name: Option<String>) -> Seq<char> {
    match name {
        Some(n) => n@,
        None => "<unnamed>"@,
    }
}

/// What building from `configs` yields: the enabled built-ins in order, or
/// the name of the first enabled plugin entry.
pub open spec fn build_outcome(configs: Seq<HitlNotifierConfig>) -> Result<Seq<NotifierKind>, Seq<char>>
    decreases configs.len(),
{
    if configs.len() == 0 {
        Ok(Seq::empty())
    } else {
        match build_outcome(configs.drop_last()) {
            Err(e) => Err(e),
            Ok(kinds) => {
                let c = configs.last();
                if !c.enabled {
                    Ok(kinds)
                } else {
                    match c.type_ {
                        HitlNotifierType::TerminalBell => Ok(kinds.push(NotifierKind::TerminalBell)),
                        HitlNotifierType::Desktop => Ok(kinds.push(NotifierKind::Desktop)),
                        HitlNotifierType::Sound => Ok(kinds.push(NotifierKind::Sound)),
                        HitlNotifierType::Plugin => Err(plugin_name(c.name)),
                    }
                }
            },
        }
    }
}

impl NotifierRegistry {
    /// The notifiers, in registration order.
    pub closed spec fn kinds(&self) -> Seq<NotifierKind> {
        self.notifiers@
    }

    /// A registry with no notifiers.
    pub fn empty() -> (r: Self)
        ensures
            r.kinds() == Seq::<NotifierKind>::empty(),
    {
        NotifierRegistry { notifiers: Vec::new() }
    }

    /// Builds the registry from a framework's notifier list. Disabled
    /// entries are skipped; an enabled plugin entry is rejected with
    /// `PluginNotSupported` naming it.
    pub fn build(configs: &[HitlNotifierConfig]) -> (r: Result<Self, NotifierError>)
        ensures
            match build_outcome(configs@) {
                Ok(kinds) => r matches Ok(reg) && reg.kinds() == kinds,
                Err(name) => r matches Err(NotifierError::PluginNotSupported(n)) && n@ == name,
            },
    {
        let mut notifiers: Vec<NotifierKind> = Vec::new();
        let mut i: usize = 0;
        while i < configs.len()
            invariant
                i <= configs@.len(),
                build_outcome(configs@.subrange(0, i as int)) == Ok::<Seq<NotifierKind>, Seq<char>>(
                    notifiers@,
                ),
            decreases configs@.len() - i,
        {
            proof {
                assert(configs@.subrange(0, i + 1).drop_last() =~= configs@.subrange(0, i as int));
            }
            let cfg = &configs[i];
            if cfg.enabled {
                match cfg.type_ {
                    HitlNotifierType::TerminalBell => notifiers.push(NotifierKind::TerminalBell),
                    HitlNotifierType::Sound => notifiers.push(NotifierKind::Sound),
                    HitlNotifierType::Desktop => notifiers.push(NotifierKind::Desktop),
                    HitlNotifierType::Plugin => {
                        let name = match &cfg.name {
                            Some(n) => n.clone(),
                            None => owned("<unnamed>"),
                        };
                        proof {
                            lemma_error_persists(configs@, i as int + 1);
                        }
                        return Err(NotifierError::PluginNotSupported(name));
                    },
                }
            }
            i = i + 1;
        }
        proof {
            assert(configs@.subrange(0, configs@.len() as int) =~= configs@);
        }
        Ok(NotifierRegistry { notifiers })
    }

    /// Number of configured notifiers.
    pub fn len(&self) -> (r: usize)
        ensures
            r == self.kinds().len(),
    {
        self.notifiers.len()
    }

    /// No notifiers are configured.
    pub fn is_empty(&self) -> (r: bool)
        ensures
            r == (self.kinds().len() == 0),
    {
        self.notifiers.len() == 0
    }

    /// Adds a notifier without going through `build`; for tests that
    /// observe dispatch alongside the built-in notifiers.
    pub fn push_notifier_for_test(&mut self, notifier: NotifierKind)
        ensures
            final(self).kinds() == old(self).kinds().push(notifier),
    {
        self.notifiers.push(notifier);
    }

    /// The notifiers, in registration order.
    pub fn notifier_kinds(&self) -> (r: &[NotifierKind])
        ensures
            r@ == self.kinds(),
    {
        self.notifiers.as_slice()
    }
}

/// Once a prefix of the list fails to build, every longer prefix fails
/// with the same name.
proof fn lemma_error_persists(configs: Seq<HitlNotifierConfig>, k: int)
    requires
        0 < k <= configs.len(),
        build_outcome(configs.subrange(0, k)) is Err,
    ensures
        build_outcome(configs) == build_outcome(configs.subrange(0, k)),
    decreases configs.len() - k,
{
    if k == configs.len() {
        assert(configs.subrange(0, k) =~= configs);
    } else {
        assert(configs.subrange(0, k + 1).drop_last() =~= configs.subrange(0, k));
        lemma_error_persists(configs, k + 1);
    }
}

/// The first `max` characters of `s`, followed by `…` when `s` is longer.
pub open spec fn truncated(s: Seq<char>, max: nat) -> Seq<char> {
    if s.len() > max {
        s.subrange(0, max as int).push('…')
    } else {
        s
    }
}

/// Truncates `s` to `max_chars` characters, appending `…` when it cuts.
pub fn truncate(s: &str, max_chars: usize) -> (r: String)
    ensures
        r@ == truncated(s@, max_chars as nat),
{
    let n = s.unicode_len();
    if n <= max_chars {
        return owned(s);
    }
    let mut acc = owned(s.substring_char(0, max_chars));
    push_char(&mut acc, '…');
    acc
}

/// The title of every HITL desktop notification.
pub open spec fn notification_title() -> Seq<char> {
    "Agent Runtime — HITL"@
}

/// The title and body a desktop notification shows: a fixed title, and
/// the question truncated to 240 characters.
pub fn compose_title_body(event: &HitlNotifyEvent) -> (r: (String, String))
    ensures
        r.0@ == notification_title(),
        r.1@ == truncated(event.question@, 240),
{
    let title = owned("Agent Runtime — HITL");
    let body = truncate(event.question.as_str(), 240);
    (title, body)
}

/// The ASCII bell byte.
pub const BEL: u8 = 7;

/// Calls `std::io::Write::write_all`, rendering an error as its message.
#[verifier::external_body]
fn write_all_bytes<W: std::io::Write>(w: &mut W, bytes: &[u8]) -> (r: Result<(), String>) {
    w.write_all(bytes).map_err(|e| e.to_string())
}

/// Calls `std::io::Write::flush`, rendering an error as its message.
#[verifier::external_body]
fn flush_writer<W: std::io::Write>(w: &mut W) -> (r: Result<(), String>) {
    w.flush().map_err(|e| e.to_string())
}

/// The message of a failed bell write.
pub open spec fn bell_failure(m: Seq<char>) -> Seq<char> {
    "stderr write failed: "@ + m
}

/// The bytes a bell notifier writes: one BEL.
pub fn bell_bytes() -> (r: [u8; 1])
    ensures
        r@ == seq![BEL],
{
    [BEL]
}

/// `r` is the result of a bell given how the write went and, when it
/// succeeded, how the flush went: `Ok` when both succeed, else `Dispatch`
/// with the first error's text behind the failure prefix.
pub open spec fn is_bell_outcome(
    write: Result<(), String>,
    flush: Option<Result<(), String>>,
    r: Result<(), NotifierError>,
) -> bool {
    match write {
        Err(e) => r matches Err(NotifierError::Dispatch(m)) && m@ == bell_failure(e@),
        Ok(()) => match flush {
            Some(Err(e)) => r matches Err(NotifierError::Dispatch(m)) && m@ == bell_failure(e@),
            _ => r is Ok,
        },
    }
}

/// The result of a bell from the outcome of the write and, when the
/// write succeeded, of the flush (`None`: the flush was not attempted).
pub fn bell_outcome(write: Result<(), String>, flush: Option<Result<(), String>>) -> (r: Result<
    (),
    NotifierError,
>)
    ensures
        is_bell_outcome(write, flush, r),
{
    let failed = match write {
        Err(e) => Some(e),
        Ok(()) => match flush {
            Some(Err(e)) => Some(e),
            _ => None,
        },
    };
    match failed {
        None => Ok(()),
        Some(e) => {
            let m = concat("stderr write failed: ", e.as_str());
            Err(NotifierError::Dispatch(m))
        },
    }
}

/// Writes the bell bytes to `w` and, when that succeeds, flushes it. The
/// result is what `bell_outcome` gives for how the writer answered: the
/// flush is attempted exactly when the write succeeded.
pub fn emit_bell_with<W: std::io::Write>(w: &mut W) -> (r: Result<(), NotifierError>)
    ensures
        exists|write: Result<(), String>, flush: Option<Result<(), String>>|
            (flush is None <==> write is Err) && is_bell_outcome(write, flush, r),
{
    let bel = bell_bytes();
    let write = write_all_bytes(w, &bel);
    let flush = match write {
        Ok(()) => Some(flush_writer(w)),
        Err(_) => None,
    };
    let r = bell_outcome(write, flush);
    proof {
        assert(flush is None <==> write is Err);
        assert(is_bell_outcome(write, flush, r));
    }
    r
}

/// Terminal-bell notifier: writes the bell to stderr.
pub struct TerminalBell;

impl TerminalBell {
    /// A new notifier; it carries no state.
    pub fn new() -> (r: Self)
        ensures
            r == TerminalBell,
    {
        TerminalBell
    }

    /// The type discriminator, `terminal_bell`.
    pub fn notifier_type(&self) -> (r: &'static str)
        ensures
            r@ == kind_type_name(NotifierKind::TerminalBell),
    {
        "terminal_bell"
    }
}

impl Default for TerminalBell {
    /// The same notifier as `new`.
    fn default() -> (r: Self)
        ensures
            r == TerminalBell,
    {
        TerminalBell
    }
}

/// Desktop notifier: shows the composed title and body through the host's
/// notification service. Delivery is wired by the host application; this
/// type carries the notifier's identity.
pub struct Desktop;

impl Desktop {
    /// A new notifier; it carries no state.
    pub fn new() -> (r: Self)
        ensures
            r == Desktop,
    {
        Desktop
    }

    /// The type discriminator, `desktop`.
    pub fn notifier_type(&self) -> (r: &'static str)
        ensures
            r@ == kind_type_name(NotifierKind::Desktop),
    {
        "desktop"
    }
}

impl Default for Desktop {
    /// The same notifier as `new`.
    fn default() -> (r: Self)
        ensures
            r == Desktop,
    {
        Desktop
    }
}

/// Sound notifier: for now the same bell as the terminal notifier, under
/// its own type discriminator.
pub struct Sound;

impl Sound {
    /// A new notifier; it carries no state.
    pub fn new() -> (r: Self)
        ensures
            r == Sound,
    {
        Sound
    }

    /// The type discriminator, `sound`.
    pub fn notifier_type(&self) -> (r: &'static str)
        ensures
            r@ == kind_type_name(NotifierKind::Sound),
    {
        "sound"
    }
}

impl Default for Sound {
    /// The same notifier as `new`.
    fn default() -> (r: Self)
        ensures
            r == Sound,
    {
        Sound
    }
}

/// Writes the bell byte for the sound notifier; see [`emit_bell_with`].
pub fn emit_sound_with<W: std::io::Write>(w: &mut W) -> (r: Result<(), NotifierError>)
    ensures
        exists|write: Result<(), String>, flush: Option<Result<(), String>>|
            (flush is None <==> write is Err) && is_bell_outcome(write, flush, r),
{
    emit_bell_with(w)
}

} // verus!
