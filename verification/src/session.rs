//! The session driver: one linear install operation.
//!
//! The sequence is fixed, with no backtracking: probe the package path,
//! set the UI level, optionally enable logging, register the callback
//! bridge with the full category filter, issue the blocking install, and
//! map its final status. The driver is a state machine: the caller
//! performs each returned [`Action`] — the native calls and the local
//! path probe — and feeds the raw outcome back as the next [`Event`].
//! A missing package path ends the session with a purely local error
//! before any engine-facing action has been produced.

use vstd::prelude::*;
use crate::Error;
use crate::fetch::ERROR_SUCCESS;
use crate::message::{UILevel, spec_message_filter, message_filter};

verus! {

/// Whether the text holds an embedded NUL terminator, which the engine's
/// C strings cannot represent.
pub open spec fn contains_nul(s: Seq<char>) -> bool {
    exists|i: int| 0 <= i < s.len() && s[i] == '\0'
}

/// Checks a string for an embedded NUL terminator.
pub fn has_nul(s: &str) -> (r: bool)
    ensures
        r == contains_nul(s@),
{
    let len = s.unicode_len();
    let mut i: usize = 0;
    while i < len
        invariant
            i <= len,
            len == s@.len(),
            forall|j: int| 0 <= j < i ==> s@[j] != '\0',
        decreases len - i,
    {
        if s.get_char(i) == '\0' {
            assert(contains_nul(s@)) by {
                assert(s@[i as int] == '\0');
            }
            return true;
        }
        i += 1;
    }
    false
}

/// The number of `=` characters in the text.
pub open spec fn spec_eq_count(s: Seq<char>) -> nat
    decreases s.len(),
{
    if s.len() == 0 {
        0
    } else {
        spec_eq_count(s.drop_last()) + (if s.last() == '=' {
            1nat
        } else {
            0nat
        })
    }
}

/// A well-formed `PROPERTY=VALUE` token: non-empty, with exactly one `=`.
pub open spec fn spec_valid_property(s: Seq<char>) -> bool {
    s.len() > 0 && spec_eq_count(s) == 1
}

/// Validates one `PROPERTY=VALUE` token: it must be non-empty and hold
/// exactly one `=`. `A=` and `A=1` are accepted; `A`, `A=1=2` and the
/// empty token are rejected.
pub fn validate_property(value: &str) -> (r: bool)
    ensures
        r == spec_valid_property(value@),
{
    let len = value.unicode_len();
    if len == 0 {
        return false;
    }
    let mut count: usize = 0;
    let mut i: usize = 0;
    while i < len
        invariant
            i <= len,
            len == value@.len(),
            count == spec_eq_count(value@.take(i as int)),
            count <= i,
        decreases len - i,
    {
        proof {
            assert(value@.take(i + 1).drop_last() =~= value@.take(i as int));
        }
        if value.get_char(i) == '=' {
            count = count + 1;
        }
        i += 1;
    }
    proof {
        assert(value@.take(len as int) =~= value@);
    }
    count == 1
}

/// The tokens joined with single spaces, original order preserved.
pub open spec fn spec_join_spaces(parts: Seq<Seq<char>>) -> Seq<char>
    decreases parts.len(),
{
    if parts.len() == 0 {
        Seq::empty()
    } else if parts.len() == 1 {
        parts[0]
    } else {
        spec_join_spaces(parts.drop_last()) + seq![' '] + parts.last()
    }
}

/// Joins the caller-supplied `PROPERTY=VALUE` tokens into the legacy
/// command-line argument: a single-space join that preserves the input
/// order.
pub fn command_line(properties: &Vec<String>) -> (r: String)
    ensures
        r@ == spec_join_spaces(properties.deep_view()),
{
    let ghost parts = properties.deep_view();
    let mut out = String::new();
    let mut i: usize = 0;
    while i < properties.len()
        invariant
            i <= properties.len(),
            parts == properties.deep_view(),
            parts.len() == properties.len(),
            out@ == spec_join_spaces(parts.take(i as int)),
        decreases properties.len() - i,
    {
        if i > 0 {
            out.append(" ");
        }
        out.append(properties[i].as_str());
        proof {
            reveal_strlit(" ");
            assert(" "@ =~= seq![' ']);
            assert(parts.take(i + 1).drop_last() =~= parts.take(i as int));
            assert(parts[i as int] == properties@[i as int]@);
            if i == 0 {
                assert(out@ =~= parts.take(1)[0]);
            } else {
                assert(out@ =~= spec_join_spaces(parts.take(i as int)) + seq![' ']
                    + parts[i as int]);
            }
        }
        i += 1;
    }
    proof {
        assert(parts.take(properties.len() as int) =~= parts);
    }
    out
}

/// The final mapping of the blocking install call's status: zero is
/// success; any other status is that engine error.
pub open spec fn spec_map_status(status: u32) -> Result<(), Error> {
    if status == ERROR_SUCCESS {
        Ok(())
    } else {
        Err(Error::EngineCode(status))
    }
}

/// Maps the install call's final status to the session outcome.
pub fn map_status(status: u32) -> (r: Result<(), Error>)
    ensures
        r == spec_map_status(status),
{
    if status == ERROR_SUCCESS {
        Ok(())
    } else {
        Err(Error::EngineCode(status))
    }
}

/// Where the linear session stands: which outcome it awaits next.
#[derive(Debug, Clone, Copy, PartialEq, Eq, Structural)]
pub enum SessionState {
    AwaitingPathCheck,
    AwaitingUiSet,
    AwaitingLogResult,
    AwaitingRegisterResult,
    AwaitingInstallResult,
    Done,
}

/// What the caller must do next. Only `SetUi`, `EnableLog`, `Register`
/// and `Install` reach the engine; `Finish` means the session is over and
/// no further call is made.
#[derive(Debug, PartialEq)]
pub enum Action {
    /// Set the engine's internal UI to this level code.
    SetUi(u32),
    /// Enable verbose engine logging to this path.
    EnableLog(String),
    /// Register the callback bridge with this category filter mask.
    Register(u32),
    /// Issue the blocking install of the package at the first path with
    /// the second string as the command line.
    Install(String, String),
    /// The session is over with this outcome; no further call is made.
    Finish(Result<(), Error>),
}

/// The raw outcome of the last action, fed back by the caller.
#[derive(Debug, Clone, Copy, PartialEq, Eq, Structural)]
pub enum Event {
    /// Whether the package path exists (a local probe, not a native call).
    PathExists(bool),
    /// The UI level was set; the native call returns no status.
    UiSet,
    /// The raw status a native call returned.
    StatusCode(u32),
}

/// One install operation's driver. Configuration is fixed at creation;
/// the state advances only through [`Session::step`].
pub struct Session {
    /// The package path handed to the install call.
    pub path: String,
    /// The log path, when verbose logging was requested.
    pub log: Option<String>,
    /// The UI level set before anything else.
    pub ui: UILevel,
    /// The `PROPERTY=VALUE` tokens, joined into the command line.
    pub properties: Vec<String>,
    /// Which outcome the session awaits.
    pub state: SessionState,
}

/// The registration step: the next action registers the bridge with the
/// full filter, and the session awaits the registration status.
pub open spec fn spec_registers(s1: Session, a: Action) -> bool {
    s1.state == SessionState::AwaitingRegisterResult && a == Action::Register(
        spec_message_filter(),
    )
}

/// The install step: a path or command line that a C string cannot carry
/// fails locally; otherwise the next action is the blocking install with
/// the joined command line, and the session awaits its status.
pub open spec fn spec_installs(s0: Session, s1: Session, a: Action) -> bool {
    if contains_nul(s0.path@) || contains_nul(spec_join_spaces(s0.properties.deep_view())) {
        s1.state == SessionState::Done && a == Action::Finish(
            Err::<(), Error>(Error::UnrepresentableString),
        )
    } else {
        s1.state == SessionState::AwaitingInstallResult && (a matches Action::Install(p, c)
            && p@ == s0.path@ && c@ == spec_join_spaces(s0.properties.deep_view()))
    }
}

impl Session {
    /// Begins a session over the given configuration. The first thing the
    /// session asks for is the local path probe: no engine-facing action
    /// is produced before its answer.
    pub fn new(path: String, log: Option<String>, ui: UILevel, properties: Vec<String>) -> (s:
        Session)
        ensures
            s.path == path,
            s.log == log,
            s.ui == ui,
            s.properties == properties,
            s.state == SessionState::AwaitingPathCheck,
    {
        Session { path, log, ui, properties, state: SessionState::AwaitingPathCheck }
    }

    /// Advances the session by one step. The event must answer what the
    /// session awaits; a finished session takes no further event. A
    /// missing package path finishes the session at once with the local
    /// `PathNotFound` error, so no engine-facing action is ever produced
    /// for it; every native failure status finishes the session with that
    /// engine error.
    pub fn step(&mut self, event: Event) -> (a: Action)
        requires
            match old(self).state {
                SessionState::AwaitingPathCheck => event is PathExists,
                SessionState::AwaitingUiSet => event is UiSet,
                SessionState::AwaitingLogResult => event is StatusCode,
                SessionState::AwaitingRegisterResult => event is StatusCode,
                SessionState::AwaitingInstallResult => event is StatusCode,
                SessionState::Done => false,
            },
        ensures
            final(self).path == old(self).path,
            final(self).log == old(self).log,
            final(self).ui == old(self).ui,
            final(self).properties == old(self).properties,
            ({
                let s0 = *old(self);
                let s1 = *final(self);
                match (s0.state, event) {
                    (SessionState::AwaitingPathCheck, Event::PathExists(exists_)) => if exists_ {
                        s1.state == SessionState::AwaitingUiSet && a == Action::SetUi(
                            s0.ui.spec_code(),
                        )
                    } else {
                        s1.state == SessionState::Done && a == Action::Finish(
                            Err::<(), Error>(Error::PathNotFound),
                        )
                    },
                    (SessionState::AwaitingUiSet, Event::UiSet) => match s0.log {
                        Some(lp) => if contains_nul(lp@) {
                            s1.state == SessionState::Done && a == Action::Finish(
                                Err::<(), Error>(Error::UnrepresentableString),
                            )
                        } else {
                            s1.state == SessionState::AwaitingLogResult && (
                            a matches Action::EnableLog(p) && p@ == lp@)
                        },
                        None => spec_registers(s1, a),
                    },
                    (SessionState::AwaitingLogResult, Event::StatusCode(c)) => if c
                        == ERROR_SUCCESS {
                        spec_registers(s1, a)
                    } else {
                        s1.state == SessionState::Done && a == Action::Finish(
                            Err::<(), Error>(Error::EngineCode(c)),
                        )
                    },
                    (SessionState::AwaitingRegisterResult, Event::StatusCode(c)) => if c
                        == ERROR_SUCCESS {
                        spec_installs(s0, s1, a)
                    } else {
                        s1.state == SessionState::Done && a == Action::Finish(
                            Err::<(), Error>(Error::EngineCode(c)),
                        )
                    },
                    (SessionState::AwaitingInstallResult, Event::StatusCode(c)) => s1.state
                        == SessionState::Done && a == Action::Finish(spec_map_status(c)),
                    _ => false,
                }
            }),
    {
        match self.state {
            SessionState::AwaitingPathCheck => {
                let exists_ = match event {
                    Event::PathExists(b) => b,
                    _ => false,
                };
                if exists_ {
                    self.state = SessionState::AwaitingUiSet;
                    Action::SetUi(self.ui.code())
                } else {
                    self.state = SessionState::Done;
                    Action::Finish(Err(Error::PathNotFound))
                }
            },
            SessionState::AwaitingUiSet => {
                match &self.log {
                    Some(p) => {
                        let lp = p.clone();
                        if has_nul(lp.as_str()) {
                            self.state = SessionState::Done;
                            Action::Finish(Err(Error::UnrepresentableString))
                        } else {
                            self.state = SessionState::AwaitingLogResult;
                            Action::EnableLog(lp)
                        }
                    },
                    None => {
                        self.state = SessionState::AwaitingRegisterResult;
                        Action::Register(message_filter())
                    },
                }
            },
            SessionState::AwaitingLogResult => {
                let c = match event {
                    Event::StatusCode(c) => c,
                    _ => 0,
                };
                if c == ERROR_SUCCESS {
                    self.state = SessionState::AwaitingRegisterResult;
                    Action::Register(message_filter())
                } else {
                    self.state = SessionState::Done;
                    Action::Finish(Err(Error::EngineCode(c)))
                }
            },
            SessionState::AwaitingRegisterResult => {
                let c = match event {
                    Event::StatusCode(c) => c,
                    _ => 0,
                };
                if c == ERROR_SUCCESS {
                    let path = self.path.clone();
                    let cmd = command_line(&self.properties);
                    if has_nul(path.as_str()) || has_nul(cmd.as_str()) {
                        self.state = SessionState::Done;
                        Action::Finish(Err(Error::UnrepresentableString))
                    } else {
                        self.state = SessionState::AwaitingInstallResult;
                        Action::Install(path, cmd)
                    }
                } else {
                    self.state = SessionState::Done;
                    Action::Finish(Err(Error::EngineCode(c)))
                }
            },
            SessionState::AwaitingInstallResult => {
                let c = match event {
                    Event::StatusCode(c) => c,
                    _ => 0,
                };
                self.state = SessionState::Done;
                Action::Finish(map_status(c))
            },
            SessionState::Done => {
                proof {
                    assert(false);
                }
                Action::Finish(Ok(()))
            },
        }
    }
}

} // verus!
