use vstd::prelude::*;

use crate::input::{forwarded, forwarded_input};

verus! {

/// Why a session ended.
#[derive(Clone, Copy, Debug, PartialEq, Eq, Structural)]
pub enum EndCause {
    LocalInputEnded,
    LocalInputFailed,
    RemoteOutputEnded,
    RemoteOutputFailed,
    WatcherEnded,
    WriteFailed,
}

impl EndCause {
    /// Whether the session ended on a failure rather than on the end of a source.
    pub fn is_failure(&self) -> (r: bool)
        ensures
            r == (*self == EndCause::LocalInputFailed || *self == EndCause::RemoteOutputFailed
                || *self == EndCause::WriteFailed),
    {
        match self {
            EndCause::LocalInputFailed | EndCause::RemoteOutputFailed | EndCause::WriteFailed => true,
            _ => false,
        }
    }
}

/// Where a session stands.
#[derive(Clone, Copy, Debug, PartialEq, Eq, Structural)]
pub enum SessionPhase {
    /// The event loop runs; the terminal is in raw mode.
    Attached,
    /// The loop has stopped; the terminal mode is being restored.
    Closing(EndCause),
    /// The terminal mode has been restored, or its restoration was attempted.
    Closed(EndCause),
}

/// What one of the session's sources produced, or how a request went.
#[derive(Clone, Debug, PartialEq, Eq)]
pub enum SessionEvent {
    /// A chunk read from the keyboard.
    LocalInput(Vec<u8>),
    LocalEnd,
    LocalError,
    /// A chunk of the remote process's output.
    RemoteOutput(Vec<u8>),
    RemoteEnd,
    RemoteError,
    /// The resize watcher has ended, normally or not.
    WatcherDone,
    /// Writing to the remote input or to the local display failed.
    WriteFailed,
    /// The terminal's cooked mode is back.
    Restored,
    RestoreFailed,
}

/// What the session asks to be done next.
#[derive(Clone, Debug, PartialEq, Eq)]
pub enum SessionAction {
    /// Write these bytes to the remote input, then flush.
    SendRemote(Vec<u8>),
    /// Write these bytes to the local display, then flush.
    ShowLocal(Vec<u8>),
    /// Nothing to do: wait for the next event.
    Wait,
    /// Stop the resize watcher and restore the terminal's cooked mode.
    Teardown,
    /// The session is over.
    Finish { cause: EndCause, restored: bool },
}

/// A session action, with its bytes as a sequence.
pub enum Effect {
    SendRemote(Seq<u8>),
    ShowLocal(Seq<u8>),
    Wait,
    Teardown,
    Finish { cause: EndCause, restored: bool },
}

impl View for SessionAction {
    type V = Effect;

    open spec fn view(&self) -> Effect {
        match self {
            SessionAction::SendRemote(b) => Effect::SendRemote(b@),
            SessionAction::ShowLocal(b) => Effect::ShowLocal(b@),
            SessionAction::Wait => Effect::Wait,
            SessionAction::Teardown => Effect::Teardown,
            SessionAction::Finish { cause, restored } => Effect::Finish {
                cause: *cause,
                restored: *restored,
            },
        }
    }
}

/// The cause with which an event ends an attached session, if it ends it.
pub open spec fn ending(e: SessionEvent) -> Option<EndCause> {
    match e {
        SessionEvent::LocalEnd => Some(EndCause::LocalInputEnded),
        SessionEvent::LocalError => Some(EndCause::LocalInputFailed),
        SessionEvent::RemoteEnd => Some(EndCause::RemoteOutputEnded),
        SessionEvent::RemoteError => Some(EndCause::RemoteOutputFailed),
        SessionEvent::WatcherDone => Some(EndCause::WatcherEnded),
        SessionEvent::WriteFailed => Some(EndCause::WriteFailed),
        _ => None,
    }
}

/// One decision of the multiplexer: the next phase and the effect.
pub open spec fn session_step(p: SessionPhase, e: SessionEvent) -> (SessionPhase, Effect) {
    match p {
        SessionPhase::Attached => match e {
            SessionEvent::LocalInput(c) => match forwarded(c@) {
                Some(b) => (p, Effect::SendRemote(b)),
                None => (p, Effect::Wait),
            },
            SessionEvent::RemoteOutput(c) => (p, Effect::ShowLocal(c@)),
            _ => match ending(e) {
                Some(cause) => (SessionPhase::Closing(cause), Effect::Teardown),
                None => (p, Effect::Wait),
            },
        },
        SessionPhase::Closing(cause) => match e {
            SessionEvent::Restored => (
                SessionPhase::Closed(cause),
                Effect::Finish { cause, restored: true },
            ),
            SessionEvent::RestoreFailed => (
                SessionPhase::Closed(cause),
                Effect::Finish { cause, restored: false },
            ),
            _ => (p, Effect::Wait),
        },
        SessionPhase::Closed(_) => (p, Effect::Wait),
    }
}

/// The phase reached from `p` when the events are fed in order.
pub open spec fn phase_after(p: SessionPhase, evs: Seq<SessionEvent>) -> SessionPhase
    decreases evs.len(),
{
    if evs.len() == 0 {
        p
    } else {
        phase_after(session_step(p, evs[0]).0, evs.drop_first())
    }
}

/// How many times the terminal mode is restored from `p` when the events are fed
/// in order.
pub open spec fn teardowns(p: SessionPhase, evs: Seq<SessionEvent>) -> nat
    decreases evs.len(),
{
    if evs.len() == 0 {
        0
    } else {
        let (q, eff) = session_step(p, evs[0]);
        let here: nat = match eff {
            Effect::Teardown => 1,
            _ => 0,
        };
        here + teardowns(q, evs.drop_first())
    }
}

/// Whether one of the events ends an attached session.
pub open spec fn has_ending(evs: Seq<SessionEvent>) -> bool {
    exists|i: int| 0 <= i < evs.len() && (#[trigger] ending(evs[i])) is Some
}

/// A session that has left the attached phase never comes back to it.
proof fn lemma_no_return(p: SessionPhase, evs: Seq<SessionEvent>)
    requires
        p != SessionPhase::Attached,
    ensures
        phase_after(p, evs) != SessionPhase::Attached,
        teardowns(p, evs) == 0,
    decreases evs.len(),
{
    if evs.len() > 0 {
        lemma_no_return(session_step(p, evs[0]).0, evs.drop_first());
    }
}

/// The terminal mode is restored once exactly when the session leaves the
/// attached phase.
proof fn lemma_teardowns(p: SessionPhase, evs: Seq<SessionEvent>)
    ensures
        teardowns(p, evs) == (if p == SessionPhase::Attached && phase_after(p, evs)
            != SessionPhase::Attached {
            1nat
        } else {
            0nat
        }),
        has_ending(evs) ==> phase_after(p, evs) != SessionPhase::Attached,
    decreases evs.len(),
{
    if evs.len() > 0 {
        let q = session_step(p, evs[0]).0;
        let rest = evs.drop_first();
        lemma_teardowns(q, rest);
        if q != SessionPhase::Attached {
            lemma_no_return(q, rest);
        }
        if has_ending(evs) {
            let i = choose|i: int| 0 <= i < evs.len() && (#[trigger] ending(evs[i])) is Some;
            if i > 0 {
                assert(rest[i - 1] == evs[i]);
                assert(has_ending(rest));
            }
        }
    }
}

/// Whatever the events, the terminal mode is restored at most once; and once any
/// source has ended or failed (the keyboard, the remote output, the watcher, a
/// write), the session has left its loop and the mode is restored exactly once.
pub proof fn law_single_restore(evs: Seq<SessionEvent>)
    ensures
        teardowns(SessionPhase::Attached, evs) <= 1,
        has_ending(evs) ==> teardowns(SessionPhase::Attached, evs) == 1 && phase_after(
            SessionPhase::Attached,
            evs,
        ) != SessionPhase::Attached,
{
    lemma_teardowns(SessionPhase::Attached, evs);
}

/// When the remote output ends, the session ends with it, with no further
/// keyboard event: it leaves its loop and restores the terminal mode once.
pub proof fn law_remote_end_closes(evs: Seq<SessionEvent>)
    ensures
        phase_after(SessionPhase::Attached, evs.push(SessionEvent::RemoteEnd))
            != SessionPhase::Attached,
        teardowns(SessionPhase::Attached, evs.push(SessionEvent::RemoteEnd)) == 1,
{
    let all = evs.push(SessionEvent::RemoteEnd);
    assert(ending(all[evs.len() as int]) is Some);
    lemma_teardowns(SessionPhase::Attached, all);
}

/// Once the loop has stopped, nothing more is forwarded in either direction:
/// what the sources still hold is not drained.
pub proof fn law_no_forwarding_after_end(p: SessionPhase, e: SessionEvent)
    requires
        p != SessionPhase::Attached,
    ensures
        !(session_step(p, e).1 is SendRemote),
        !(session_step(p, e).1 is ShowLocal),
{
}

/// The multiplexer of one session: local input to the remote side, remote output
/// to the display, and a single teardown when any source ends.
#[derive(Clone, Copy, Debug, PartialEq, Eq, Structural)]
pub struct Session {
    pub phase: SessionPhase,
}

impl Session {
    /// A session whose loop has just started (the terminal is in raw mode).
    pub fn new() -> (s: Session)
        ensures
            s.phase == SessionPhase::Attached,
    {
        Session { phase: SessionPhase::Attached }
    }

    /// Whether the loop still runs.
    pub fn is_attached(&self) -> (r: bool)
        ensures
            r == (self.phase == SessionPhase::Attached),
    {
        match self.phase {
            SessionPhase::Attached => true,
            _ => false,
        }
    }

    /// Feeds one event to the session and returns what to do next.
    pub fn step(&mut self, e: SessionEvent) -> (a: SessionAction)
        ensures
            (final(self).phase, a@) == session_step(old(self).phase, e),
    {
        match self.phase {
            SessionPhase::Attached => match e {
                SessionEvent::LocalInput(c) => match forwarded_input(c.as_slice()) {
                    Some(b) => SessionAction::SendRemote(b),
                    None => SessionAction::Wait,
                },
                SessionEvent::RemoteOutput(c) => SessionAction::ShowLocal(c),
                SessionEvent::LocalEnd => self.close(EndCause::LocalInputEnded),
                SessionEvent::LocalError => self.close(EndCause::LocalInputFailed),
                SessionEvent::RemoteEnd => self.close(EndCause::RemoteOutputEnded),
                SessionEvent::RemoteError => self.close(EndCause::RemoteOutputFailed),
                SessionEvent::WatcherDone => self.close(EndCause::WatcherEnded),
                SessionEvent::WriteFailed => self.close(EndCause::WriteFailed),
                SessionEvent::Restored | SessionEvent::RestoreFailed => SessionAction::Wait,
            },
            SessionPhase::Closing(cause) => match e {
                SessionEvent::Restored => {
                    self.phase = SessionPhase::Closed(cause);
                    SessionAction::Finish { cause, restored: true }
                },
                SessionEvent::RestoreFailed => {
                    self.phase = SessionPhase::Closed(cause);
                    SessionAction::Finish { cause, restored: false }
                },
                _ => SessionAction::Wait,
            },
            SessionPhase::Closed(_) => SessionAction::Wait,
        }
    }

    fn close(&mut self, cause: EndCause) -> (a: SessionAction)
        ensures
            final(self).phase == SessionPhase::Closing(cause),
            a@ == Effect::Teardown,
    {
        self.phase = SessionPhase::Closing(cause);
        SessionAction::Teardown
    }
}

} // verus!
