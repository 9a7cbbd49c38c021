use vstd::prelude::*;

use crate::geometry::Geometry;

verus! {

/// How a resize watcher ended.
#[derive(Clone, Copy, Debug, PartialEq, Eq, Structural)]
pub enum WatchEnd {
    /// The change notifications stopped, or the interrupt came.
    Quiet,
    /// The display size could not be read.
    GeometryError,
    /// The geometry could not be handed on.
    ChannelError,
}

/// What the watcher is waiting for.
#[derive(Clone, Copy, Debug, PartialEq, Eq, Structural)]
pub enum WatchPhase {
    /// A reading of the display size.
    Sampling,
    /// The outcome of handing a geometry on.
    Sending,
    /// A change notification, or the interrupt where there are none.
    Waiting,
    /// Nothing: the watcher has ended.
    Done(WatchEnd),
}

/// What happened outside, as reported to the watcher.
#[derive(Clone, Copy, Debug, PartialEq, Eq, Structural)]
pub enum WatchEvent {
    /// The display size was read.
    Sampled(Geometry),
    SampleFailed,
    /// The geometry was handed on.
    Sent,
    SendFailed,
    /// The platform reported that the display size changed.
    Changed,
    /// No more change notifications can come.
    SourceClosed,
    /// The interrupt came, or the session asked the watcher to stop.
    Interrupted,
}

/// What the watcher asks to be done next.
#[derive(Clone, Copy, Debug, PartialEq, Eq, Structural)]
pub enum WatchAction {
    /// Read the display size.
    Sample,
    /// Hand this geometry on to the remote terminal.
    Emit(Geometry),
    /// Wait for a change notification.
    AwaitChange,
    /// Wait for the interrupt (no change notifications on this platform).
    AwaitInterrupt,
    /// Stop with this outcome.
    Finish(WatchEnd),
    /// The event was not one the watcher waits for: nothing to do.
    Ignore,
}

/// Decisions of the resize watcher: it reads the display size once at start and
/// hands it on, then hands on each new size after a change notification.
#[derive(Clone, Copy, Debug, PartialEq, Eq, Structural)]
pub struct Watcher {
    /// Whether the platform gives change notifications.
    pub notifies: bool,
    pub phase: WatchPhase,
    /// The geometry handed on last, if any.
    pub last: Option<Geometry>,
}

/// A watcher before its first reading.
pub open spec fn initial(notifies: bool) -> Watcher {
    Watcher { notifies, phase: WatchPhase::Sampling, last: None }
}

/// What a watcher with nothing to hand on waits for.
pub open spec fn wait_action(notifies: bool) -> WatchAction {
    if notifies {
        WatchAction::AwaitChange
    } else {
        WatchAction::AwaitInterrupt
    }
}

/// One decision: the next state and the action, for a state and an event.
pub open spec fn watch_step(s: Watcher, e: WatchEvent) -> (Watcher, WatchAction) {
    match s.phase {
        WatchPhase::Sampling => match e {
            WatchEvent::Sampled(g) => if s.last == Some(g) {
                (Watcher { phase: WatchPhase::Waiting, ..s }, wait_action(s.notifies))
            } else {
                (Watcher { phase: WatchPhase::Sending, last: Some(g), ..s }, WatchAction::Emit(g))
            },
            WatchEvent::SampleFailed => (
                Watcher { phase: WatchPhase::Done(WatchEnd::GeometryError), ..s },
                WatchAction::Finish(WatchEnd::GeometryError),
            ),
            _ => (s, WatchAction::Ignore),
        },
        WatchPhase::Sending => match e {
            WatchEvent::Sent => (Watcher { phase: WatchPhase::Waiting, ..s }, wait_action(s.notifies)),
            WatchEvent::SendFailed => (
                Watcher { phase: WatchPhase::Done(WatchEnd::ChannelError), ..s },
                WatchAction::Finish(WatchEnd::ChannelError),
            ),
            _ => (s, WatchAction::Ignore),
        },
        WatchPhase::Waiting => match e {
            WatchEvent::Changed => if s.notifies {
                (Watcher { phase: WatchPhase::Sampling, ..s }, WatchAction::Sample)
            } else {
                (s, WatchAction::Ignore)
            },
            WatchEvent::SourceClosed | WatchEvent::Interrupted => (
                Watcher { phase: WatchPhase::Done(WatchEnd::Quiet), ..s },
                WatchAction::Finish(WatchEnd::Quiet),
            ),
            _ => (s, WatchAction::Ignore),
        },
        WatchPhase::Done(_) => (s, WatchAction::Ignore),
    }
}

/// The geometries handed on while the events are fed in order, from state `s`.
pub open spec fn emitted(s: Watcher, evs: Seq<WatchEvent>) -> Seq<Geometry>
    decreases evs.len(),
{
    if evs.len() == 0 {
        Seq::empty()
    } else {
        let (t, a) = watch_step(s, evs[0]);
        let rest = emitted(t, evs.drop_first());
        match a {
            WatchAction::Emit(g) => seq![g] + rest,
            _ => rest,
        }
    }
}

/// Whether a change notification is among the events.
pub open spec fn has_change(evs: Seq<WatchEvent>) -> bool {
    exists|i: int| 0 <= i < evs.len() && evs[i] == WatchEvent::Changed
}

/// Whatever the events, the first geometry handed on differs from the last one
/// handed on before, and each one differs from the one before it.
proof fn lemma_emitted_changes(s: Watcher, evs: Seq<WatchEvent>)
    ensures
        s.last is Some && emitted(s, evs).len() > 0 ==> emitted(s, evs)[0] != s.last->0,
        forall|i: int|
            0 < i < emitted(s, evs).len() ==> #[trigger] emitted(s, evs)[i] != emitted(s, evs)[i - 1],
    decreases evs.len(),
{
    if evs.len() > 0 {
        let (t, a) = watch_step(s, evs[0]);
        lemma_emitted_changes(t, evs.drop_first());
        let rest = emitted(t, evs.drop_first());
        match a {
            WatchAction::Emit(g) => {
                let em = seq![g] + rest;
                assert(em == emitted(s, evs));
                assert forall|i: int| 0 < i < em.len() implies #[trigger] em[i] != em[i - 1] by {
                    if i > 1 {
                        assert(em[i] == rest[i - 1] && em[i - 1] == rest[i - 2]);
                    } else {
                        assert(em[1] == rest[0]);
                    }
                }
            },
            _ => {},
        }
    }
}

/// Without a change notification, a watcher past its reading hands nothing on.
proof fn lemma_quiet_without_change(s: Watcher, evs: Seq<WatchEvent>)
    requires
        s.phase != WatchPhase::Sampling,
        !has_change(evs),
    ensures
        emitted(s, evs).len() == 0,
    decreases evs.len(),
{
    if evs.len() > 0 {
        let (t, a) = watch_step(s, evs[0]);
        assert(evs[0] != WatchEvent::Changed);
        assert forall|i: int| 0 <= i < evs.drop_first().len() implies evs.drop_first()[i]
            != WatchEvent::Changed by {
            assert(evs.drop_first()[i] == evs[i + 1]);
        }
        lemma_quiet_without_change(t, evs.drop_first());
    }
}

/// An unchanged size is never handed on twice in a row: each geometry handed on
/// differs from the one handed on before it.
pub proof fn law_no_repeated_geometry(notifies: bool, evs: Seq<WatchEvent>)
    ensures
        forall|i: int|
            0 < i < emitted(initial(notifies), evs).len() ==> #[trigger] emitted(
                initial(notifies),
                evs,
            )[i] != emitted(initial(notifies), evs)[i - 1],
{
    lemma_emitted_changes(initial(notifies), evs);
}

/// The first reading of the size is always handed on, before anything else; and
/// until a change notification comes, it is the only geometry handed on.
pub proof fn law_initial_geometry_first(notifies: bool, g: Geometry, evs: Seq<WatchEvent>)
    ensures
        emitted(initial(notifies), seq![WatchEvent::Sampled(g)] + evs).len() >= 1,
        emitted(initial(notifies), seq![WatchEvent::Sampled(g)] + evs)[0] == g,
        !has_change(evs) ==> emitted(initial(notifies), seq![WatchEvent::Sampled(g)] + evs).len()
            == 1,
{
    let all = seq![WatchEvent::Sampled(g)] + evs;
    assert(all[0] == WatchEvent::Sampled(g));
    assert(all.drop_first() =~= evs);
    let (t, a) = watch_step(initial(notifies), all[0]);
    assert(a == WatchAction::Emit(g));
    assert(t.phase == WatchPhase::Sending);
    if !has_change(evs) {
        lemma_quiet_without_change(t, evs);
    }
}

impl Watcher {
    /// A watcher before its first reading, and its first action: read the size.
    pub fn start(notifies: bool) -> (r: (Watcher, WatchAction))
        ensures
            r.0 == initial(notifies),
            r.1 == WatchAction::Sample,
    {
        (Watcher { notifies, phase: WatchPhase::Sampling, last: None }, WatchAction::Sample)
    }

    fn wait(&self) -> (a: WatchAction)
        ensures
            a == wait_action(self.notifies),
    {
        if self.notifies {
            WatchAction::AwaitChange
        } else {
            WatchAction::AwaitInterrupt
        }
    }

    /// Feeds one event to the watcher and returns what to do next.
    pub fn step(&mut self, e: WatchEvent) -> (a: WatchAction)
        ensures
            (*final(self), a) == watch_step(*old(self), e),
    {
        match self.phase {
            WatchPhase::Sampling => match e {
                WatchEvent::Sampled(g) => {
                    let same = match self.last {
                        Some(l) => l.width == g.width && l.height == g.height,
                        None => false,
                    };
                    if same {
                        self.phase = WatchPhase::Waiting;
                        self.wait()
                    } else {
                        self.phase = WatchPhase::Sending;
                        self.last = Some(g);
                        WatchAction::Emit(g)
                    }
                },
                WatchEvent::SampleFailed => {
                    self.phase = WatchPhase::Done(WatchEnd::GeometryError);
                    WatchAction::Finish(WatchEnd::GeometryError)
                },
                _ => WatchAction::Ignore,
            },
            WatchPhase::Sending => match e {
                WatchEvent::Sent => {
                    self.phase = WatchPhase::Waiting;
                    self.wait()
                },
                WatchEvent::SendFailed => {
                    self.phase = WatchPhase::Done(WatchEnd::ChannelError);
                    WatchAction::Finish(WatchEnd::ChannelError)
                },
                _ => WatchAction::Ignore,
            },
            WatchPhase::Waiting => match e {
                WatchEvent::Changed => {
                    if self.notifies {
                        self.phase = WatchPhase::Sampling;
                        WatchAction::Sample
                    } else {
                        WatchAction::Ignore
                    }
                },
                WatchEvent::SourceClosed | WatchEvent::Interrupted => {
                    self.phase = WatchPhase::Done(WatchEnd::Quiet);
                    WatchAction::Finish(WatchEnd::Quiet)
                },
                _ => WatchAction::Ignore,
            },
            WatchPhase::Done(_) => WatchAction::Ignore,
        }
    }
}

} // verus!
