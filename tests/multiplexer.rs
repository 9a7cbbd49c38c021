use podshell::discovery::{names_of, next_round, RoundEnd};
use podshell::geometry::Geometry;
use podshell::session::{EndCause, Session, SessionAction, SessionEvent, SessionPhase};
use podshell::watcher::{WatchAction, WatchEnd, WatchEvent, Watcher};

fn every_event() -> Vec<SessionEvent> {
    vec![
        SessionEvent::LocalInput(b"x\n".to_vec()),
        SessionEvent::LocalEnd,
        SessionEvent::LocalError,
        SessionEvent::RemoteOutput(b"y".to_vec()),
        SessionEvent::RemoteEnd,
        SessionEvent::RemoteError,
        SessionEvent::WatcherDone,
        SessionEvent::WriteFailed,
        SessionEvent::Restored,
        SessionEvent::RestoreFailed,
    ]
}

fn count_teardowns(events: Vec<SessionEvent>) -> usize {
    let mut s = Session::new();
    let mut n = 0;
    for e in events {
        if s.step(e) == SessionAction::Teardown {
            n += 1;
        }
    }
    n
}

#[test]
fn shell_round_trip_scenario() {
    let namespaces = names_of(&vec![Some("default".to_string()), Some("kube-system".to_string())]);
    assert_eq!(namespaces, vec!["default".to_string(), "kube-system".to_string()]);
    let pods = names_of(&vec![Some("web-1".to_string()), None]);
    assert_eq!(pods, vec!["web-1".to_string(), String::new()]);

    let mut s = Session::new();
    let a = s.step(SessionEvent::LocalInput(b"echo hi\n".to_vec()));
    assert_eq!(a, SessionAction::SendRemote(b"echo hi\r".to_vec()));
    let a = s.step(SessionEvent::RemoteOutput(b"hi\n".to_vec()));
    assert_eq!(a, SessionAction::ShowLocal(b"hi\n".to_vec()));
    assert!(s.is_attached());
}

#[test]
fn remote_output_passes_unchanged() {
    let mut s = Session::new();
    let bytes = vec![0u8, 13, 10, 255, 27, 91, 65];
    assert_eq!(s.step(SessionEvent::RemoteOutput(bytes.clone())), SessionAction::ShowLocal(bytes));
}

#[test]
fn interrupt_while_idle_ends_session() {
    let (mut w, _) = Watcher::start(true);
    let g = Geometry::new(80, 24);
    assert_eq!(w.step(WatchEvent::Sampled(g)), WatchAction::Emit(g));
    assert_eq!(w.step(WatchEvent::Sent), WatchAction::AwaitChange);
    assert_eq!(w.step(WatchEvent::Interrupted), WatchAction::Finish(WatchEnd::Quiet));

    let mut s = Session::new();
    assert_eq!(s.step(SessionEvent::WatcherDone), SessionAction::Teardown);
    assert_eq!(
        s.step(SessionEvent::Restored),
        SessionAction::Finish { cause: EndCause::WatcherEnded, restored: true }
    );
    assert_eq!(s.phase, SessionPhase::Closed(EndCause::WatcherEnded));
    assert!(next_round(RoundEnd::SessionOver { cause: EndCause::WatcherEnded, restored: true }));
}

#[test]
fn local_end_restores_once() {
    let mut s = Session::new();
    assert_eq!(s.step(SessionEvent::LocalEnd), SessionAction::Teardown);
    assert_eq!(s.phase, SessionPhase::Closing(EndCause::LocalInputEnded));
    for e in every_event() {
        if e == SessionEvent::Restored || e == SessionEvent::RestoreFailed {
            continue;
        }
        assert_eq!(s.step(e), SessionAction::Wait);
    }
    assert_eq!(
        s.step(SessionEvent::Restored),
        SessionAction::Finish { cause: EndCause::LocalInputEnded, restored: true }
    );
    for e in every_event() {
        assert_eq!(s.step(e), SessionAction::Wait);
    }
}

#[test]
fn teardown_count_is_one_on_every_exit() {
    let ending = vec![
        SessionEvent::LocalEnd,
        SessionEvent::LocalError,
        SessionEvent::RemoteEnd,
        SessionEvent::RemoteError,
        SessionEvent::WatcherDone,
        SessionEvent::WriteFailed,
    ];
    for first in ending {
        let mut events = vec![
            SessionEvent::LocalInput(b"ls\n".to_vec()),
            SessionEvent::RemoteOutput(b"out".to_vec()),
            first,
        ];
        events.extend(every_event());
        events.extend(every_event());
        assert_eq!(count_teardowns(events), 1);
    }
    assert_eq!(count_teardowns(vec![SessionEvent::Restored, SessionEvent::RestoreFailed]), 0);
}

#[test]
fn remote_end_before_local_input_ends_session() {
    let mut s = Session::new();
    assert_eq!(s.step(SessionEvent::RemoteEnd), SessionAction::Teardown);
    assert!(!s.is_attached());
    assert_eq!(s.step(SessionEvent::LocalInput(b"ls\n".to_vec())), SessionAction::Wait);
    assert_eq!(
        s.step(SessionEvent::RestoreFailed),
        SessionAction::Finish { cause: EndCause::RemoteOutputEnded, restored: false }
    );
}

#[test]
fn write_failure_tears_down() {
    let mut s = Session::new();
    s.step(SessionEvent::LocalInput(b"ls\n".to_vec()));
    assert_eq!(s.step(SessionEvent::WriteFailed), SessionAction::Teardown);
    assert_eq!(s.phase, SessionPhase::Closing(EndCause::WriteFailed));
    assert!(EndCause::WriteFailed.is_failure());
    assert!(EndCause::LocalInputFailed.is_failure());
    assert!(EndCause::RemoteOutputFailed.is_failure());
    assert!(!EndCause::RemoteOutputEnded.is_failure());
    assert!(!EndCause::WatcherEnded.is_failure());
}

#[test]
fn restored_before_end_is_ignored() {
    let mut s = Session::new();
    assert_eq!(s.step(SessionEvent::Restored), SessionAction::Wait);
    assert!(s.is_attached());
}

#[test]
fn rounds_continue_after_failures() {
    assert!(next_round(RoundEnd::DiscoveryFailed));
    assert!(next_round(RoundEnd::AttachFailed));
    assert!(!next_round(RoundEnd::SelectionAborted));
    assert!(!next_round(RoundEnd::SessionOver { cause: EndCause::WriteFailed, restored: false }));
    assert!(next_round(RoundEnd::SessionOver { cause: EndCause::WriteFailed, restored: true }));
}

#[test]
fn names_of_empty_list() {
    assert!(names_of(&Vec::new()).is_empty());
}
