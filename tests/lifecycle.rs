use rp::error::ErrorKind;
use rp::lifecycle::{exit_code, Action, Event, Lifecycle};

/// Runs the machine on the events, collecting every action asked for,
/// until it ends or the events run out.
fn run(peers: usize, events: &[Event]) -> (Vec<Action>, Lifecycle) {
    let mut m = Lifecycle::new(peers);
    let mut actions = vec![m.next_action()];
    for e in events {
        if m.is_finished() {
            break;
        }
        m.advance(*e);
        actions.push(m.next_action());
    }
    (actions, m)
}

fn deletions(actions: &[Action]) -> usize {
    actions.iter().filter(|a| matches!(a, Action::DeleteLink { .. })).count()
}

const UP: [Event; 5] = [Event::Done, Event::Found(7), Event::Done, Event::Done, Event::Done];

#[test]
fn no_peers_full_run() {
    let mut events = UP.to_vec();
    events.extend([Event::Done, Event::Done, Event::Done]);
    let (actions, m) = run(0, &events);
    assert_eq!(
        actions,
        vec![
            Action::CreateLink,
            Action::LookupLink,
            Action::ActivateLink(7),
            Action::ArmCleanup(7),
            Action::ConfigureDevice(7),
            Action::StartEngine,
            Action::RunEngine,
            Action::DeleteLink { index: 7, fresh_connection: false },
            Action::Exit { error: None, cleanup_failed: false },
        ]
    );
    assert!(m.is_finished());
    assert_eq!(exit_code(None), 0);
}

#[test]
fn name_collision_ends_before_anything_else() {
    let (actions, _) = run(3, &[Event::Refused]);
    assert_eq!(
        actions,
        vec![
            Action::CreateLink,
            Action::Exit { error: Some(ErrorKind::DeviceCreateError), cleanup_failed: false },
        ]
    );
    assert_eq!(deletions(&actions), 0);
    assert_eq!(exit_code(Some(ErrorKind::DeviceCreateError)), 1);
}

#[test]
fn engine_error_after_two_peers_still_deletes() {
    let mut events = UP.to_vec();
    events.extend([Event::Done, Event::Done, Event::Done, Event::Refused, Event::Done]);
    let (actions, _) = run(2, &events);
    assert_eq!(
        actions[5..].to_vec(),
        vec![
            Action::StartEngine,
            Action::RegisterPeer(0),
            Action::RegisterPeer(1),
            Action::RunEngine,
            Action::DeleteLink { index: 7, fresh_connection: false },
            Action::Exit { error: Some(ErrorKind::EngineError), cleanup_failed: false },
        ]
    );
    assert_eq!(deletions(&actions), 1);
}

#[test]
fn startup_failure_after_creation_deletes() {
    let (actions, _) = run(1, &[Event::Done, Event::Found(3), Event::Done, Event::Done, Event::KeyMissing, Event::Done]);
    assert_eq!(
        actions[4..].to_vec(),
        vec![
            Action::ConfigureDevice(3),
            Action::DeleteLink { index: 3, fresh_connection: false },
            Action::Exit { error: Some(ErrorKind::KeyLoadError), cleanup_failed: false },
        ]
    );
    let (actions, _) = run(2, &[Event::Done, Event::Found(3), Event::Refused, Event::Done]);
    assert_eq!(
        actions[2..].to_vec(),
        vec![
            Action::ActivateLink(3),
            Action::DeleteLink { index: 3, fresh_connection: false },
            Action::Exit { error: Some(ErrorKind::DeviceActivateError), cleanup_failed: false },
        ]
    );
}

#[test]
fn peer_registration_failure_deletes() {
    let mut events = UP.to_vec();
    events.extend([Event::Done, Event::Done, Event::Refused, Event::Done]);
    let (actions, _) = run(3, &events);
    assert_eq!(
        actions[6..].to_vec(),
        vec![
            Action::RegisterPeer(0),
            Action::RegisterPeer(1),
            Action::DeleteLink { index: 7, fresh_connection: false },
            Action::Exit { error: Some(ErrorKind::PeerRegisterError), cleanup_failed: false },
        ]
    );
}

#[test]
fn lookup_failure_ends_without_deletion() {
    let (actions, _) = run(0, &[Event::Done, Event::Refused]);
    assert_eq!(
        actions,
        vec![
            Action::CreateLink,
            Action::LookupLink,
            Action::Exit { error: Some(ErrorKind::DeviceLookupError), cleanup_failed: false },
        ]
    );
    let (actions, _) = run(0, &[Event::Done, Event::Done]);
    assert_eq!(deletions(&actions), 0);
    assert!(matches!(actions.last(), Some(Action::Exit { error: Some(ErrorKind::DeviceLookupError), .. })));
}

#[test]
fn interrupt_deletes_on_fresh_connection() {
    let mut events = UP.to_vec();
    events.extend([Event::Done, Event::Interrupted, Event::Done]);
    let (actions, _) = run(0, &events);
    assert_eq!(
        actions[6..].to_vec(),
        vec![
            Action::RunEngine,
            Action::DeleteLink { index: 7, fresh_connection: true },
            Action::Exit { error: Some(ErrorKind::Interrupted), cleanup_failed: false },
        ]
    );
    assert_eq!(deletions(&actions), 1);
}

#[test]
fn interrupt_cleanup_failure_is_fatal() {
    let mut events = UP.to_vec();
    events.extend([Event::Interrupted, Event::Refused]);
    let (actions, _) = run(0, &events);
    assert_eq!(
        actions.last(),
        Some(&Action::Exit { error: Some(ErrorKind::CleanupError), cleanup_failed: false })
    );
}

#[test]
fn normal_cleanup_failure_does_not_mask_engine_result() {
    let mut events = UP.to_vec();
    events.extend([Event::Done, Event::Done, Event::Refused]);
    let (actions, _) = run(0, &events);
    assert_eq!(actions.last(), Some(&Action::Exit { error: None, cleanup_failed: true }));
    let mut events = UP.to_vec();
    events.extend([Event::Done, Event::Refused, Event::Refused]);
    let (actions, _) = run(0, &events);
    assert_eq!(
        actions.last(),
        Some(&Action::Exit { error: Some(ErrorKind::EngineError), cleanup_failed: true })
    );
}

#[test]
fn every_ending_deletes_once_when_index_known() {
    let outcomes = [Event::Done, Event::Refused, Event::KeyMissing, Event::Interrupted];
    for stop in 0..10usize {
        for last in outcomes {
            let mut events = vec![Event::Done, Event::Found(9)];
            events.extend(std::iter::repeat(Event::Done).take(stop));
            events.push(last);
            events.extend([Event::Done; 12]);
            let (actions, m) = run(2, &events);
            assert!(m.is_finished());
            assert_eq!(deletions(&actions), 1);
        }
    }
}
