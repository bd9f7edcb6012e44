use sidecar_supervisor::setup::{plugins, Plugin};
use sidecar_supervisor::stream::{EventStream, Message, Received, Source};
use sidecar_supervisor::supervisor::{transition, Action, Event, Phase, StartupError, Supervisor};

fn line(source: Source, text: &str) -> Message {
    Message { source, data: text.as_bytes().to_vec() }
}

fn received_text(r: Received) -> Option<(Source, String)> {
    match r {
        Received::Message { message } => {
            Some((message.source, String::from_utf8(message.data).unwrap()))
        }
        _ => None,
    }
}

#[test]
fn ready_then_exit_yields_one_message_then_closes() {
    let mut sup = Supervisor::new(2000);
    assert_eq!(sup.step(Event::StartRequested), Action::Resolve);
    assert_eq!(sup.step(Event::Resolved { found: true }), Action::Spawn);
    let started = sup.step(Event::Spawned { child: 4242 });
    assert_eq!(started, Action::Started { child: 4242 });
    assert_eq!(started.outcome(), Some(Ok(4242)));
    assert_eq!(sup.child(), Some(4242));

    let mut stream = EventStream::new();
    assert!(stream.push(line(Source::Stdout, "ready")));
    stream.close(Some(0));
    assert_eq!(sup.step(Event::ChildExited { child: 4242 }), Action::Stopped);
    assert_eq!(sup.phase(), Phase::Idle);

    assert_eq!(
        received_text(stream.receive()),
        Some((Source::Stdout, "ready".to_string()))
    );
    assert!(matches!(stream.receive(), Received::Closed { code: Some(0) }));
    assert!(matches!(stream.receive(), Received::Closed { code: Some(0) }));
}

#[test]
fn missing_executable_gives_resolution_error() {
    let mut sup = Supervisor::new(2000);
    assert_eq!(sup.step(Event::StartRequested), Action::Resolve);
    let failed = sup.step(Event::Resolved { found: false });
    assert_eq!(failed, Action::Failed { error: StartupError::Resolution });
    assert_eq!(failed.outcome(), Some(Err(StartupError::Resolution)));
    assert_eq!(sup.phase(), Phase::Idle);
    assert_eq!(sup.child(), None);
}

#[test]
fn refused_spawn_gives_spawn_error() {
    let mut sup = Supervisor::new(2000);
    sup.step(Event::StartRequested);
    assert_eq!(sup.step(Event::Resolved { found: true }), Action::Spawn);
    let failed = sup.step(Event::SpawnFailed);
    assert_eq!(failed, Action::Failed { error: StartupError::Spawn });
    assert_eq!(sup.phase(), Phase::Idle);
    assert_eq!(sup.child(), None);
}

#[test]
fn second_start_tears_down_first_child() {
    let mut sup = Supervisor::new(1000);
    sup.step(Event::StartRequested);
    sup.step(Event::Resolved { found: true });
    sup.step(Event::Spawned { child: 10 });
    assert_eq!(sup.step(Event::StartRequested), Action::Terminate { child: 10 });
    assert_eq!(sup.child(), Some(10));
    assert_eq!(sup.step(Event::Spawned { child: 11 }), Action::Nothing);
    assert_eq!(sup.child(), Some(10));
    assert_eq!(sup.step(Event::ChildExited { child: 10 }), Action::Resolve);
    assert_eq!(sup.child(), None);
    assert_eq!(sup.step(Event::Resolved { found: true }), Action::Spawn);
    assert_eq!(sup.step(Event::Spawned { child: 11 }), Action::Started { child: 11 });
    assert_eq!(sup.child(), Some(11));
}

#[test]
fn shutdown_kills_after_grace_period() {
    let mut sup = Supervisor::new(1000);
    sup.step(Event::StartRequested);
    sup.step(Event::Resolved { found: true });
    sup.step(Event::Spawned { child: 3 });
    assert_eq!(sup.step(Event::ShutdownRequested), Action::Terminate { child: 3 });
    assert_eq!(sup.step(Event::Tick { elapsed_ms: 600 }), Action::Nothing);
    assert_eq!(sup.step(Event::Tick { elapsed_ms: 399 }), Action::Nothing);
    assert_eq!(sup.step(Event::Tick { elapsed_ms: 1 }), Action::Kill { child: 3 });
    assert_eq!(sup.step(Event::Tick { elapsed_ms: 5000 }), Action::Nothing);
    assert_eq!(
        sup.phase(),
        Phase::Stopping { child: 3, waited_ms: 6000, restart: false, killed: true }
    );
    assert_eq!(sup.step(Event::ChildExited { child: 3 }), Action::Stopped);
    assert_eq!(sup.phase(), Phase::Idle);
}

#[test]
fn waiting_time_saturates() {
    let p = Phase::Stopping { child: 1, waited_ms: u64::MAX - 1, restart: false, killed: true };
    let (q, a) = transition(p, 10, Event::Tick { elapsed_ms: 5 });
    assert_eq!(a, Action::Nothing);
    assert_eq!(q, Phase::Stopping { child: 1, waited_ms: u64::MAX, restart: false, killed: true });
}

#[test]
fn exit_of_a_running_child_releases_it() {
    let mut sup = Supervisor::new(1000);
    sup.step(Event::StartRequested);
    sup.step(Event::Resolved { found: true });
    sup.step(Event::Spawned { child: 8 });
    assert_eq!(sup.step(Event::ChildExited { child: 9 }), Action::Nothing);
    assert_eq!(sup.child(), Some(8));
    assert_eq!(sup.step(Event::ChildExited { child: 8 }), Action::Stopped);
    assert_eq!(sup.child(), None);
    assert_eq!(sup.grace_ms(), 1000);
}

#[test]
fn events_out_of_turn_change_nothing() {
    let mut sup = Supervisor::new(1000);
    assert_eq!(sup.step(Event::Spawned { child: 1 }), Action::Nothing);
    assert_eq!(sup.step(Event::Resolved { found: true }), Action::Nothing);
    assert_eq!(sup.step(Event::ShutdownRequested), Action::Nothing);
    assert_eq!(sup.phase(), Phase::Idle);
    assert_eq!(Action::Nothing.outcome(), None);
}

#[test]
fn stream_keeps_order_and_delivers_once() {
    let mut stream = EventStream::new();
    assert!(matches!(stream.receive(), Received::Pending));
    assert!(stream.push(line(Source::Stdout, "one")));
    assert!(stream.push(line(Source::Stderr, "two")));
    assert!(stream.push(line(Source::Stdout, "three")));
    assert_eq!(stream.pending_len(), 3);
    assert_eq!(received_text(stream.receive()), Some((Source::Stdout, "one".to_string())));
    assert_eq!(stream.pending_len(), 2);
    let rest = stream.drain();
    let texts: Vec<String> =
        rest.into_iter().map(|m| String::from_utf8(m.data).unwrap()).collect();
    assert_eq!(texts, vec!["two".to_string(), "three".to_string()]);
    assert_eq!(stream.pending_len(), 0);
    assert!(matches!(stream.receive(), Received::Pending));
}

#[test]
fn closed_stream_refuses_records_and_keeps_first_code() {
    let mut stream = EventStream::new();
    assert!(!stream.closed());
    stream.close(None);
    assert!(stream.closed());
    stream.close(Some(3));
    assert!(!stream.push(line(Source::Stdout, "late")));
    assert_eq!(stream.pending_len(), 0);
    assert!(matches!(stream.receive(), Received::Closed { code: None }));
}

#[test]
fn plugins_depend_on_build_kind() {
    assert_eq!(plugins(true), vec![Plugin::Log, Plugin::Dialog, Plugin::Shell]);
    assert_eq!(plugins(false), vec![Plugin::Dialog, Plugin::Shell]);
}
