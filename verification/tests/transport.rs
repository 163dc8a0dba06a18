use kinly::launchserver::socket::io_pair::{self, IoPair, TransportError};
use kinly::launchserver::socket::pump::{self, Incoming, Outgoing, Pump};
use kinly::launchserver::socket::supervisor::{Action, Attempt, Event, Supervisor};
use kinly::launchserver::socket::CONCURRENCY;

#[test]
fn fatal_transport_errors() {
    assert!(TransportError::ConnectionClosed.is_fatal());
    assert!(TransportError::AlreadyClosed.is_fatal());
    assert!(TransportError::Io.is_fatal());
    assert!(TransportError::Tls.is_fatal());
    assert!(TransportError::Protocol.is_fatal());
    assert!(!TransportError::Capacity.is_fatal());
    assert!(!TransportError::WriteBufferFull.is_fatal());
    assert!(!TransportError::Utf8.is_fatal());
    assert!(!TransportError::AttackAttempt.is_fatal());
    assert!(!TransportError::Url.is_fatal());
    assert!(!TransportError::Http.is_fatal());
    assert!(!TransportError::HttpFormat.is_fatal());
}

#[test]
fn io_pair_passes_frames_through() {
    let mut pair = IoPair::new();
    let actions = pair.step(io_pair::Event::Outgoing("out"));
    assert_eq!(actions.len(), 1);
    assert!(matches!(actions[0], io_pair::Action::Write("out")));
    let actions = pair.step(io_pair::Event::Incoming("in"));
    assert_eq!(actions.len(), 1);
    assert!(matches!(actions[0], io_pair::Action::Deliver("in")));
    assert!(pair.running);
}

#[test]
fn io_pair_reports_fatal_write_errors_only() {
    let mut pair = IoPair::new();
    let actions = pair.step::<u8>(io_pair::Event::WriteFailed(TransportError::Io));
    assert_eq!(actions.len(), 1);
    assert!(matches!(actions[0], io_pair::Action::ReportDisconnect));
    let actions = pair.step::<u8>(io_pair::Event::WriteFailed(TransportError::Capacity));
    assert!(actions.is_empty());
    assert!(pair.running);
}

#[test]
fn io_pair_shutdown() {
    let mut pair = IoPair::new();
    let actions = pair.step::<u8>(io_pair::Event::Shutdown);
    assert_eq!(actions.len(), 2);
    assert!(matches!(actions[0], io_pair::Action::StopPumps));
    assert!(matches!(actions[1], io_pair::Action::Acknowledge));
    assert!(!pair.running);
    assert!(pair.step(io_pair::Event::Outgoing(1u8)).is_empty());
    assert!(pair.step::<u8>(io_pair::Event::WriteFailed(TransportError::Io)).is_empty());
    assert!(pair.step::<u8>(io_pair::Event::Shutdown).is_empty());
}

#[test]
fn supervisor_connects_and_retries() {
    let mut supervisor = Supervisor::new();
    assert_eq!(supervisor.current, None);
    let actions = supervisor.step(Event::Connect { retry: Some(5000) });
    assert_eq!(actions, vec![Action::Try { attempt: 0 }]);
    assert_eq!(supervisor.current, Some(Attempt { id: 0, retry: Some(5000) }));
    for _ in 0..3 {
        let actions = supervisor.step(Event::Failed { attempt: 0 });
        assert_eq!(actions, vec![Action::Sleep { millis: 5000 }, Action::Try { attempt: 0 }]);
    }
    let actions = supervisor.step(Event::Succeeded { attempt: 0 });
    assert_eq!(actions, vec![Action::Announce { attempt: 0 }]);
    assert_eq!(supervisor.current, None);
    assert!(supervisor.step(Event::Succeeded { attempt: 0 }).is_empty());
    assert!(supervisor.step(Event::Failed { attempt: 0 }).is_empty());
}

#[test]
fn supervisor_retries_at_once_without_a_pause() {
    let mut supervisor = Supervisor::new();
    supervisor.step(Event::Connect { retry: None });
    assert_eq!(supervisor.step(Event::Failed { attempt: 0 }), vec![Action::Try { attempt: 0 }]);
}

#[test]
fn a_new_connect_cancels_the_attempt_in_flight() {
    let mut supervisor = Supervisor::new();
    supervisor.step(Event::Connect { retry: Some(10) });
    let actions = supervisor.step(Event::Connect { retry: Some(20) });
    assert_eq!(actions, vec![Action::Abort { attempt: 0 }, Action::Try { attempt: 1 }]);
    assert!(supervisor.step(Event::Succeeded { attempt: 0 }).is_empty());
    assert!(supervisor.step(Event::Failed { attempt: 0 }).is_empty());
    assert_eq!(
        supervisor.step(Event::Failed { attempt: 1 }),
        vec![Action::Sleep { millis: 20 }, Action::Try { attempt: 1 }]
    );
    assert_eq!(supervisor.step(Event::Succeeded { attempt: 1 }), vec![Action::Announce { attempt: 1 }]);
}

#[test]
fn supervisor_reconnects_after_a_connection() {
    let mut supervisor = Supervisor::new();
    supervisor.step(Event::Connect { retry: None });
    supervisor.step(Event::Succeeded { attempt: 0 });
    assert_eq!(supervisor.step(Event::Connect { retry: None }), vec![Action::Try { attempt: 1 }]);
}

#[test]
fn supervisor_numbers_start_over() {
    let mut supervisor = Supervisor { current: None, counter: u64::MAX, running: true };
    assert_eq!(supervisor.step(Event::Connect { retry: None }), vec![Action::Try { attempt: u64::MAX }]);
    assert_eq!(supervisor.counter, 0);
    assert_eq!(
        supervisor.step(Event::Connect { retry: None }),
        vec![Action::Abort { attempt: u64::MAX }, Action::Try { attempt: 0 }]
    );
}

#[test]
fn supervisor_shutdown() {
    let mut supervisor = Supervisor::new();
    supervisor.step(Event::Connect { retry: None });
    let actions = supervisor.step(Event::Shutdown);
    assert_eq!(actions, vec![Action::Abort { attempt: 0 }, Action::Acknowledge]);
    assert!(!supervisor.running);
    assert!(supervisor.step(Event::Connect { retry: None }).is_empty());
    assert!(supervisor.step(Event::Failed { attempt: 0 }).is_empty());
    let mut idle = Supervisor::new();
    assert_eq!(idle.step(Event::Shutdown), vec![Action::Acknowledge]);
}

#[test]
fn incoming_pump_forwards_frames() {
    let mut pump = Pump::new();
    let actions = pump.step_incoming(Incoming::Frame("a"));
    assert_eq!(actions.len(), 1);
    assert!(matches!(actions[0], pump::Action::Forward("a")));
    assert_eq!(pump.in_flight, 1);
    assert!(pump.step_incoming::<&str>(Incoming::Error).is_empty());
    assert_eq!(pump.in_flight, 1);
    assert!(pump.running);
}

#[test]
fn incoming_pump_waits_at_the_bound() {
    let mut pump = Pump { in_flight: CONCURRENCY - 1, running: true };
    let actions = pump.step_incoming(Incoming::Frame(1u8));
    assert_eq!(actions.len(), 1);
    assert_eq!(pump.in_flight, CONCURRENCY);
    let actions = pump.step_incoming(Incoming::Frame(2u8));
    assert_eq!(actions.len(), 2);
    assert!(matches!(actions[0], pump::Action::AwaitOne));
    assert!(matches!(actions[1], pump::Action::Forward(2u8)));
    assert_eq!(pump.in_flight, CONCURRENCY);
}

#[test]
fn incoming_pump_stops_at_the_end_of_the_stream() {
    let mut pump = Pump::new();
    assert!(pump.step_incoming::<u8>(Incoming::End).is_empty());
    assert!(!pump.running);
    assert!(pump.step_incoming(Incoming::Frame(1u8)).is_empty());
}

#[test]
fn pumps_drain_on_shutdown() {
    let mut pump = Pump { in_flight: 7, running: true };
    let actions = pump.step_incoming::<u8>(Incoming::Shutdown);
    assert_eq!(actions.len(), 2);
    assert!(matches!(actions[0], pump::Action::AwaitAll));
    assert!(matches!(actions[1], pump::Action::Acknowledge));
    assert_eq!(pump.in_flight, 0);
    assert!(!pump.running);
    let mut pump = Pump { in_flight: 3, running: true };
    let actions = pump.step_outgoing::<u8>(Outgoing::Shutdown);
    assert_eq!(actions.len(), 2);
    assert!(matches!(actions[0], pump::Action::AwaitAll));
    assert!(matches!(actions[1], pump::Action::Acknowledge));
    assert_eq!(pump.in_flight, 0);
    assert!(pump.step_outgoing(Outgoing::Message(1u8)).is_empty());
}

#[test]
fn outgoing_pump_writes_and_reports_failures() {
    let mut pump = Pump::new();
    let actions = pump.step_outgoing(Outgoing::Message("m"));
    assert_eq!(actions.len(), 1);
    assert!(matches!(actions[0], pump::Action::Write("m")));
    assert_eq!(pump.in_flight, 0);
    let actions = pump.step_outgoing::<&str>(Outgoing::WriteFailed(TransportError::Io));
    assert_eq!(actions.len(), 1);
    assert!(matches!(actions[0], pump::Action::ReportFailure(TransportError::Io)));
    assert_eq!(pump.in_flight, 1);
}

#[test]
fn outgoing_pump_waits_at_the_bound() {
    let mut pump = Pump { in_flight: CONCURRENCY, running: true };
    let actions = pump.step_outgoing(Outgoing::Message(1u8));
    assert_eq!(actions.len(), 2);
    assert!(matches!(actions[0], pump::Action::AwaitOne));
    assert!(matches!(actions[1], pump::Action::Write(1u8)));
    assert_eq!(pump.in_flight, CONCURRENCY - 1);
    let actions = pump.step_outgoing::<u8>(Outgoing::WriteFailed(TransportError::Tls));
    assert_eq!(actions.len(), 1);
    assert_eq!(pump.in_flight, CONCURRENCY);
}
