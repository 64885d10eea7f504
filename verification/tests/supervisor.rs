use ws_proxy_agent::session::SessionError;
use ws_proxy_agent::supervisor::{
    backoff_secs, next_backoff, Stage, Supervisor, SupervisorCommand, SupervisorEvent,
    BACKOFF_BASE_SECS, BACKOFF_SPREAD_SECS,
};

fn supervisor() -> Supervisor {
    Supervisor::new("calm-fox".to_string(), "client_config.json".to_string(), 2)
}

fn connect() -> SupervisorCommand {
    SupervisorCommand::Connect { config_path: "client_config.json".to_string() }
}

#[test]
fn backoff_constants() {
    assert_eq!(BACKOFF_BASE_SECS, 1);
    assert_eq!(BACKOFF_SPREAD_SECS, 5);
}

#[test]
fn backoff_is_one_second_more_than_the_number_drawn() {
    assert_eq!(backoff_secs(0), 1);
    assert_eq!(backoff_secs(1), 2);
    assert_eq!(backoff_secs(2), 3);
    assert_eq!(backoff_secs(3), 4);
    assert_eq!(backoff_secs(4), 5);
}

#[test]
fn drawn_backoff_is_from_one_to_five_seconds() {
    let mut seen = [false; 7];
    for _ in 0..2000 {
        let secs = next_backoff();
        assert!(1 <= secs && secs < 6);
        seen[secs as usize] = true;
    }
    assert!(!seen[0] && !seen[6]);
    assert!(seen[1] && seen[2] && seen[3] && seen[4] && seen[5]);
}

#[test]
fn new_supervisor_waits() {
    let s = supervisor();
    assert_eq!(s.stage(), Stage::Waiting);
    assert_eq!(s.worker(), "calm-fox");
    assert_eq!(s.protocol_version(), 2);
}

#[test]
fn start_leads_to_the_first_attempt() {
    let mut s = supervisor();
    assert_eq!(s.step(SupervisorEvent::Started), connect());
    assert_eq!(s.stage(), Stage::InSession);
}

#[test]
fn end_of_session_leads_to_one_pause_and_one_attempt() {
    for error in [None, Some(SessionError::Connect), Some(SessionError::PingFailure)] {
        for jitter in 0..5u64 {
            let mut s = supervisor();
            s.step(SupervisorEvent::Started);
            assert_eq!(
                s.step(SupervisorEvent::SessionEnded { error, jitter }),
                SupervisorCommand::Sleep { secs: 1 + jitter }
            );
            assert_eq!(s.stage(), Stage::BackingOff);
            assert_eq!(s.step(SupervisorEvent::Started), SupervisorCommand::Idle);
            assert_eq!(
                s.step(SupervisorEvent::SessionEnded { error, jitter }),
                SupervisorCommand::Idle
            );
            assert_eq!(s.stage(), Stage::BackingOff);
            assert_eq!(s.step(SupervisorEvent::Woke), connect());
            assert_eq!(s.stage(), Stage::InSession);
            assert_eq!(s.step(SupervisorEvent::Woke), SupervisorCommand::Idle);
            assert_eq!(s.stage(), Stage::InSession);
        }
    }
}

#[test]
fn session_ended_draws_the_pause() {
    for _ in 0..200 {
        let mut s = supervisor();
        s.step(SupervisorEvent::Started);
        match s.session_ended(Some(SessionError::Receive)) {
            SupervisorCommand::Sleep { secs } => assert!(1 <= secs && secs < 6),
            other => panic!("a pause was due, not {:?}", other),
        }
        assert_eq!(s.stage(), Stage::BackingOff);
        assert_eq!(s.session_ended(None), SupervisorCommand::Idle);
        assert_eq!(s.step(SupervisorEvent::Woke), connect());
    }
}

#[test]
fn supervisor_goes_on_for_ever() {
    let mut s = supervisor();
    assert_eq!(s.step(SupervisorEvent::Started), connect());
    for round in 0..1000u64 {
        let error = if round % 2 == 0 { None } else { Some(SessionError::Send) };
        assert_eq!(
            s.step(SupervisorEvent::SessionEnded { error, jitter: round % 5 }),
            SupervisorCommand::Sleep { secs: 1 + round % 5 }
        );
        assert_eq!(s.step(SupervisorEvent::Woke), connect());
        assert_eq!(s.worker(), "calm-fox");
        assert_eq!(s.protocol_version(), 2);
    }
}

#[test]
fn events_out_of_place_change_nothing() {
    let mut s = supervisor();
    assert_eq!(s.step(SupervisorEvent::Woke), SupervisorCommand::Idle);
    assert_eq!(
        s.step(SupervisorEvent::SessionEnded { error: None, jitter: 0 }),
        SupervisorCommand::Idle
    );
    assert_eq!(s.stage(), Stage::Waiting);
    s.step(SupervisorEvent::Started);
    assert_eq!(s.step(SupervisorEvent::Started), SupervisorCommand::Idle);
    assert_eq!(s.stage(), Stage::InSession);
}
