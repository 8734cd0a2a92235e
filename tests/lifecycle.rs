use word_board::{
    build_configs, ApplicationState, Config, Heartbeat, HeartbeatAction, HeartbeatEvent,
    MakeSpanWithUuid, Phase, Probe, Supervisor, SupervisorAction, SupervisorEvent, TraceLevel,
    DRAIN_TIMEOUT_MS, HEARTBEAT_INTERVAL_MS,
};

#[test]
fn stuck_job_still_lets_the_supervisor_stop() {
    let mut s = Supervisor::new();
    assert_eq!(s.handle(SupervisorEvent::JobSpawned), SupervisorAction::Register);
    assert_eq!(s.handle(SupervisorEvent::JobSpawned), SupervisorAction::Register);
    assert_eq!(s.outstanding(), 2);

    assert_eq!(s.handle(SupervisorEvent::SignalObserved), SupervisorAction::Cancel);
    assert_eq!(s.phase(), Phase::Cancelling);
    assert!(s.is_cancelled());
    assert_eq!(
        s.handle(SupervisorEvent::CancelSent),
        SupervisorAction::Drain { timeout_ms: 10000 }
    );
    assert_eq!(DRAIN_TIMEOUT_MS, 10000);
    assert_eq!(s.phase(), Phase::Draining);
    assert_eq!(s.handle(SupervisorEvent::JobSpawned), SupervisorAction::RefuseJob);
    assert_eq!(s.handle(SupervisorEvent::JobExited), SupervisorAction::Continue);
    assert_eq!(
        s.handle(SupervisorEvent::DrainTimedOut),
        SupervisorAction::Stop { timed_out: true }
    );
    assert_eq!(s.phase(), Phase::Stopped);
    assert_eq!(s.handle(SupervisorEvent::JobsDrained), SupervisorAction::Continue);
    assert_eq!(s.phase(), Phase::Stopped);
}

#[test]
fn job_exit_cancels_everything_and_drain_completes() {
    let mut s = Supervisor::new();
    s.handle(SupervisorEvent::JobSpawned);
    assert_eq!(s.handle(SupervisorEvent::JobExited), SupervisorAction::Cancel);
    assert!(s.is_cancelled());
    assert_eq!(s.handle(SupervisorEvent::TerminateRequested), SupervisorAction::Continue);
    assert_eq!(
        s.handle(SupervisorEvent::CancelSent),
        SupervisorAction::Drain { timeout_ms: DRAIN_TIMEOUT_MS }
    );
    assert_eq!(
        s.handle(SupervisorEvent::JobsDrained),
        SupervisorAction::Stop { timed_out: false }
    );
}

#[test]
fn last_job_exit_while_draining_stops() {
    let mut s = Supervisor::new();
    s.handle(SupervisorEvent::JobSpawned);
    assert_eq!(s.handle(SupervisorEvent::InterruptRequested), SupervisorAction::Cancel);
    s.handle(SupervisorEvent::CancelSent);
    assert_eq!(
        s.handle(SupervisorEvent::JobExited),
        SupervisorAction::Stop { timed_out: false }
    );
    assert_eq!(s.outstanding(), 0);
}

#[test]
fn heartbeat_probes_until_a_probe_fails() {
    let mut h = Heartbeat::new();
    assert_eq!(
        h.step(false, HeartbeatEvent::Started),
        HeartbeatAction::Sleep { ms: 1000 }
    );
    assert_eq!(HEARTBEAT_INTERVAL_MS, 1000);
    assert_eq!(
        h.step(false, HeartbeatEvent::Slept),
        HeartbeatAction::SendProbe(Probe { id: 0, v: 0 })
    );
    assert_eq!(
        h.step(false, HeartbeatEvent::ProbeAcknowledged),
        HeartbeatAction::Sleep { ms: 1000 }
    );
    assert_eq!(
        h.step(false, HeartbeatEvent::Slept),
        HeartbeatAction::SendProbe(Probe { id: 1, v: 1 })
    );
    assert_eq!(h.step(false, HeartbeatEvent::ProbeFailed), HeartbeatAction::Exit);
    assert!(h.has_exited());
    assert_eq!(h.step(false, HeartbeatEvent::Slept), HeartbeatAction::Exit);
}

#[test]
fn heartbeat_exits_when_cancelled() {
    let mut h = Heartbeat::new();
    h.step(false, HeartbeatEvent::Started);
    assert_eq!(h.step(true, HeartbeatEvent::Slept), HeartbeatAction::Exit);
    assert!(h.has_exited());
}

#[test]
fn span_settings_builders() {
    let m = MakeSpanWithUuid::new();
    assert_eq!(m.span_level(), TraceLevel::Debug);
    assert!(!m.includes_headers());
    let m = m.level(TraceLevel::Info).include_headers(true);
    assert_eq!(m.span_level(), TraceLevel::Info);
    assert!(m.includes_headers());
    assert_eq!(MakeSpanWithUuid::default(), MakeSpanWithUuid::new());
}

#[test]
fn application_state_shares_config() {
    let config = build_configs().unwrap();
    let state = ApplicationState::new(config);
    let copy = state.clone();
    assert_eq!(*copy.config, Config {});
    assert!(std::sync::Arc::ptr_eq(&state.config, &copy.config));
}
