use ti50_control::supervisor::{
    argument_list, decimal, program_path_of, is_ready_token, joined_with_commas, AcceptEvent, EmuError, EmuState, EmuValue,
    ExitProbe, Liveness, ReadinessWatch, StartupStep, StopFailure, StopStep, Supervisor,
    TerminationWatch,
};

fn fresh() -> Supervisor {
    Supervisor::new("/opt/emu".to_string(), "emu_bin".to_string(), "test", 42, 7, 7000000123)
}

fn keys(s: &Supervisor) -> Vec<String> {
    let mut k: Vec<String> = s.current_args.iter().map(|(k, _)| k.clone()).collect();
    k.sort();
    k
}

#[test]
fn instance_is_named_from_prefix_pid_and_time() {
    let s = fresh();
    assert_eq!(s.instance_name, "test_42_7_7000000123");
    assert_eq!(s.instance_directory, "/tmp/test_42_7_7000000123");
    assert_eq!(s.resource_directory, "/tmp/test_42_7_7000000123/resources");
    assert_eq!(s.runtime_directory, "/tmp/test_42_7_7000000123/runtime");
    assert_eq!(s.state, EmuState::Off);
    assert!(s.process.is_none());
}

#[test]
fn forbidden_keys_are_refused() {
    for key in ["p", "path", "s", "stdio", "control_socket"] {
        let mut s = fresh();
        let r = s.begin_start(false, vec![(key.to_string(), EmuValue::Empty)]);
        match r {
            Err(EmuError::InvalidArgumentName(k)) => assert_eq!(k, key),
            other => panic!("unexpected {:?}", other),
        }
        assert_eq!(s.state, EmuState::Off);
        assert!(s.current_args.is_empty());
    }
}

#[test]
fn unknown_keys_are_refused_without_partial_merge() {
    let mut s = fresh();
    let r = s.begin_start(
        false,
        vec![
            ("flash".to_string(), EmuValue::FilePath("f.bin".to_string())),
            ("verbose".to_string(), EmuValue::Empty),
        ],
    );
    match r {
        Err(EmuError::InvalidArgumentName(k)) => assert_eq!(k, "verbose"),
        other => panic!("unexpected {:?}", other),
    }
    assert_eq!(s.state, EmuState::Off);
    assert!(s.current_args.is_empty());
}

#[test]
fn allowed_keys_are_merged_with_injected_paths() {
    let mut s = fresh();
    let plan = s
        .begin_start(
            true,
            vec![
                ("flash".to_string(), EmuValue::FilePath("/img/f.bin".to_string())),
                (
                    "apps".to_string(),
                    EmuValue::StringList(vec!["a".to_string(), "b".to_string()]),
                ),
            ],
        )
        .unwrap();
    assert_eq!(s.state, EmuState::Busy);
    assert_eq!(keys(&s), vec!["apps", "control_socket", "flash", "path"]);
    assert!(plan.reset_runtime);
    assert_eq!(plan.program, "/opt/emu/emu_bin");
    assert_eq!(plan.socket_path, "/tmp/test_42_7_7000000123/runtime/control_soc");
    assert_eq!(
        plan.arguments,
        vec![
            "--flash /img/f.bin",
            "--apps a,b",
            "--path /tmp/test_42_7_7000000123/runtime",
            "--control_socket /tmp/test_42_7_7000000123/runtime/control_soc",
        ]
    );
}

#[test]
fn command_line_words() {
    let args = vec![
        ("version_state".to_string(), EmuValue::Empty),
        ("pmu_state".to_string(), EmuValue::String("on".to_string())),
        ("apps".to_string(), EmuValue::FilePathList(vec!["x".to_string()])),
    ];
    assert_eq!(
        argument_list(&args),
        vec!["--version_state", "--pmu_state on", "--apps x"]
    );
    assert_eq!(joined_with_commas(&vec![]), "");
    assert_eq!(
        joined_with_commas(&vec!["a".to_string(), "b".to_string(), "c".to_string()]),
        "a,b,c"
    );
}

#[test]
fn start_refused_when_on_or_busy() {
    let mut s = fresh();
    s.state = EmuState::On;
    s.process = Some(10);
    assert!(matches!(s.begin_start(false, vec![]), Err(EmuError::AlreadyRunning)));
    assert_eq!(s.state, EmuState::On);
    s.state = EmuState::Busy;
    assert!(matches!(s.begin_start(false, vec![]), Err(EmuError::TransientBusy)));
    assert_eq!(s.state, EmuState::Busy);
}

#[test]
fn stop_refused_when_off_or_busy() {
    let mut s = fresh();
    assert!(matches!(s.begin_stop(), Err(EmuError::AlreadyOff)));
    assert_eq!(s.state, EmuState::Off);
    s.state = EmuState::Busy;
    assert!(matches!(s.begin_stop(), Err(EmuError::TransientBusy)));
    assert_eq!(s.state, EmuState::Busy);
}

#[test]
fn start_after_error_is_allowed() {
    let mut s = fresh();
    s.state = EmuState::Error;
    assert!(s.begin_start(false, vec![]).is_ok());
    assert_eq!(s.state, EmuState::Busy);
}

#[test]
fn readiness_token() {
    assert!(is_ready_token(&b"READY".to_vec()));
    assert!(is_ready_token(&b"READY\n".to_vec()));
    assert!(!is_ready_token(&b"READ".to_vec()));
    assert!(!is_ready_token(&b"ready".to_vec()));
}

#[test]
fn readiness_handshake_succeeds_on_token() {
    let mut w = ReadinessWatch::new();
    assert_eq!(w.on_accept(&AcceptEvent::WouldBlock), StartupStep::Wait);
    assert_eq!(w.on_accept(&AcceptEvent::Connected(b"READY".to_vec())), StartupStep::Ready);
}

#[test]
fn readiness_handshake_times_out() {
    let mut w = ReadinessWatch::new();
    assert_eq!(w.on_accept(&AcceptEvent::WouldBlock), StartupStep::Wait);
    assert_eq!(w.on_accept(&AcceptEvent::Connected(b"NOPE".to_vec())), StartupStep::Wait);
    assert_eq!(w.on_accept(&AcceptEvent::WouldBlock), StartupStep::TimedOut);
    let mut w = ReadinessWatch::new();
    assert_eq!(w.on_accept(&AcceptEvent::Failed), StartupStep::Failed);
}

#[test]
fn failed_start_ends_in_error() {
    let mut s = fresh();
    s.begin_start(false, vec![]).unwrap();
    assert!(matches!(
        s.finish_start(Some(99), StartupStep::TimedOut),
        Err(EmuError::StartFailureCause(_))
    ));
    assert_eq!(s.state, EmuState::Error);
    assert_eq!(s.process, Some(99));
    let mut s = fresh();
    s.begin_start(false, vec![]).unwrap();
    assert!(matches!(s.finish_start(None, StartupStep::Ready), Err(EmuError::StartFailureCause(_))));
    assert_eq!(s.state, EmuState::Error);
}

#[test]
fn termination_escalates_to_kill_then_succeeds() {
    let mut w = TerminationWatch::new();
    assert_eq!(w.on_probe(Liveness::Alive), StopStep::Probe);
    assert_eq!(w.on_probe(Liveness::Alive), StopStep::Probe);
    assert_eq!(w.on_probe(Liveness::Alive), StopStep::Kill);
    assert_eq!(w.on_probe(Liveness::Gone), StopStep::Stopped);
}

#[test]
fn termination_fails_when_kill_does_not_help() {
    let mut s = fresh();
    s.state = EmuState::On;
    s.process = Some(1234);
    assert_eq!(s.begin_stop().unwrap(), Some(1234));
    let mut w = TerminationWatch::new();
    assert_eq!(w.on_probe(Liveness::Alive), StopStep::Probe);
    assert_eq!(w.on_probe(Liveness::Alive), StopStep::Probe);
    assert_eq!(w.on_probe(Liveness::Alive), StopStep::Kill);
    let last = w.on_probe(Liveness::Alive);
    assert_eq!(last, StopStep::Abort(StopFailure::StillAlive));
    assert!(matches!(
        s.finish_stop(Err(StopFailure::StillAlive)),
        Err(EmuError::StopFailureCause(_))
    ));
    assert_eq!(s.state, EmuState::Error);
}

#[test]
fn termination_probe_error_aborts() {
    let mut w = TerminationWatch::new();
    assert_eq!(w.on_probe(Liveness::Unknown), StopStep::Abort(StopFailure::ProbeFailed));
}

#[test]
fn reconcile_follows_the_subprocess() {
    let mut s = fresh();
    s.state = EmuState::Busy;
    s.process = Some(5);
    s.reconcile(ExitProbe::Running).unwrap();
    assert_eq!(s.state, EmuState::On);
    s.reconcile(ExitProbe::Exited { success: false }).unwrap();
    assert_eq!(s.state, EmuState::Error);
    assert!(s.process.is_none());
    s.state = EmuState::On;
    s.process = Some(6);
    s.reconcile(ExitProbe::Exited { success: true }).unwrap();
    assert_eq!(s.state, EmuState::Off);
    s.process = Some(7);
    assert!(matches!(s.reconcile(ExitProbe::Failed), Err(EmuError::RuntimeError(_))));
    assert_eq!(s.state, EmuState::Off);
}

#[test]
fn reconcile_on_without_process_is_an_error() {
    let mut s = fresh();
    s.state = EmuState::On;
    assert!(matches!(s.reconcile(ExitProbe::Running), Err(EmuError::RuntimeError(_))));
    assert_eq!(s.state, EmuState::Error);
}

#[test]
fn stop_without_process_ends_off() {
    let mut s = fresh();
    s.state = EmuState::Error;
    assert_eq!(s.begin_stop().unwrap(), None);
    assert_eq!(s.state, EmuState::Off);
}

#[test]
fn decimal_forms() {
    assert_eq!(decimal(0), "0");
    assert_eq!(decimal(9), "9");
    assert_eq!(decimal(10), "10");
    assert_eq!(decimal(7000000123), "7000000123");
    assert_eq!(decimal(u128::MAX), "340282366920938463463374607431768211455");
}

#[test]
fn program_paths() {
    let p = |d: &str, e: &str| program_path_of(&d.to_string(), &e.to_string());
    assert_eq!(p("/opt/emu", "bin"), "/opt/emu/bin");
    assert_eq!(p("/opt/emu/", "bin"), "/opt/emu/bin");
    assert_eq!(p("/opt/emu", "/usr/bin/emu"), "/usr/bin/emu");
    assert_eq!(p("", "bin"), "bin");
}
