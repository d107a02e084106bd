use sbtltv::mpv::external::{
    find_mpv_binary, get_socket_path, mpv_candidates, handle_mpv_event, ExternalMpv, ExternalMpvState, HostAction, SupervisorState,
    SETTLE_MILLIS,
};
use sbtltv::mpv::ipc::{MpvEvent, MpvResponse};
use sbtltv::mpv::{
    external_window_started, flag_reading, init_mpv, mpv_disable_external_window,
    mpv_enable_external_window, mpv_get_status, mpv_load, mpv_pause, mpv_play, mpv_seek,
    mpv_set_volume, mpv_stop, mpv_toggle_mute, mpv_toggle_pause, CommandStep, MpvResult,
    MpvState, MpvStatus,
};
use sbtltv::platform::Platform;

fn running_standalone() -> ExternalMpv {
    let (mut mpv, _) = ExternalMpv::new_standalone(Some("/usr/bin/mpv".to_string()), 4242).unwrap();
    assert_eq!(mpv.connected(Ok(())), Ok(true));
    let _ = mpv.register_observers().unwrap();
    mpv.ready();
    mpv
}

fn running_embedded() -> ExternalMpv {
    let (mut mpv, _) = ExternalMpv::new_embedded(Some("mpv.exe".to_string()), 7, 99).unwrap();
    assert_eq!(mpv.connected(Ok(())), Ok(false));
    let lines = mpv.register_observers().unwrap();
    assert!(lines.is_empty());
    mpv.ready();
    mpv
}

fn sent(step: CommandStep) -> String {
    match step {
        CommandStep::Send(request) => request.line,
        CommandStep::Done(result) => panic!("expected a line, got {:?}", result),
    }
}

fn done(step: CommandStep) -> MpvResult {
    match step {
        CommandStep::Done(result) => result,
        CommandStep::Send(request) => panic!("expected a result, got {:?}", request),
    }
}

#[test]
fn socket_path_goes_by_the_process_id() {
    assert_eq!(get_socket_path(4242, false), "/tmp/mpv-socket-4242");
    assert_eq!(get_socket_path(0, false), "/tmp/mpv-socket-0");
    assert_eq!(get_socket_path(4294967295, true), "\\\\.\\pipe\\mpv-socket-4294967295");
}

#[test]
fn standalone_launch_plan() {
    let (mpv, plan) = ExternalMpv::new_standalone(Some("/usr/bin/mpv".to_string()), 31).unwrap();
    assert_eq!(mpv.current_state(), SupervisorState::Spawning);
    assert!(!mpv.is_shutting_down());
    assert!(mpv.has_events());
    assert_eq!(plan.binary, "/usr/bin/mpv");
    assert_eq!(plan.socket_path, "/tmp/mpv-socket-31");
    assert!(plan.remove_stale_socket);
    assert_eq!(plan.settle_millis, 500);
    assert_eq!(SETTLE_MILLIS, 500);
    assert!(plan.stdin_closed && plan.output_captured);
    assert_eq!(
        plan.args,
        vec![
            "--input-ipc-server=/tmp/mpv-socket-31",
            "--no-osc",
            "--osd-level=1",
            "--keep-open=yes",
            "--idle=yes",
            "--hwdec=auto",
            "--vo=gpu",
            "--tone-mapping=mobius",
            "--title=sbtlTV Player",
        ]
    );
}

#[test]
fn embedded_launch_plan() {
    let (mpv, plan) = ExternalMpv::new_embedded(Some("mpv.exe".to_string()), 31, -5).unwrap();
    assert_eq!(mpv.current_state(), SupervisorState::Spawning);
    assert!(!mpv.has_events());
    assert!(!plan.remove_stale_socket);
    assert!(plan.stdin_closed && plan.output_captured);
    assert_eq!(plan.socket_path, "\\\\.\\pipe\\mpv-socket-31");
    assert_eq!(
        plan.args,
        vec![
            "--input-ipc-server=\\\\.\\pipe\\mpv-socket-31",
            "--wid=-5",
            "--no-osc",
            "--no-osd-bar",
            "--osd-level=0",
            "--keep-open=yes",
            "--idle=yes",
            "--input-default-bindings=no",
            "--no-input-cursor",
            "--cursor-autohide=no",
            "--no-terminal",
            "--really-quiet",
            "--hwdec=auto",
            "--vo=gpu",
            "--tone-mapping=mobius",
        ]
    );
    let (_, plan) = ExternalMpv::new_embedded(Some("mpv.exe".to_string()), 1, i64::MIN).unwrap();
    assert_eq!(plan.args[1], "--wid=-9223372036854775808");
    let (_, plan) = ExternalMpv::new_embedded(Some("mpv.exe".to_string()), 1, 132456).unwrap();
    assert_eq!(plan.args[1], "--wid=132456");
}

#[test]
fn missing_binary_is_an_error() {
    let e = ExternalMpv::new_embedded(None, 1, 1).err().unwrap();
    assert_eq!(e, "mpv not found - install mpv or check bundled resources");
    let e = ExternalMpv::new_standalone(None, 1).err().unwrap();
    assert_eq!(e, "mpv not found - install via package manager");
}

#[test]
fn spawn_failure_ends_in_failed() {
    let (mut mpv, _) = ExternalMpv::new_standalone(Some("mpv".to_string()), 1).unwrap();
    assert_eq!(mpv.spawn_failed("No such file"), "Failed to spawn mpv: No such file");
    assert_eq!(mpv.current_state(), SupervisorState::Failed);
    assert!(!mpv.is_running());
}

#[test]
fn connect_failure_ends_in_failed() {
    let (mut mpv, _) = ExternalMpv::new_standalone(Some("mpv".to_string()), 1).unwrap();
    let e = mpv.connected(Err("refused".to_string())).err().unwrap();
    assert_eq!(e, "Failed to connect to mpv socket: refused");
    assert_eq!(mpv.current_state(), SupervisorState::Failed);
    let (mut mpv, _) = ExternalMpv::new_embedded(Some("mpv".to_string()), 1, 1).unwrap();
    let e = mpv.connected(Err("busy".to_string())).err().unwrap();
    assert_eq!(e, "Failed to connect to mpv pipe: busy");
}

#[test]
fn reader_and_observer_failures_end_in_failed() {
    let (mut mpv, _) = ExternalMpv::new_standalone(Some("mpv".to_string()), 1).unwrap();
    let _ = mpv.connected(Ok(()));
    assert_eq!(mpv.current_state(), SupervisorState::Connected);
    assert_eq!(mpv.reader_started(Ok(())), Ok(()));
    assert_eq!(mpv.current_state(), SupervisorState::Connected);
    assert_eq!(
        mpv.reader_started(Err("refused".to_string())),
        Err("Failed to connect to mpv socket for reading: refused".to_string())
    );
    assert_eq!(mpv.current_state(), SupervisorState::Failed);

    let (mut mpv, _) = ExternalMpv::new_embedded(Some("mpv".to_string()), 1, 1).unwrap();
    let _ = mpv.connected(Ok(()));
    assert_eq!(
        mpv.reader_started(Err("gone".to_string())),
        Err("Failed to open mpv pipe for reading: gone".to_string())
    );

    let (mut mpv, _) = ExternalMpv::new_standalone(Some("mpv".to_string()), 1).unwrap();
    let _ = mpv.connected(Ok(()));
    let _ = mpv.register_observers().unwrap();
    assert_eq!(
        mpv.observers_failed("Failed to send command: broken pipe".to_string()),
        "Failed to send command: broken pipe"
    );
    assert_eq!(mpv.current_state(), SupervisorState::Failed);
}

#[test]
fn observers_are_registered_when_events_are_read() {
    let (mut mpv, _) = ExternalMpv::new_standalone(Some("mpv".to_string()), 1).unwrap();
    let _ = mpv.connected(Ok(()));
    let lines = mpv.register_observers().unwrap();
    assert_eq!(
        lines,
        vec![
            "{\"command\":[\"observe_property\",\"1\",\"pause\"],\"request_id\":1}\n",
            "{\"command\":[\"observe_property\",\"2\",\"volume\"],\"request_id\":2}\n",
            "{\"command\":[\"observe_property\",\"3\",\"mute\"],\"request_id\":3}\n",
            "{\"command\":[\"observe_property\",\"4\",\"time-pos\"],\"request_id\":4}\n",
            "{\"command\":[\"observe_property\",\"5\",\"duration\"],\"request_id\":5}\n",
        ]
    );
    assert_eq!(mpv.pending_count(), 0);
    assert_eq!(mpv.current_state(), SupervisorState::Connected);
    mpv.ready();
    assert_eq!(mpv.current_state(), SupervisorState::Running);
    assert!(mpv.is_running() && mpv.has_free_id());
}

#[test]
fn commands_as_lines() {
    let mut mpv = running_embedded();
    assert_eq!(mpv.load("http://x/y.ts").unwrap().line, "{\"command\":[\"loadfile\",\"http://x/y.ts\"],\"request_id\":1}\n");
    assert_eq!(mpv.play().unwrap().line, "{\"command\":[\"set_property\",\"pause\",\"no\"],\"request_id\":2}\n");
    assert_eq!(mpv.pause().unwrap().line, "{\"command\":[\"set_property\",\"pause\",\"yes\"],\"request_id\":3}\n");
    assert_eq!(mpv.toggle_pause().unwrap().line, "{\"command\":[\"cycle\",\"pause\"],\"request_id\":4}\n");
    assert_eq!(mpv.stop().unwrap().line, "{\"command\":[\"stop\"],\"request_id\":5}\n");
    assert_eq!(mpv.set_volume("250").unwrap().line, "{\"command\":[\"set_property\",\"volume\",\"250\"],\"request_id\":6}\n");
    assert_eq!(mpv.toggle_mute().unwrap().line, "{\"command\":[\"cycle\",\"mute\"],\"request_id\":7}\n");
    assert_eq!(mpv.seek("-12.5").unwrap().line, "{\"command\":[\"seek\",\"-12.5\",\"absolute\"],\"request_id\":8}\n");
    let status = mpv.read_status_property("time-pos").unwrap();
    assert_eq!(status.request_id, 9);
    assert_eq!(status.line, "{\"command\":[\"get_property\",\"time-pos\"],\"request_id\":9}\n");
    assert_eq!(mpv.pending_count(), 9);
}

#[test]
fn shutdown_sets_the_flag_and_plans_the_teardown() {
    let mut mpv = running_standalone();
    assert!(!mpv.is_shutting_down());
    let plan = mpv.shutdown();
    assert!(mpv.is_shutting_down());
    assert_eq!(mpv.current_state(), SupervisorState::ShuttingDown);
    assert_eq!(plan.quit_line, "{\"command\":[\"quit\"],\"request_id\":6}\n");
    assert!(plan.kill_process);
    assert_eq!(plan.remove_socket.as_deref(), Some("/tmp/mpv-socket-4242"));
    assert_eq!(mpv.pending_count(), 0);
    assert!(!mpv.is_running());
    mpv.terminated();
    assert_eq!(mpv.current_state(), SupervisorState::Terminated);
    assert!(mpv.is_shutting_down());
}

#[test]
fn shutdown_of_a_named_pipe_removes_no_file() {
    let mut mpv = running_embedded();
    let plan = mpv.shutdown();
    assert_eq!(plan.quit_line, "{\"command\":[\"quit\"],\"request_id\":1}\n");
    assert!(plan.kill_process);
    assert_eq!(plan.remove_socket, None);
}

#[test]
fn inbound_lines_at_the_supervisor() {
    let mut mpv = running_standalone();
    let request = mpv.read_status_property("pause").unwrap();
    let event = "{\"event\":\"property-change\",\"id\":1,\"name\":\"pause\",\"data\":true}";
    assert!(matches!(mpv.handle_line(event), HostAction::EmitPropertyChange));
    let other = "{\"event\":\"property-change\",\"id\":9,\"name\":\"speed\",\"data\":1}";
    assert!(matches!(mpv.handle_line(other), HostAction::Nothing));
    let reply = format!("{{\"error\":\"success\",\"data\":true,\"request_id\":{}}}", request.request_id);
    match mpv.handle_line(&reply) {
        HostAction::Fulfil(id, r) => {
            assert_eq!(id, request.request_id);
            assert_eq!(flag_reading(&Ok(r.data)), Some(true));
        }
        other => panic!("{:?}", other),
    }
    assert!(matches!(mpv.handle_line(&reply), HostAction::Nothing));
    let _ = mpv.shutdown();
    assert!(matches!(mpv.handle_line(event), HostAction::Nothing));
}

#[test]
fn events_worth_telling() {
    let event = |kind: &str, name: Option<&str>| MpvEvent {
        event: kind.to_string(),
        name: name.map(|n| n.to_string()),
        data: None,
        id: None,
    };
    for name in ["pause", "volume", "mute", "time-pos", "duration"] {
        assert!(handle_mpv_event(&event("property-change", Some(name))));
    }
    assert!(!handle_mpv_event(&event("property-change", Some("speed"))));
    assert!(!handle_mpv_event(&event("property-change", None)));
    assert!(!handle_mpv_event(&event("seek", Some("pause"))));
}

#[test]
fn empty_state_is_not_started() {
    let state = ExternalMpvState::new();
    assert!(state.mpv.is_none());
    assert_eq!(state.state(), SupervisorState::NotStarted);
    let held = ExternalMpvState { mpv: Some(running_embedded()) };
    assert_eq!(held.state(), SupervisorState::Running);
}

#[test]
fn result_constructors() {
    let ok = MpvResult::ok();
    assert_eq!((ok.success, ok.error), (Some(true), None));
    let err = MpvResult::err("boom".to_string());
    assert_eq!((err.success, err.error), (None, Some("boom".to_string())));
    let set = MpvResult::from_property_set(Err("x".to_string()));
    assert_eq!((set.success, set.error), (None, Some("x".to_string())));
    let set = MpvResult::from_property_set(Ok(()));
    assert_eq!((set.success, set.error), (Some(true), None));
}

#[test]
fn result_from_reply() {
    let reply = |error: &str| MpvResponse { error: error.to_string(), data: None, request_id: Some(1) };
    let r = MpvResult::from_reply(Ok(reply("success")));
    assert_eq!((r.success, r.error), (Some(true), None));
    let r = MpvResult::from_reply(Ok(reply("invalid parameter")));
    assert_eq!((r.success, r.error), (None, Some("invalid parameter".to_string())));
    let r = MpvResult::from_reply(Err("Command timeout".to_string()));
    assert_eq!((r.success, r.error), (None, Some("Command timeout".to_string())));
}

#[test]
fn init_on_windows() {
    let (state, out) = init_mpv(Platform::Windows, None);
    assert!(state.external.mpv.is_none());
    assert_eq!(out, Err("Main window not found".to_string()));
    let (state, out) = init_mpv(Platform::Windows, Some(Err("Failed to spawn mpv: x".to_string())));
    assert!(state.external.mpv.is_none());
    assert_eq!(out, Err("Failed to spawn mpv: x".to_string()));
    let (state, out) = init_mpv(Platform::Windows, Some(Ok(running_embedded())));
    assert!(state.external.mpv.is_some());
    assert_eq!(out, Ok(false));
}

#[test]
fn init_elsewhere() {
    for platform in [Platform::MacOs, Platform::Linux] {
        let (state, out) = init_mpv(platform, None);
        assert_eq!(state.platform, platform);
        assert!(state.external.mpv.is_none());
        assert_eq!(out, Ok(true));
    }
}

#[test]
fn commands_without_an_engine() {
    for platform in [Platform::Windows, Platform::MacOs, Platform::Linux] {
        let (mut state, _) = init_mpv(platform, None);
        assert!(!state.is_active());
        let results = [
            done(mpv_load(&mut state, "http://example.com/a.ts")),
            done(mpv_play(&mut state)),
            done(mpv_pause(&mut state)),
            done(mpv_toggle_pause(&mut state)),
            done(mpv_stop(&mut state)),
            done(mpv_set_volume(&mut state, "50")),
            done(mpv_toggle_mute(&mut state)),
            done(mpv_seek(&mut state, "1")),
        ];
        for r in results {
            assert_eq!((r.success, r.error), (None, Some("mpv not initialized".to_string())));
        }
        assert!(state.external.mpv.is_none());
        assert_eq!(mpv_get_status(&state), Some(MpvStatus::idle()));
    }
}

#[test]
fn status_of_a_supervisor() {
    let mpv = running_embedded();
    assert_eq!(
        mpv.get_status(Some(false), Some(42000), None, Some(1500), None),
        MpvStatus { playing: true, volume: 42000, muted: false, position: 1500, duration: 0 }
    );
}

#[test]
fn commands_with_an_engine() {
    let (mut state, _) = init_mpv(Platform::Windows, Some(Ok(running_embedded())));
    assert_eq!(sent(mpv_load(&mut state, "u")), "{\"command\":[\"loadfile\",\"u\"],\"request_id\":1}\n");
    assert_eq!(sent(mpv_play(&mut state)), "{\"command\":[\"set_property\",\"pause\",\"no\"],\"request_id\":2}\n");
    assert_eq!(sent(mpv_pause(&mut state)), "{\"command\":[\"set_property\",\"pause\",\"yes\"],\"request_id\":3}\n");
    assert_eq!(sent(mpv_toggle_pause(&mut state)), "{\"command\":[\"cycle\",\"pause\"],\"request_id\":4}\n");
    assert_eq!(sent(mpv_stop(&mut state)), "{\"command\":[\"stop\"],\"request_id\":5}\n");
    assert_eq!(sent(mpv_set_volume(&mut state, "30")), "{\"command\":[\"set_property\",\"volume\",\"30\"],\"request_id\":6}\n");
    assert_eq!(sent(mpv_toggle_mute(&mut state)), "{\"command\":[\"cycle\",\"mute\"],\"request_id\":7}\n");
    assert_eq!(sent(mpv_seek(&mut state, "90")), "{\"command\":[\"seek\",\"90\",\"absolute\"],\"request_id\":8}\n");
    assert_eq!(mpv_get_status(&state), None);
}

#[test]
fn external_window_only_on_linux() {
    for platform in [Platform::Windows, Platform::MacOs] {
        let (mut state, _) = init_mpv(platform, None);
        let e = mpv_enable_external_window(&state).err().unwrap();
        assert_eq!(e.error, Some("External window mode only available on Linux".to_string()));
        let (r, plan) = mpv_disable_external_window(&mut state);
        assert_eq!(r.error, Some("External window mode only available on Linux".to_string()));
        assert!(plan.is_none());
    }
}

#[test]
fn external_window_on_linux() {
    let (mut state, _) = init_mpv(Platform::Linux, None);
    assert!(mpv_enable_external_window(&state).is_ok());
    let r = external_window_started(&mut state, Err("Failed to spawn mpv: x".to_string()));
    assert_eq!((r.success, r.error), (None, Some("Failed to spawn mpv: x".to_string())));
    assert!(state.external.mpv.is_none());

    let r = external_window_started(&mut state, Ok(running_standalone()));
    assert_eq!((r.success, r.error), (Some(true), None));
    let e = mpv_enable_external_window(&state).err().unwrap();
    assert_eq!(e.error, Some("External mpv already running".to_string()));

    let (r, plan) = mpv_disable_external_window(&mut state);
    assert_eq!(r.success, Some(true));
    let plan = plan.unwrap();
    assert!(plan.kill_process);
    assert_eq!(plan.remove_socket.as_deref(), Some("/tmp/mpv-socket-4242"));
    assert!(state.external.mpv.is_none());
    let (r, plan) = mpv_disable_external_window(&mut state);
    assert_eq!(r.success, Some(true));
    assert!(plan.is_none());
}

#[test]
fn status_defaults_field_by_field() {
    let all = MpvStatus::from_readings(Some(false), Some(42000), Some(true), Some(1500), Some(90000));
    assert_eq!(
        all,
        MpvStatus { playing: true, volume: 42000, muted: true, position: 1500, duration: 90000 }
    );
    let s = MpvStatus::from_readings(None, Some(42000), Some(true), Some(1500), Some(90000));
    assert_eq!(s, MpvStatus { playing: false, ..all });
    let s = MpvStatus::from_readings(Some(false), None, Some(true), Some(1500), Some(90000));
    assert_eq!(s, MpvStatus { volume: 100000, ..all });
    let s = MpvStatus::from_readings(Some(false), Some(42000), None, Some(1500), Some(90000));
    assert_eq!(s, MpvStatus { muted: false, ..all });
    let s = MpvStatus::from_readings(Some(false), Some(42000), Some(true), None, Some(90000));
    assert_eq!(s, MpvStatus { position: 0, ..all });
    let s = MpvStatus::from_readings(Some(false), Some(42000), Some(true), Some(1500), None);
    assert_eq!(s, MpvStatus { duration: 0, ..all });
    assert_eq!(
        MpvStatus::idle(),
        MpvStatus { playing: false, volume: 100000, muted: false, position: 0, duration: 0 }
    );
    assert_eq!(MpvStatus::from_readings(Some(true), None, None, None, None).playing, false);
}

#[test]
fn flag_readings() {
    assert_eq!(flag_reading(&Ok(Some(serde_json::Value::Bool(true)))), Some(true));
    assert_eq!(flag_reading(&Ok(Some(serde_json::Value::Bool(false)))), Some(false));
    assert_eq!(flag_reading(&Ok(Some(serde_json::Value::from("true")))), None);
    assert_eq!(flag_reading(&Ok(Some(serde_json::Value::from(1u64)))), None);
    assert_eq!(flag_reading(&Ok(None)), None);
    assert_eq!(flag_reading(&Err("property unavailable".to_string())), None);
}

#[test]
fn places_of_the_binary_in_order() {
    assert_eq!(
        mpv_candidates(Platform::Linux, Some("/opt/app"), Some("x")),
        vec!["/usr/bin/mpv", "/usr/local/bin/mpv"]
    );
    assert_eq!(
        mpv_candidates(Platform::MacOs, Some("/Apps/tv/Resources"), None),
        vec![
            "/Apps/tv/Resources/mpv/MacOS/mpv",
            "/opt/homebrew/bin/mpv",
            "/usr/local/bin/mpv",
            "/usr/bin/mpv"
        ]
    );
    assert_eq!(
        mpv_candidates(Platform::MacOs, None, None),
        vec!["/opt/homebrew/bin/mpv", "/usr/local/bin/mpv", "/usr/bin/mpv"]
    );
    assert_eq!(
        mpv_candidates(Platform::Windows, Some("C:\\tv"), Some("C:\\Users\\me\\AppData\\Local")),
        vec![
            "C:\\tv\\mpv\\mpv.exe",
            "C:\\Program Files\\mpv\\mpv.exe",
            "C:\\Program Files (x86)\\mpv\\mpv.exe",
            "C:\\ProgramData\\chocolatey\\lib\\mpvio.install\\tools\\mpv.exe",
            "C:\\Users\\me\\AppData\\Local\\Programs\\mpv\\mpv.exe"
        ]
    );
    assert_eq!(mpv_candidates(Platform::Windows, None, None).len(), 3);
}

#[test]
fn the_first_place_with_a_binary_wins() {
    let places = mpv_candidates(Platform::MacOs, Some("/r"), None);
    assert_eq!(find_mpv_binary(&places, &vec![false, false, true, true]), Some("/usr/local/bin/mpv".to_string()));
    assert_eq!(find_mpv_binary(&places, &vec![true, false, true, true]), Some("/r/mpv/MacOS/mpv".to_string()));
    assert_eq!(find_mpv_binary(&places, &vec![false, false, false, false]), None);
    assert_eq!(find_mpv_binary(&places, &vec![false]), None);
    assert_eq!(find_mpv_binary(&places, &Vec::new()), None);
    assert_eq!(find_mpv_binary(&Vec::new(), &vec![true]), None);
}
