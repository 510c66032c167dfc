use std::time::{Duration, Instant};

use shroud::dbus::NmEvent;
use shroud::ipc::{IpcCommand, IpcResponse};
use shroud::nm::parse_active_vpns;
use shroud::state::{ActiveVpnInfo, NmVpnState, VpnState};
use shroud::supervisor::connect::{ConnectAction, ConnectEvent, ConnectFlow};
use shroud::supervisor::reconnect::{reconnect_delay_secs, ReconnectAction, ReconnectEvent, ReconnectFlow};
use shroud::supervisor::response_builder::{
    build_list_response, build_status_response, classify_nm_event, needs_disconnect_first,
    validate_connect, StateAction,
};
use shroud::supervisor::sync::{in_grace_period, poll_action, resync_state, sync_decision, PollAction, SyncAction};
use shroud::supervisor::system::{
    lock_conflict_message, lock_file_path, restart_decision, resolve_restart_path, shutdown_steps,
    ShutdownStep,
};
use shroud::supervisor::{
    CONNECTION_MONITOR_INTERVAL_MS, CONNECTION_MONITOR_MAX_ATTEMPTS, DISCONNECT_VERIFY_INTERVAL_MS,
    DISCONNECT_VERIFY_MAX_ATTEMPTS, MAX_CONNECT_ATTEMPTS, MAX_RECONNECT_ATTEMPTS,
    POST_DISCONNECT_GRACE_SECS, RECONNECT_BASE_DELAY_SECS, RECONNECT_MAX_DELAY_SECS,
};
use shroud::tray::VpnCommand;

// --- build_status_response ---

// Both the status of a disconnected supervisor and the disconnect decision
// from the disconnected state.
#[test]
fn response_builder_test_disconnected() {
    let resp = build_status_response(&VpnState::Disconnected, false);
    match resp {
        IpcResponse::Status {
            connected,
            vpn_name,
            state,
            kill_switch_enabled,
            ..
        } => {
            assert!(!connected);
            assert!(vpn_name.is_none());
            assert!(state.contains("Disconnected"));
            assert!(!kill_switch_enabled);
        }
        _ => panic!("Expected Status response"),
    }
    assert!(!needs_disconnect_first(&VpnState::Disconnected, "vpn1"));
}

#[test]
fn test_connected() {
    let s = VpnState::Connected {
        server: "my-vpn".into(),
    };
    let resp = build_status_response(&s, true);
    match resp {
        IpcResponse::Status {
            connected,
            vpn_name,
            state,
            kill_switch_enabled,
            ..
        } => {
            assert!(connected);
            assert_eq!(vpn_name, Some("my-vpn".into()));
            assert!(state.contains("Connected"));
            assert!(kill_switch_enabled);
        }
        _ => panic!("Expected Status"),
    }
}

#[test]
fn test_connecting() {
    let s = VpnState::Connecting {
        server: "vpn1".into(),
    };
    let resp = build_status_response(&s, false);
    match resp {
        IpcResponse::Status {
            connected,
            vpn_name,
            state,
            ..
        } => {
            assert!(!connected);
            assert_eq!(vpn_name, Some("vpn1".into()));
            assert!(state.contains("Connecting"));
        }
        _ => panic!("Expected Status"),
    }
}

#[test]
fn test_reconnecting() {
    let s = VpnState::Reconnecting {
        server: "vpn1".into(),
        attempt: 3,
        max_attempts: 10,
    };
    let resp = build_status_response(&s, false);
    match resp {
        IpcResponse::Status { state, .. } => {
            assert!(state.contains("Reconnecting"));
            assert!(state.contains("3/10"));
        }
        _ => panic!("Expected Status"),
    }
}

#[test]
fn test_degraded() {
    let s = VpnState::Degraded {
        server: "vpn1".into(),
    };
    let resp = build_status_response(&s, false);
    match resp {
        IpcResponse::Status {
            connected, state, ..
        } => {
            assert!(connected);
            assert!(state.contains("Degraded"));
        }
        _ => panic!("Expected Status"),
    }
}

#[test]
fn test_failed() {
    let s = VpnState::Failed {
        server: "vpn1".into(),
        reason: "timeout".into(),
    };
    let resp = build_status_response(&s, false);
    match resp {
        IpcResponse::Status {
            connected, state, ..
        } => {
            assert!(!connected);
            assert!(state.contains("Failed"));
            assert!(state.contains("timeout"));
        }
        _ => panic!("Expected Status"),
    }
}

#[test]
fn status_texts_exact() {
    let cases = vec![
        (VpnState::Disconnected, "Disconnected"),
        (VpnState::Connecting { server: "a".into() }, "Connecting to a"),
        (VpnState::Connected { server: "a".into() }, "Connected to a"),
        (
            VpnState::Reconnecting { server: "a".into(), attempt: 2, max_attempts: 10 },
            "Reconnecting to a (2/10)",
        ),
        (VpnState::Degraded { server: "a".into() }, "Degraded: a"),
        (VpnState::Failed { server: "a".into(), reason: "r".into() }, "Failed: a — r"),
    ];
    for (s, text) in cases {
        match build_status_response(&s, false) {
            IpcResponse::Status { state, vpn_type, .. } => {
                assert_eq!(state, text);
                assert_eq!(vpn_type, None);
            }
            _ => panic!("Expected Status"),
        }
    }
}

// --- build_list_response ---

#[test]
fn test_empty() {
    let resp = build_list_response(&[], None);
    match resp {
        IpcResponse::Connections { connections } => {
            assert!(connections.is_empty());
        }
        _ => panic!("Expected Connections"),
    }
}

#[test]
fn test_with_vpns() {
    let vpns = vec!["vpn1".into(), "vpn2".into()];
    let resp = build_list_response(&vpns, None);
    match resp {
        IpcResponse::Connections { connections } => {
            assert_eq!(connections.len(), 2);
            assert!(connections.iter().all(|c| c.status == "available"));
        }
        _ => panic!("Expected Connections"),
    }
}

#[test]
fn test_with_active() {
    let vpns = vec!["vpn1".into(), "vpn2".into()];
    let resp = build_list_response(&vpns, Some("vpn1"));
    match resp {
        IpcResponse::Connections { connections } => {
            let vpn1 = connections.iter().find(|c| c.name == "vpn1").unwrap();
            assert_eq!(vpn1.status, "active");
            let vpn2 = connections.iter().find(|c| c.name == "vpn2").unwrap();
            assert_eq!(vpn2.status, "available");
        }
        _ => panic!("Expected Connections"),
    }
}

// --- needs_disconnect_first ---

#[test]
fn test_connected_same() {
    let s = VpnState::Connected {
        server: "vpn1".into(),
    };
    assert!(!needs_disconnect_first(&s, "vpn1"));
}

#[test]
fn test_connected_different() {
    let s = VpnState::Connected {
        server: "vpn1".into(),
    };
    assert!(needs_disconnect_first(&s, "vpn2"));
}

#[test]
fn test_connecting_different() {
    let s = VpnState::Connecting {
        server: "vpn1".into(),
    };
    assert!(needs_disconnect_first(&s, "vpn2"));
}

#[test]
fn test_failed_no_disconnect() {
    let s = VpnState::Failed {
        server: "vpn1".into(),
        reason: "err".into(),
    };
    assert!(!needs_disconnect_first(&s, "vpn2"));
}

// --- validate_connect ---

#[test]
fn test_valid() {
    assert!(validate_connect("vpn1", &["vpn1".into()], &VpnState::Disconnected).is_ok());
}

#[test]
fn test_empty_name() {
    assert!(validate_connect("", &["vpn1".into()], &VpnState::Disconnected).is_err());
}

#[test]
fn test_not_found() {
    let err = validate_connect("x", &["vpn1".into()], &VpnState::Disconnected);
    assert!(err.unwrap_err().contains("not found"));
}

#[test]
fn test_already_connected() {
    let s = VpnState::Connected {
        server: "vpn1".into(),
    };
    let err = validate_connect("vpn1", &["vpn1".into()], &s);
    assert!(err.unwrap_err().contains("Already"));
}

#[test]
fn test_switch_allowed() {
    let s = VpnState::Connected {
        server: "vpn1".into(),
    };
    assert!(validate_connect("vpn2", &["vpn1".into(), "vpn2".into()], &s).is_ok());
}

#[test]
fn validate_messages_exact() {
    assert_eq!(
        validate_connect("", &[], &VpnState::Disconnected),
        Err("VPN name cannot be empty".to_string())
    );
    assert_eq!(
        validate_connect("x", &["vpn1".into()], &VpnState::Disconnected),
        Err("VPN 'x' not found".to_string())
    );
    let s = VpnState::Connected { server: "vpn1".into() };
    assert_eq!(
        validate_connect("vpn1", &["vpn1".into()], &s),
        Err("Already connected to 'vpn1'".to_string())
    );
}

// --- classify_nm_event ---

#[test]
fn test_activated() {
    let e = NmEvent::VpnActivated { name: "vpn".into() };
    let a = classify_nm_event(&e, &VpnState::Disconnected, true);
    assert_eq!(a, StateAction::MarkConnected("vpn".into()));
}

#[test]
fn test_activating_is_noop() {
    let e = NmEvent::VpnActivating { name: "vpn".into() };
    let a = classify_nm_event(&e, &VpnState::Disconnected, true);
    assert_eq!(a, StateAction::NoAction);
}

#[test]
fn test_deactivated_no_reconnect() {
    let e = NmEvent::VpnDeactivated { name: "vpn".into() };
    let s = VpnState::Connected {
        server: "vpn".into(),
    };
    let a = classify_nm_event(&e, &s, false);
    assert_eq!(a, StateAction::MarkDisconnected);
}

#[test]
fn test_deactivated_with_reconnect() {
    let e = NmEvent::VpnDeactivated { name: "vpn".into() };
    let s = VpnState::Connected {
        server: "vpn".into(),
    };
    let a = classify_nm_event(&e, &s, true);
    assert_eq!(a, StateAction::TriggerReconnect("vpn".into()));
}

#[test]
fn test_deactivated_from_disconnected_no_reconnect() {
    let e = NmEvent::VpnDeactivated { name: "vpn".into() };
    let a = classify_nm_event(&e, &VpnState::Disconnected, true);
    // Not currently connected, so just mark disconnected
    assert_eq!(a, StateAction::MarkDisconnected);
}

#[test]
fn test_failed_with_reconnect() {
    let e = NmEvent::VpnFailed {
        name: "vpn".into(),
        reason: "timeout".into(),
    };
    let a = classify_nm_event(&e, &VpnState::Disconnected, true);
    assert_eq!(a, StateAction::TriggerReconnect("vpn".into()));
}

#[test]
fn test_failed_no_reconnect() {
    let e = NmEvent::VpnFailed {
        name: "vpn".into(),
        reason: "auth".into(),
    };
    let a = classify_nm_event(&e, &VpnState::Disconnected, false);
    assert_eq!(
        a,
        StateAction::MarkFailed {
            server: "vpn".into(),
            reason: "auth".into()
        }
    );
}

#[test]
fn test_connectivity_changed_is_noop() {
    let e = NmEvent::ConnectivityChanged { connected: true };
    let a = classify_nm_event(&e, &VpnState::Disconnected, true);
    assert_eq!(a, StateAction::NoAction);
}

// --- supervisor constants and timing ---

#[test]
fn test_supervisor_constants_reasonable() {
    assert!(RECONNECT_BASE_DELAY_SECS >= 1);
    assert!(RECONNECT_MAX_DELAY_SECS >= RECONNECT_BASE_DELAY_SECS);
    assert!(RECONNECT_MAX_DELAY_SECS <= 120);
    assert!(POST_DISCONNECT_GRACE_SECS >= 1);
    assert!(DISCONNECT_VERIFY_MAX_ATTEMPTS >= 5);
    assert!(CONNECTION_MONITOR_MAX_ATTEMPTS >= 10);
    assert!(CONNECTION_MONITOR_INTERVAL_MS >= 100);
    assert!(DISCONNECT_VERIFY_INTERVAL_MS >= 100);
    assert!(MAX_CONNECT_ATTEMPTS >= 2);
}

#[test]
fn test_reconnect_timing_calculations() {
    // Attempts are counted from zero here; the library counts them from one.
    fn calc_backoff(attempt: u32) -> u64 {
        reconnect_delay_secs(attempt + 1)
    }

    assert_eq!(calc_backoff(0), RECONNECT_BASE_DELAY_SECS);
    let backoff_100 = calc_backoff(100);
    assert_eq!(backoff_100, RECONNECT_MAX_DELAY_SECS);
}

#[test]
fn test_grace_period_logic() {
    let disconnect_time = Instant::now();
    let grace_duration = Duration::from_secs(POST_DISCONNECT_GRACE_SECS);
    assert!(disconnect_time.elapsed() < grace_duration);
    assert!(in_grace_period(disconnect_time.elapsed().as_secs()));
}

#[test]
fn test_exponential_backoff_sequence() {
    const BASE_DELAY: u64 = 2;
    const MAX_DELAY: u64 = 30;

    // Linear backoff: delay = BASE * (attempt + 1), capped at MAX
    let mut delays = Vec::new();
    for attempt in 0..20u32 {
        let delay = reconnect_delay_secs(attempt + 1);
        delays.push(delay);
    }

    // First delay is BASE_DELAY * 1 = 2
    assert_eq!(delays[0], BASE_DELAY);
    // All delays must be capped at MAX_DELAY
    assert!(delays.iter().all(|&d| d <= MAX_DELAY));
    // After enough attempts, delay should reach MAX_DELAY (2 * 15 = 30)
    assert_eq!(delays[14], MAX_DELAY);
    // And stay at MAX_DELAY
    assert_eq!(*delays.last().unwrap(), MAX_DELAY);
}

#[test]
fn test_retry_reset_on_success() {
    let mut retries = 5;
    let success = true;
    if success {
        retries = 0;
    }
    assert_eq!(retries, 0);
}

#[test]
fn test_vpn_command_serialization() {
    let connect_cmd = VpnCommand::Connect("test-vpn".to_string());
    let disconnect_cmd = VpnCommand::Disconnect;
    let toggle_ks = VpnCommand::ToggleKillSwitch;

    match connect_cmd {
        VpnCommand::Connect(name) => assert_eq!(name, "test-vpn"),
        _ => panic!("Expected Connect"),
    }
    match disconnect_cmd {
        VpnCommand::Disconnect => {}
        _ => panic!("Expected Disconnect"),
    }
    match toggle_ks {
        VpnCommand::ToggleKillSwitch => {}
        _ => panic!("Expected ToggleKillSwitch"),
    }
}

#[test]
fn test_ipc_command_response_types() {
    let status_cmd = IpcCommand::Status;
    let connect_cmd = IpcCommand::Connect { name: "my-vpn".to_string() };

    let ok_response = IpcResponse::Success;
    let err_response = IpcResponse::Error { message: "Failed".to_string() };

    match status_cmd {
        IpcCommand::Status => {}
        _ => panic!("Expected Status"),
    }

    match connect_cmd {
        IpcCommand::Connect { name } => assert_eq!(name, "my-vpn"),
        _ => panic!("Expected Connect"),
    }

    assert!(matches!(ok_response, IpcResponse::Success));

    if let IpcResponse::Error { message } = err_response {
        assert_eq!(message, "Failed");
    }
}

#[test]
fn test_vpn_state_server_name() {
    let state = VpnState::Connected { server: "test".to_string() };
    assert_eq!(state.server_name(), Some("test"));

    let state = VpnState::Disconnected;
    assert_eq!(state.server_name(), None);
}

// --- reconciliation with NetworkManager ---

fn active(name: &str, state: NmVpnState) -> Option<ActiveVpnInfo> {
    Some(ActiveVpnInfo { name: name.to_string(), state })
}

#[test]
fn sync_follows_network_manager() {
    let connected = VpnState::Connected { server: "a".into() };
    // Dropped with auto-reconnect: reconnect, state unchanged.
    assert_eq!(
        sync_decision(false, &connected, true, None),
        (None, SyncAction::Reconnect { server: "a".into() })
    );
    // Dropped without auto-reconnect: disconnected, tell the user.
    assert_eq!(
        sync_decision(false, &connected, false, None),
        (Some(VpnState::Disconnected), SyncAction::NotifyDropped)
    );
    // Switched outside the supervisor.
    assert_eq!(
        sync_decision(false, &connected, true, active("b", NmVpnState::Activated)),
        (Some(VpnState::Connected { server: "b".into() }), SyncAction::Nothing)
    );
    // Activating from disconnected.
    assert_eq!(
        sync_decision(false, &VpnState::Disconnected, true, active("c", NmVpnState::Activating)),
        (Some(VpnState::Connecting { server: "c".into() }), SyncAction::Nothing)
    );
    // Failed and nothing active: back to disconnected.
    let failed = VpnState::Failed { server: "a".into(), reason: "x".into() };
    assert_eq!(
        sync_decision(false, &failed, true, None),
        (Some(VpnState::Disconnected), SyncAction::Nothing)
    );
}

#[test]
fn sync_in_grace_period_does_nothing() {
    let connected = VpnState::Connected { server: "a".into() };
    assert_eq!(sync_decision(true, &connected, false, None), (None, SyncAction::Nothing));
    assert!(in_grace_period(POST_DISCONNECT_GRACE_SECS - 1));
    assert!(!in_grace_period(POST_DISCONNECT_GRACE_SECS));
}

#[test]
fn sync_after_resync_is_noop() {
    let cur = VpnState::Disconnected;
    let resynced = resync_state(&cur, active("a", NmVpnState::Activated));
    assert_eq!(resynced, VpnState::Connected { server: "a".into() });
    assert_eq!(
        sync_decision(false, &resynced, true, active("a", NmVpnState::Activated)),
        (None, SyncAction::Nothing)
    );
    let reconnecting = VpnState::Reconnecting { server: "a".into(), attempt: 2, max_attempts: 10 };
    assert_eq!(resync_state(&reconnecting, None), reconnecting);
    assert_eq!(resync_state(&VpnState::Connected { server: "a".into() }, None), VpnState::Disconnected);
}

#[test]
fn poll_detects_time_jumps() {
    assert_eq!(poll_action(2, 0), PollAction::Sync);
    assert_eq!(poll_action(6, 0), PollAction::Sync);
    assert_eq!(poll_action(6, 1), PollAction::Resync);
    assert_eq!(poll_action(60, 0), PollAction::Resync);
}

// --- connecting on request ---

#[test]
fn connect_from_disconnected_succeeds() {
    let mut flow = ConnectFlow::new("work", None);
    assert_eq!(
        flow.step(ConnectEvent::Proceed),
        ConnectAction::Announce { state: VpnState::Connecting { server: "work".into() } }
    );
    assert_eq!(flow.step(ConnectEvent::Proceed), ConnectAction::Connect);
    assert_eq!(flow.step(ConnectEvent::ConnectIssued(true)), ConnectAction::PollTarget);
    assert_eq!(
        flow.step(ConnectEvent::Polled(Some(NmVpnState::Activating))),
        ConnectAction::PollTarget
    );
    assert_eq!(
        flow.step(ConnectEvent::Polled(Some(NmVpnState::Activated))),
        ConnectAction::MarkConnected { state: VpnState::Connected { server: "work".into() } }
    );
    assert!(flow.is_finished());
    assert_eq!(flow.step(ConnectEvent::Proceed), ConnectAction::Nothing);
}

#[test]
fn connect_switches_away_from_previous() {
    let mut flow = ConnectFlow::new("b", Some("a"));
    assert_eq!(
        flow.step(ConnectEvent::Proceed),
        ConnectAction::BeginSwitch {
            from: "a".into(),
            state: VpnState::Connecting { server: "b".into() }
        }
    );
    assert_eq!(flow.step(ConnectEvent::Proceed), ConnectAction::PollPrevious { name: "a".into() });
    assert_eq!(
        flow.step(ConnectEvent::Polled(Some(NmVpnState::Deactivating))),
        ConnectAction::PollPrevious { name: "a".into() }
    );
    assert_eq!(flow.step(ConnectEvent::Polled(None)), ConnectAction::FinishSwitch);
    assert_eq!(
        flow.step(ConnectEvent::Proceed),
        ConnectAction::Announce { state: VpnState::Connecting { server: "b".into() } }
    );
}

#[test]
fn connect_to_current_is_noop() {
    let mut flow = ConnectFlow::new("a", Some("a"));
    assert_eq!(flow.step(ConnectEvent::Proceed), ConnectAction::Nothing);
    assert!(flow.is_finished());
}

#[test]
fn connect_gives_up_after_max_attempts() {
    let mut flow = ConnectFlow::new("x", None);
    flow.step(ConnectEvent::Proceed);
    let mut action = flow.step(ConnectEvent::Proceed);
    let mut requests = 0;
    loop {
        match action {
            ConnectAction::Connect => {
                requests += 1;
                action = flow.step(ConnectEvent::ConnectIssued(false));
            }
            ConnectAction::PauseBeforeRetry => action = flow.step(ConnectEvent::Proceed),
            ConnectAction::MarkFailed { state } => {
                assert_eq!(
                    state,
                    VpnState::Failed {
                        server: "x".into(),
                        reason: "Connection verification failed".into()
                    }
                );
                break;
            }
            other => panic!("unexpected {:?}", other),
        }
    }
    assert_eq!(requests, MAX_CONNECT_ATTEMPTS);
    assert!(flow.is_finished());
}

// --- reconnecting after a drop ---

#[test]
fn reconnect_succeeds_on_first_attempt() {
    let mut flow = ReconnectFlow::new("vpn", 1);
    assert_eq!(
        flow.step(ReconnectEvent::Proceed),
        ReconnectAction::Attempt {
            state: VpnState::Reconnecting { server: "vpn".into(), attempt: 1, max_attempts: 10 },
            delay_secs: 2
        }
    );
    assert_eq!(flow.step(ReconnectEvent::ConnectIssued(true)), ReconnectAction::Verify { delay_secs: 5 });
    assert_eq!(
        flow.step(ReconnectEvent::ActiveVpn(Some("vpn".into()))),
        ReconnectAction::MarkConnected { state: VpnState::Connected { server: "vpn".into() } }
    );
    assert!(flow.is_finished());
}

#[test]
fn reconnect_gives_up_after_max_attempts() {
    let mut flow = ReconnectFlow::new("vpn", 1);
    let mut action = flow.step(ReconnectEvent::Proceed);
    let mut attempts = 0;
    loop {
        match action {
            ReconnectAction::Attempt { delay_secs, .. } => {
                attempts += 1;
                assert_eq!(delay_secs, reconnect_delay_secs(attempts));
                action = flow.step(ReconnectEvent::ConnectIssued(true));
            }
            ReconnectAction::Verify { .. } => {
                action = flow.step(ReconnectEvent::ActiveVpn(Some("other".into())));
            }
            ReconnectAction::MarkFailed { state } => {
                assert_eq!(
                    state,
                    VpnState::Failed { server: "vpn".into(), reason: "Max attempts (10) exceeded".into() }
                );
                break;
            }
            other => panic!("unexpected {:?}", other),
        }
    }
    assert_eq!(attempts, MAX_RECONNECT_ATTEMPTS);
}

#[test]
fn reconnect_delays() {
    assert_eq!(reconnect_delay_secs(1), 2);
    assert_eq!(reconnect_delay_secs(5), 10);
    assert_eq!(reconnect_delay_secs(15), 30);
    assert_eq!(reconnect_delay_secs(16), 30);
    assert_eq!(reconnect_delay_secs(u32::MAX), 30);
}

// --- lifecycle ---

#[test]
fn lock_paths_and_messages() {
    assert_eq!(lock_file_path("/run/user/1000"), "/run/user/1000/openvpn-tray.lock");
    assert_eq!(lock_file_path("/run/user/1000/"), "/run/user/1000/openvpn-tray.lock");
    assert_eq!(lock_conflict_message(" 4242\n"), "Another instance is already running (PID 4242)");
    assert_eq!(lock_conflict_message(""), "Another instance is already running");
    assert_eq!(lock_conflict_message("-5"), "Another instance is already running");
    assert_eq!(lock_conflict_message("99999999999"), "Another instance is already running");
}

#[test]
fn shutdown_orders() {
    assert_eq!(
        shutdown_steps(true, true),
        vec![
            ShutdownStep::CleanUpKillSwitch,
            ShutdownStep::AnnounceShutdown { pause_ms: 300 },
            ShutdownStep::ReleaseLock,
            ShutdownStep::RemoveSocket,
            ShutdownStep::RequestExit,
        ]
    );
    assert_eq!(
        shutdown_steps(false, false),
        vec![ShutdownStep::ReleaseLock, ShutdownStep::RemoveSocket]
    );
}

#[test]
fn restart_paths() {
    assert_eq!(restart_decision("/usr/bin/shroud", true, false), Ok("/usr/bin/shroud".to_string()));
    assert_eq!(
        restart_decision("/usr/bin/shroud (deleted)", false, true),
        Ok("/usr/bin/shroud".to_string())
    );
    let refused = Err(
        "Running binary has been deleted. Cannot safely restart. Please restart manually: shroud"
            .to_string(),
    );
    assert_eq!(restart_decision("/usr/bin/shroud (deleted)", true, false), refused);
    assert_eq!(restart_decision("/usr/bin/shroud", false, false), refused);
    assert_eq!(
        resolve_restart_path(Err("no such file".to_string())),
        Err("Failed to get executable path: no such file".to_string())
    );
}

// --- NetworkManager's active connections ---

#[test]
fn active_vpns_from_nmcli() {
    let out = "Home WiFi:802-11-wireless:activated\nwork:vpn:activating\nwg0:wireguard:activated\nold:vpn:deactivating\nodd:vpn:unknown\nshort:vpn\n";
    let got: Vec<(String, NmVpnState)> =
        parse_active_vpns(out).into_iter().map(|a| (a.name, a.state)).collect();
    assert_eq!(
        got,
        vec![
            ("work".to_string(), NmVpnState::Activating),
            ("wg0".to_string(), NmVpnState::Activated),
            ("old".to_string(), NmVpnState::Deactivating),
            ("odd".to_string(), NmVpnState::Inactive),
        ]
    );
    assert!(parse_active_vpns("").is_empty());
}
