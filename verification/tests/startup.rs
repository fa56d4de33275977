use sidecar_boot::init_step::InitStep;
use sidecar_boot::log_buffer::LogBuffer;
use sidecar_boot::orchestrator::{ConnectAction, Orchestrator};
use sidecar_boot::resolver::{local_url, Resolver, ResolverAction, ServerConnection};
use sidecar_boot::server_state::ChildHandle;

fn expect_connected(a: ResolverAction) -> ServerConnection {
    match a {
        ResolverAction::Connected { conn } => conn,
        _ => panic!("expected the resolution to be complete"),
    }
}

#[test]
fn custom_url_healthy_reuses_it_and_spawns_nothing() {
    let (mut resolver, action) = Resolver::start(Some(String::from("http://example.com")));
    let probed = match action {
        ResolverAction::ProbeCustom { url } => url,
        _ => panic!("expected a probe of the custom URL"),
    };
    assert_eq!(probed.as_str(), "http://example.com");
    let conn = expect_connected(resolver.on_custom_health(true));
    match conn {
        ServerConnection::Existing { url } => assert_eq!(url.as_str(), "http://example.com"),
        ServerConnection::CLI { .. } => panic!("a healthy custom URL must never lead to a spawn"),
    }
}

#[test]
fn local_port_already_serving_is_reused() {
    let (mut resolver, action) = Resolver::start(None);
    assert!(matches!(action, ResolverAction::ResolvePort));
    let action = resolver.on_port(51234);
    let probed = match action {
        ResolverAction::ProbeLocal { url } => url,
        _ => panic!("expected a probe of the local URL"),
    };
    assert_eq!(probed.as_str(), "http://127.0.0.1:51234");
    let conn = expect_connected(resolver.on_local_health(true));
    match conn {
        ServerConnection::Existing { url } => {
            assert_eq!(url.as_str(), "http://127.0.0.1:51234")
        }
        ServerConnection::CLI { .. } => panic!("an already-serving port must never lead to a spawn"),
    }
}

#[test]
fn declined_custom_url_falls_back_to_the_local_port() {
    let (mut resolver, _) = Resolver::start(Some(String::from("http://example.com")));
    let action = resolver.on_custom_health(false);
    assert!(matches!(action, ResolverAction::ResolvePort));
    let action = resolver.on_port(8080);
    assert!(matches!(action, ResolverAction::ProbeLocal { .. }));
}

#[test]
fn nothing_listening_spawns_exactly_once_with_fresh_credential() {
    let (mut resolver, _) = Resolver::start(None);
    resolver.on_port(51234);
    let action = resolver.on_local_health(false);
    let (port, url, password) = match action {
        ResolverAction::Spawn { port, url, password } => (port, url, password),
        _ => panic!("expected exactly one spawn request"),
    };
    assert_eq!(port, 51234);
    assert_eq!(url.as_str(), "http://127.0.0.1:51234");
    assert_eq!(password.chars().count(), 36);
    let conn = expect_connected(resolver.on_spawned(ChildHandle { pid: 77 }));
    match conn {
        ServerConnection::CLI { url, password, child } => {
            assert_eq!(url.as_str(), "http://127.0.0.1:51234");
            let password = password.expect("a spawned server carries a credential");
            assert_eq!(password.chars().count(), 36);
            assert_eq!(child.pid, 77);
        }
        ServerConnection::Existing { .. } => panic!("expected a spawned connection"),
    }
}

#[test]
fn fresh_credentials_differ_between_spawns() {
    let mut passwords = Vec::new();
    for _ in 0..2 {
        let (mut resolver, _) = Resolver::start(None);
        resolver.on_port(51234);
        match resolver.on_local_health(false) {
            ResolverAction::Spawn { password, .. } => passwords.push(password),
            _ => panic!("expected a spawn request"),
        }
    }
    assert_ne!(passwords[0], passwords[1]);
}

#[test]
fn existing_connection_settles_ready_without_credential() {
    let mut orch = Orchestrator::new(false);
    assert!(matches!(orch.current_step(), InitStep::ServerWaiting));
    let action = orch.on_connection(
        ServerConnection::Existing { url: String::from("http://example.com") },
        true,
    );
    assert!(matches!(action, ConnectAction::UseExisting));
    assert!(orch.ready_settled());
    let ready = orch.await_initialization().expect("an existing server is ready");
    assert_eq!(ready.url.as_str(), "http://example.com");
    assert!(ready.password.is_none());
    // No health gating: completion follows straight away.
    assert!(!orch.decide_display(true));
    orch.complete();
    assert!(matches!(orch.current_step(), InitStep::Done));
    assert!(!orch.finish());
    // Nothing was spawned, so shutdown finds nothing to kill.
    assert!(orch.shutdown().is_none());
}

fn spawned_connection(pid: u32) -> ServerConnection {
    ServerConnection::CLI {
        url: local_url(51234),
        password: Some(String::from("a-shared-secret-credential-36-chars!")),
        child: ChildHandle { pid },
    }
}

#[test]
fn healthy_spawn_settles_ok_and_reaches_done() {
    let mut orch = Orchestrator::new(false);
    let action = orch.on_connection(spawned_connection(91), true);
    let (url, password) = match action {
        ConnectAction::StartHealthCheck { url, password } => (url, password),
        _ => panic!("expected the health check to start"),
    };
    assert_eq!(url.as_str(), "http://127.0.0.1:51234");
    assert!(password.is_some());
    assert!(!orch.ready_settled());
    orch.on_health_success();
    assert!(orch.ready_settled());
    let ready = orch.await_initialization().expect("health success settles Ok");
    assert_eq!(ready.url.as_str(), "http://127.0.0.1:51234");
    assert_eq!(
        ready.password.as_deref(),
        Some("a-shared-secret-credential-36-chars!")
    );
    // Ready in time: no loading window, main window directly.
    assert!(!orch.decide_display(true));
    orch.complete();
    assert!(matches!(orch.current_step(), InitStep::Done));
    assert!(!orch.finish());
    // The handle was transferred on success; shutdown takes it exactly once.
    assert_eq!(orch.shutdown().map(|c| c.pid), Some(91));
    assert!(orch.shutdown().is_none());
}

#[test]
fn unhealthy_spawn_is_killed_and_surfaces_the_log_tail() {
    let mut orch = Orchestrator::new(false);
    orch.on_connection(spawned_connection(92), true);
    // The run took longer than the display decision allows.
    assert!(orch.decide_display(false));
    let mut logs = LogBuffer::new();
    for i in 0..210 {
        logs.push(format!("boot line {i}\n"));
    }
    let victim = orch.on_health_timeout(&logs);
    assert_eq!(victim.pid, 92);
    let error = orch.await_initialization().expect_err("timeout settles Err");
    assert!(error.starts_with("Failed to spawn OpenCode Server. Logs:\n"));
    // The diagnostic carries the most recent lines, at most the buffer cap.
    assert!(!error.contains("boot line 9\n"));
    assert!(error.contains("boot line 10\n"));
    assert!(error.contains("boot line 209\n"));
    // The child never reached the shared slot, so shutdown finds nothing.
    assert!(orch.shutdown().is_none());
    // The run still completes; the UI renders the error state.
    orch.complete();
    orch.on_loading_ack();
    assert!(orch.finish());
    assert!(matches!(orch.current_step(), InitStep::Done));
}

#[test]
fn storage_wait_holds_the_health_check_until_the_file_appears() {
    let mut orch = Orchestrator::new(true);
    let mut observed = vec![orch.current_step()];
    let action = orch.on_connection(spawned_connection(93), false);
    assert!(matches!(action, ConnectAction::PollSqlite));
    observed.push(orch.current_step());
    assert!(matches!(orch.current_step(), InitStep::SqliteWaiting));
    // The wait is unbounded: absent file means poll again, nothing else.
    assert!(matches!(orch.on_sqlite_poll(false), ConnectAction::PollSqlite));
    assert!(matches!(orch.on_sqlite_poll(false), ConnectAction::PollSqlite));
    let action = orch.on_sqlite_poll(true);
    assert!(matches!(action, ConnectAction::StartHealthCheck { .. }));
    orch.on_health_success();
    assert!(orch.decide_display(false));
    orch.complete();
    observed.push(orch.current_step());
    orch.on_loading_ack();
    assert!(orch.finish());
    // Each subscriber's observation only ever climbs, with one final Done.
    let rank = |s: &InitStep| match s {
        InitStep::ServerWaiting => 0,
        InitStep::SqliteWaiting => 1,
        InitStep::Done => 2,
    };
    for pair in observed.windows(2) {
        assert!(rank(&pair[0]) <= rank(&pair[1]));
    }
    assert_eq!(observed.iter().filter(|s| matches!(s, InitStep::Done)).count(), 1);
}

#[test]
fn marker_check_disabled_skips_the_sqlite_step() {
    let mut orch = Orchestrator::new(false);
    // Marker file absent, but the wait itself is disabled.
    let action = orch.on_connection(spawned_connection(94), false);
    assert!(matches!(action, ConnectAction::StartHealthCheck { .. }));
    assert!(matches!(orch.current_step(), InitStep::ServerWaiting));
}

#[test]
fn marker_already_present_skips_the_sqlite_step() {
    let mut orch = Orchestrator::new(true);
    let action = orch.on_connection(spawned_connection(95), true);
    assert!(matches!(action, ConnectAction::StartHealthCheck { .. }));
    assert!(matches!(orch.current_step(), InitStep::ServerWaiting));
}

#[test]
fn awaiting_initialization_repeatedly_yields_the_same_value() {
    let mut orch = Orchestrator::new(false);
    orch.on_connection(
        ServerConnection::Existing { url: String::from("http://example.com") },
        true,
    );
    let first = orch.await_initialization().expect("settled Ok");
    let second = orch.await_initialization().expect("settled Ok");
    assert_eq!(first.url, second.url);
    assert_eq!(first.password, second.password);
}
