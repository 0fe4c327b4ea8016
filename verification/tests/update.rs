use tunnel_manager::messages::{Param, ParamValue};
use tunnel_manager::models::{ReachabilityResult, Tunnel, UpdateTunnelRequest};
use tunnel_manager::rejection::Rejection;
use tunnel_manager::responses::TunnelResponse;
use tunnel_manager::update::{
    update_on_port_probed, update_on_reachability, update_on_started, update_on_stopped,
    update_tunnel, UpdatePlan, UpdateStep, WarningChange,
};

const HOST: &str = "box";

fn tunnel(id: &str, port: u16, enabled: bool, pid: Option<u32>) -> Tunnel {
    Tunnel {
        id: id.to_string(),
        name: format!("tunnel {id}"),
        local_port: port,
        target_host: "10.0.0.5".to_string(),
        target_port: 80,
        enabled,
        pid,
        warning_id: None,
    }
}

fn no_changes() -> UpdateTunnelRequest {
    UpdateTunnelRequest { name: None, local_port: None, target_host: None, target_port: None, enabled: None }
}

struct World {
    port_free: bool,
    reachability: Option<ReachabilityResult>,
    forwarder: Option<Result<u32, String>>,
}

fn world(port_free: bool, reachability: ReachabilityResult, forwarder: Result<u32, String>) -> World {
    World { port_free, reachability: Some(reachability), forwarder: Some(forwarder) }
}

fn kind_world() -> World {
    world(true, ReachabilityResult::Reachable, Ok(500))
}

/// Runs an update to its end and tells which work was asked for.
fn run(
    tunnels: &mut Vec<Tunnel>,
    id: &str,
    changes: UpdateTunnelRequest,
    mut world: World,
) -> (Result<TunnelResponse, Rejection>, Vec<String>) {
    let mut asked = Vec::new();
    let mut step = update_tunnel(tunnels, id, changes, HOST);
    loop {
        step = match step {
            UpdateStep::ProbePort { plan } => {
                asked.push(format!("port {}", plan.local_port));
                update_on_port_probed(tunnels, plan, world.port_free, HOST)
            }
            UpdateStep::CheckReachability { plan } => {
                asked.push(format!("reach {}:{}", plan.target_host, plan.target_port));
                update_on_reachability(tunnels, plan, world.reachability.take().unwrap(), HOST)
            }
            UpdateStep::StopForwarder { plan, pid, pause_millis } => {
                asked.push(format!("stop {pid} pause {pause_millis}"));
                update_on_stopped(tunnels, plan, HOST)
            }
            UpdateStep::StartForwarder { plan } => {
                asked.push(format!(
                    "start {} {}:{}",
                    plan.local_port, plan.target_host, plan.target_port
                ));
                update_on_started(tunnels, plan, world.forwarder.take().unwrap(), HOST)
            }
            UpdateStep::Updated { response } => return (Ok(response), asked),
            UpdateStep::Rejected { error } => return (Err(error), asked),
        };
    }
}

#[test]
fn update_unknown_id_is_not_found() {
    let mut tunnels = vec![tunnel("a", 1000, false, None)];
    let (result, asked) = run(&mut tunnels, "zzz", no_changes(), kind_world());
    let error = result.unwrap_err();
    assert_eq!(error, Rejection::TunnelNotFound { id: "zzz".to_string() });
    assert_eq!(error.status(), 404);
    assert!(asked.is_empty());
    assert_eq!(tunnels, vec![tunnel("a", 1000, false, None)]);
}

#[test]
fn update_rename_of_a_running_tunnel_restarts_it_without_probe() {
    let mut tunnels = vec![tunnel("a", 1000, true, Some(41))];
    let changes = UpdateTunnelRequest { name: Some("  renamed ".to_string()), ..no_changes() };
    let (result, asked) = run(
        &mut tunnels,
        "a",
        changes,
        world(false, ReachabilityResult::HostUnreachable("never asked".to_string()), Ok(42)),
    );
    let response = result.unwrap();
    assert_eq!(asked, vec!["stop 41 pause 200", "start 1000 10.0.0.5:80"]);
    assert_eq!(response.tunnel.name, "renamed");
    assert_eq!(response.tunnel.id, "a");
    assert_eq!(response.tunnel.pid, Some(42));
    assert_eq!(response.connection_url, Some("box:1000".to_string()));
    assert_eq!(response.warning, None);
    assert_eq!(tunnels, vec![response.tunnel]);
}

#[test]
fn update_keeps_fields_that_are_not_given() {
    let mut tunnels = vec![tunnel("a", 1000, false, None), tunnel("b", 2000, false, None)];
    let changes = UpdateTunnelRequest { target_port: Some(443), ..no_changes() };
    let (result, asked) = run(&mut tunnels, "b", changes, kind_world());
    let response = result.unwrap();
    assert!(asked.is_empty());
    let mut expected = tunnel("b", 2000, false, None);
    expected.target_port = 443;
    assert_eq!(response.tunnel, expected);
    assert_eq!(response.connection_url, None);
    assert_eq!(tunnels, vec![tunnel("a", 1000, false, None), expected]);
}

#[test]
fn update_to_a_port_of_another_tunnel_is_refused_before_the_system_is_asked() {
    let mut tunnels = vec![tunnel("a", 1000, false, None), tunnel("b", 2000, false, None)];
    let before = tunnels.clone();
    let changes = UpdateTunnelRequest { local_port: Some(1000), ..no_changes() };
    let (result, asked) =
        run(&mut tunnels, "b", changes, world(false, ReachabilityResult::Reachable, Ok(1)));
    let error = result.unwrap_err();
    assert_eq!(error, Rejection::PortAssigned { port: 1000 });
    assert_eq!(error.status(), 409);
    assert!(asked.is_empty());
    assert_eq!(tunnels, before);
}

#[test]
fn update_to_a_port_in_use_is_refused() {
    let mut tunnels = vec![tunnel("a", 1000, true, Some(7))];
    let before = tunnels.clone();
    let changes = UpdateTunnelRequest { local_port: Some(3000), ..no_changes() };
    let (result, asked) =
        run(&mut tunnels, "a", changes, world(false, ReachabilityResult::Reachable, Ok(1)));
    assert_eq!(result.unwrap_err(), Rejection::PortInUse { port: 3000 });
    assert_eq!(asked, vec!["port 3000"]);
    assert_eq!(tunnels, before);
}

#[test]
fn update_to_its_own_port_is_no_port_change() {
    let mut tunnels = vec![tunnel("a", 1000, false, None), tunnel("b", 2000, false, None)];
    let changes = UpdateTunnelRequest { local_port: Some(2000), ..no_changes() };
    let (result, asked) =
        run(&mut tunnels, "b", changes, world(false, ReachabilityResult::Reachable, Ok(1)));
    assert!(result.is_ok());
    assert!(asked.is_empty());
}

#[test]
fn update_port_of_a_running_tunnel_probes_and_restarts_without_pause() {
    let mut tunnels = vec![tunnel("a", 1000, true, Some(7))];
    let changes = UpdateTunnelRequest { local_port: Some(3000), ..no_changes() };
    let (result, asked) = run(&mut tunnels, "a", changes, kind_world());
    let response = result.unwrap();
    assert_eq!(
        asked,
        vec!["port 3000", "reach 10.0.0.5:80", "stop 7 pause 0", "start 3000 10.0.0.5:80"]
    );
    assert_eq!(response.tunnel.local_port, 3000);
    assert_eq!(response.tunnel.pid, Some(500));
    assert_eq!(response.connection_url, Some("box:3000".to_string()));
    assert_eq!(tunnels, vec![response.tunnel]);
}

#[test]
fn update_rejects_self_loop_with_no_state_change() {
    for host in ["localhost", "127.0.0.1", "::1", "0.0.0.0"] {
        let mut tunnels = vec![tunnel("a", 8080, false, None)];
        let before = tunnels.clone();
        let changes = UpdateTunnelRequest {
            target_host: Some(host.to_string()),
            target_port: Some(8080),
            ..no_changes()
        };
        let (result, asked) = run(&mut tunnels, "a", changes, kind_world());
        let error = result.unwrap_err();
        assert_eq!(error, Rejection::SelfLoop { port: 8080 });
        assert_eq!(error.status(), 400);
        assert!(asked.is_empty());
        assert_eq!(tunnels, before);
    }
}

#[test]
fn update_self_loop_after_port_change_is_refused_after_the_port_probe() {
    let mut tunnels = vec![tunnel("a", 1000, false, None)];
    let before = tunnels.clone();
    let changes = UpdateTunnelRequest {
        local_port: Some(80),
        target_host: Some("localhost".to_string()),
        ..no_changes()
    };
    let (result, asked) = run(&mut tunnels, "a", changes, kind_world());
    assert_eq!(result.unwrap_err(), Rejection::SelfLoop { port: 80 });
    assert_eq!(asked, vec!["port 80"]);
    assert_eq!(tunnels, before);
}

#[test]
fn update_enabling_probes_the_target() {
    let mut tunnels = vec![tunnel("a", 1000, false, None)];
    let changes = UpdateTunnelRequest { enabled: Some(true), ..no_changes() };
    let (result, asked) = run(&mut tunnels, "a", changes, kind_world());
    let response = result.unwrap();
    assert_eq!(asked, vec!["reach 10.0.0.5:80", "start 1000 10.0.0.5:80"]);
    assert!(response.tunnel.enabled);
    assert_eq!(response.tunnel.pid, Some(500));
}

#[test]
fn update_changing_the_target_of_an_enabled_tunnel_probes_it() {
    let mut tunnels = vec![tunnel("a", 1000, true, Some(3))];
    let changes = UpdateTunnelRequest { target_host: Some(" 10.0.0.6 ".to_string()), ..no_changes() };
    let (result, asked) = run(&mut tunnels, "a", changes, kind_world());
    assert_eq!(
        asked,
        vec!["reach 10.0.0.6:80", "stop 3 pause 200", "start 1000 10.0.0.6:80"]
    );
    assert_eq!(result.unwrap().tunnel.target_host, "10.0.0.6");
}

#[test]
fn update_same_target_given_again_needs_no_probe() {
    let mut tunnels = vec![tunnel("a", 1000, true, Some(3))];
    let changes = UpdateTunnelRequest {
        target_host: Some("10.0.0.5".to_string()),
        target_port: Some(80),
        enabled: Some(true),
        ..no_changes()
    };
    let (_, asked) = run(&mut tunnels, "a", changes, kind_world());
    assert_eq!(asked, vec!["stop 3 pause 200", "start 1000 10.0.0.5:80"]);
}

#[test]
fn update_unreachable_host_aborts_with_no_state_change() {
    let mut tunnels = vec![tunnel("a", 1000, true, Some(3))];
    let before = tunnels.clone();
    let changes = UpdateTunnelRequest { target_port: Some(81), ..no_changes() };
    let (result, asked) = run(
        &mut tunnels,
        "a",
        changes,
        world(true, ReachabilityResult::HostUnreachable("no route to host".to_string()), Ok(1)),
    );
    let error = result.unwrap_err();
    assert_eq!(
        error,
        Rejection::HostUnreachable {
            host: "10.0.0.5".to_string(),
            reason: "no route to host".to_string()
        }
    );
    assert_eq!(error.status(), 502);
    assert_eq!(asked, vec!["reach 10.0.0.5:81"]);
    assert_eq!(tunnels, before);
}

#[test]
fn update_failed_forwarder_leaves_the_fields_and_clears_the_stopped_pid() {
    let mut stored = tunnel("a", 1000, true, Some(3));
    stored.warning_id = Some("api.warning.port_closed".to_string());
    let mut tunnels = vec![tunnel("z", 900, true, Some(2)), stored];
    let mut before = tunnels.clone();
    before[1].pid = None;
    let changes = UpdateTunnelRequest { name: Some("x".to_string()), ..no_changes() };
    let (result, asked) = run(
        &mut tunnels,
        "a",
        changes,
        world(true, ReachabilityResult::Reachable, Err("exit 1".to_string())),
    );
    let error = result.unwrap_err();
    assert_eq!(error, Rejection::ForwarderFailed { detail: "exit 1".to_string() });
    assert_eq!(error.status(), 500);
    assert_eq!(asked, vec!["stop 3 pause 200", "start 1000 10.0.0.5:80"]);
    assert_eq!(tunnels, before);
}

#[test]
fn update_disabling_stops_the_forwarder_and_clears_pid_and_warning() {
    let mut stored = tunnel("a", 1000, true, Some(3));
    stored.warning_id = Some("api.warning.port_closed".to_string());
    let mut tunnels = vec![stored];
    let changes = UpdateTunnelRequest { enabled: Some(false), ..no_changes() };
    let (result, asked) = run(
        &mut tunnels,
        "a",
        changes,
        world(false, ReachabilityResult::HostUnreachable("never asked".to_string()), Err("never asked".to_string())),
    );
    let response = result.unwrap();
    assert_eq!(asked, vec!["stop 3 pause 200"]);
    assert!(!response.tunnel.enabled);
    assert_eq!(response.tunnel.pid, None);
    assert_eq!(response.tunnel.warning_id, None);
    assert_eq!(response.connection_url, None);
    assert_eq!(response.warning, None);
    assert_eq!(tunnels, vec![response.tunnel]);
}

#[test]
fn update_closed_port_sets_the_warning() {
    let mut tunnels = vec![tunnel("a", 1000, false, None)];
    let changes = UpdateTunnelRequest { enabled: Some(true), ..no_changes() };
    let (result, _) = run(
        &mut tunnels,
        "a",
        changes,
        world(true, ReachabilityResult::HostReachablePortClosed, Ok(8)),
    );
    let response = result.unwrap();
    assert_eq!(response.tunnel.warning_id, Some("api.warning.port_closed".to_string()));
    let warning = response.warning.clone().unwrap();
    assert_eq!(warning.id, "api.warning.port_closed");
    assert_eq!(
        warning.params,
        vec![
            Param { key: "host".to_string(), value: ParamValue::Text("10.0.0.5".to_string()) },
            Param { key: "port".to_string(), value: ParamValue::Number(80) },
        ]
    );
    assert_eq!(tunnels[0].warning_id, Some("api.warning.port_closed".to_string()));
}

#[test]
fn update_confirmed_reachability_clears_the_warning() {
    let mut stored = tunnel("a", 1000, true, Some(3));
    stored.warning_id = Some("api.warning.port_closed".to_string());
    let mut tunnels = vec![stored];
    let changes = UpdateTunnelRequest { target_port: Some(8080), ..no_changes() };
    let (result, _) = run(&mut tunnels, "a", changes, kind_world());
    let response = result.unwrap();
    assert_eq!(response.tunnel.warning_id, None);
    assert_eq!(response.warning, None);
    assert_eq!(tunnels[0].warning_id, None);
}

#[test]
fn update_without_probe_leaves_the_warning_untouched() {
    let mut stored = tunnel("a", 1000, true, Some(3));
    stored.warning_id = Some("api.warning.port_closed".to_string());
    let mut tunnels = vec![stored];
    let changes = UpdateTunnelRequest { name: Some("again".to_string()), ..no_changes() };
    let (result, _) = run(&mut tunnels, "a", changes, kind_world());
    let response = result.unwrap();
    assert_eq!(response.tunnel.warning_id, Some("api.warning.port_closed".to_string()));
    assert_eq!(response.warning, None);
}

#[test]
fn update_failed_forwarder_without_an_old_one_changes_nothing() {
    let mut tunnels = vec![tunnel("a", 1000, false, None)];
    let before = tunnels.clone();
    let changes = UpdateTunnelRequest { enabled: Some(true), ..no_changes() };
    let (result, asked) = run(
        &mut tunnels,
        "a",
        changes,
        world(true, ReachabilityResult::Reachable, Err("exit 1".to_string())),
    );
    assert_eq!(result.unwrap_err(), Rejection::ForwarderFailed { detail: "exit 1".to_string() });
    assert_eq!(asked, vec!["reach 10.0.0.5:80", "start 1000 10.0.0.5:80"]);
    assert_eq!(tunnels, before);
}

fn refused_at_once(stored: Tunnel, changes: UpdateTunnelRequest, expected: Rejection) {
    let mut tunnels = vec![tunnel("z", 900, true, Some(2)), stored];
    let before = tunnels.clone();
    let (result, asked) = run(
        &mut tunnels,
        "a",
        changes,
        world(false, ReachabilityResult::HostUnreachable("never asked".to_string()), Err("never asked".to_string())),
    );
    let error = result.unwrap_err();
    assert_eq!(error, expected);
    assert_eq!(error.status(), 400);
    assert!(asked.is_empty());
    assert_eq!(tunnels, before);
}

#[test]
fn update_rejects_a_blank_name() {
    for name in ["", "   ", "\t\n"] {
        refused_at_once(
            tunnel("a", 1000, true, Some(3)),
            UpdateTunnelRequest { name: Some(name.to_string()), ..no_changes() },
            Rejection::NameEmpty,
        );
    }
}

#[test]
fn update_rejects_a_blank_target_host() {
    refused_at_once(
        tunnel("a", 1000, true, Some(3)),
        UpdateTunnelRequest { target_host: Some("  ".to_string()), ..no_changes() },
        Rejection::TargetHostEmpty,
    );
}

#[test]
fn update_rejects_a_zero_local_port_before_the_port_is_tried() {
    refused_at_once(
        tunnel("a", 1000, true, Some(3)),
        UpdateTunnelRequest { local_port: Some(0), ..no_changes() },
        Rejection::LocalPortRange,
    );
}

#[test]
fn update_rejects_a_zero_target_port() {
    refused_at_once(
        tunnel("a", 1000, false, None),
        UpdateTunnelRequest { target_port: Some(0), ..no_changes() },
        Rejection::TargetPortRange,
    );
}

#[test]
fn update_checks_the_fields_in_the_order_of_a_creation() {
    refused_at_once(
        tunnel("a", 1000, false, None),
        UpdateTunnelRequest {
            name: Some(" ".to_string()),
            local_port: Some(0),
            target_host: Some(" ".to_string()),
            target_port: Some(0),
            enabled: Some(true),
        },
        Rejection::NameEmpty,
    );
    refused_at_once(
        tunnel("a", 1000, false, None),
        UpdateTunnelRequest {
            local_port: Some(0),
            target_host: Some(" ".to_string()),
            target_port: Some(0),
            ..no_changes()
        },
        Rejection::TargetHostEmpty,
    );
}

#[test]
fn update_rejects_a_stored_field_that_is_malformed() {
    let mut stored = tunnel("a", 1000, false, None);
    stored.target_port = 0;
    refused_at_once(
        stored,
        UpdateTunnelRequest { name: Some("x".to_string()), ..no_changes() },
        Rejection::TargetPortRange,
    );
}

#[test]
fn update_on_stopped_clears_the_pid_before_the_new_forwarder_is_asked_for() {
    let mut tunnels = vec![tunnel("a", 1000, true, Some(3))];
    let changes = UpdateTunnelRequest { name: Some("x".to_string()), ..no_changes() };
    let plan = match update_tunnel(&mut tunnels, "a", changes, HOST) {
        UpdateStep::StopForwarder { plan, pid, .. } => {
            assert_eq!(pid, 3);
            plan
        }
        other => panic!("unexpected step {other:?}"),
    };
    assert_eq!(tunnels[0].pid, Some(3));
    match update_on_stopped(&mut tunnels, plan, HOST) {
        UpdateStep::StartForwarder { .. } => {}
        other => panic!("unexpected step {other:?}"),
    }
    assert_eq!(tunnels, vec![tunnel("a", 1000, true, None)]);
}

#[test]
fn update_changes_the_first_of_equal_ids_only() {
    let mut tunnels = vec![tunnel("a", 1000, false, None), tunnel("a", 2000, false, None)];
    let changes = UpdateTunnelRequest { name: Some("first".to_string()), ..no_changes() };
    let (result, _) = run(&mut tunnels, "a", changes, kind_world());
    assert!(result.is_ok());
    assert_eq!(tunnels[0].name, "first");
    assert_eq!(tunnels[1], tunnel("a", 2000, false, None));
}

fn plan(id: &str, port: u16, enabled: bool) -> UpdatePlan {
    UpdatePlan {
        id: id.to_string(),
        name: "planned".to_string(),
        local_port: port,
        target_host: "10.0.0.7".to_string(),
        target_port: 81,
        enabled,
        port_changed: true,
        needs_check: false,
        old_pid: None,
        warning: WarningChange::Keep,
    }
}

#[test]
fn update_commit_looks_the_tunnel_up_again() {
    let mut tunnels = vec![tunnel("a", 1000, false, None)];
    let step = update_on_started(&mut tunnels, plan("gone", 3000, true), Ok(1), HOST);
    assert_eq!(
        step,
        UpdateStep::Rejected { error: Rejection::TunnelNotFound { id: "gone".to_string() } }
    );
    assert_eq!(tunnels, vec![tunnel("a", 1000, false, None)]);
}

#[test]
fn update_commit_refuses_a_port_that_is_taken_meanwhile() {
    let mut tunnels = vec![tunnel("a", 1000, false, None), tunnel("b", 3000, false, None)];
    let before = tunnels.clone();
    let step = update_on_stopped(&mut tunnels, plan("a", 3000, false), HOST);
    assert_eq!(step, UpdateStep::Rejected { error: Rejection::PortAssigned { port: 3000 } });
    assert_eq!(tunnels, before);
}

#[test]
fn update_commit_gives_a_disabled_tunnel_no_pid() {
    let mut tunnels = vec![tunnel("a", 1000, true, Some(1))];
    let step = update_on_started(&mut tunnels, plan("a", 1000, false), Ok(9), HOST);
    match step {
        UpdateStep::Updated { response } => {
            assert_eq!(response.tunnel.pid, None);
            assert_eq!(response.tunnel.name, "planned");
        }
        other => panic!("unexpected step {other:?}"),
    }
    assert_eq!(tunnels[0].pid, None);
}

#[test]
fn update_keeps_ports_unique() {
    let mut tunnels = vec![
        tunnel("a", 1000, false, None),
        tunnel("b", 2000, false, None),
        tunnel("c", 3000, false, None),
    ];
    for (id, port) in [("a", 2000), ("b", 1000), ("c", 4000), ("a", 3000), ("b", 4000), ("c", 3000)] {
        let changes = UpdateTunnelRequest { local_port: Some(port), ..no_changes() };
        let _ = run(&mut tunnels, id, changes, kind_world());
        let mut ports: Vec<u16> = tunnels.iter().map(|t| t.local_port).collect();
        ports.sort();
        ports.dedup();
        assert_eq!(ports.len(), 3);
    }
    let ports: Vec<u16> = tunnels.iter().map(|t| t.local_port).collect();
    assert_eq!(ports, vec![3000, 2000, 4000]);
}
