use tunnel_manager::create::{
    create_admitted, create_on_port_probed, create_on_reachability, create_on_started,
    create_tunnel, CreateStep,
};
use tunnel_manager::messages::{Param, ParamValue};
use tunnel_manager::models::{CreateTunnelRequest, ReachabilityResult, Tunnel};
use tunnel_manager::rejection::Rejection;
use tunnel_manager::responses::TunnelResponse;

const HOST: &str = "tailscale-discloud";

fn request(name: &str, local_port: u16, target_host: &str, target_port: u16, enabled: bool) -> CreateTunnelRequest {
    CreateTunnelRequest {
        name: name.to_string(),
        local_port,
        target_host: target_host.to_string(),
        target_port,
        enabled,
    }
}

fn db_request() -> CreateTunnelRequest {
    request("db", 5432, "10.0.0.5", 5432, true)
}

fn stored(id: &str, port: u16) -> Tunnel {
    Tunnel {
        id: id.to_string(),
        name: "old".to_string(),
        local_port: port,
        target_host: "10.0.0.9".to_string(),
        target_port: 80,
        enabled: false,
        pid: None,
        warning_id: None,
    }
}

/// Runs a creation to its end and tells which work was asked for.
fn run(
    tunnels: &mut Vec<Tunnel>,
    request: CreateTunnelRequest,
    port_free: bool,
    reachability: ReachabilityResult,
    forwarder: Result<u32, String>,
) -> (Result<TunnelResponse, Rejection>, Vec<&'static str>) {
    let mut asked = Vec::new();
    let mut reachability = Some(reachability);
    let mut forwarder = Some(forwarder);
    let mut step = create_tunnel(request);
    loop {
        step = match step {
            CreateStep::ProbePort { request } => {
                asked.push("port");
                create_on_port_probed(tunnels, request, port_free, HOST)
            }
            CreateStep::CheckReachability { tunnel } => {
                asked.push("reachability");
                create_on_reachability(tunnel, reachability.take().unwrap())
            }
            CreateStep::StartForwarder { tunnel } => {
                asked.push("forwarder");
                create_on_started(tunnels, tunnel, forwarder.take().unwrap(), HOST)
            }
            CreateStep::Created { response } => return (Ok(response), asked),
            CreateStep::Rejected { error } => return (Err(error), asked),
        };
    }
}

#[test]
fn create_db_tunnel_then_repeat() {
    let mut tunnels = Vec::new();
    let (result, asked) =
        run(&mut tunnels, db_request(), true, ReachabilityResult::Reachable, Ok(4242));
    let response = result.unwrap();
    assert_eq!(asked, vec!["port", "reachability", "forwarder"]);
    assert_eq!(response.connection_url, Some("tailscale-discloud:5432".to_string()));
    assert_eq!(response.warning, None);
    assert_eq!(response.tunnel.name, "db");
    assert_eq!(response.tunnel.local_port, 5432);
    assert_eq!(response.tunnel.target_host, "10.0.0.5");
    assert_eq!(response.tunnel.target_port, 5432);
    assert!(response.tunnel.enabled);
    assert_eq!(response.tunnel.pid, Some(4242));
    assert_eq!(response.tunnel.warning_id, None);
    assert_eq!(tunnels, vec![response.tunnel.clone()]);

    let (again, asked) =
        run(&mut tunnels, db_request(), true, ReachabilityResult::Reachable, Ok(4243));
    let error = again.unwrap_err();
    assert_eq!(asked, vec!["port"]);
    assert_eq!(error, Rejection::PortAssigned { port: 5432 });
    assert_eq!(error.status(), 409);
    assert_eq!(error.body().error.id, "api.error.port_assigned");
    assert_eq!(tunnels, vec![response.tunnel]);
}

#[test]
fn created_tunnel_gets_a_fresh_hyphenated_id() {
    let mut tunnels = Vec::new();
    let (first, _) = run(&mut tunnels, db_request(), true, ReachabilityResult::Reachable, Ok(1));
    let (second, _) = run(
        &mut tunnels,
        request("web", 8080, "10.0.0.6", 80, true),
        true,
        ReachabilityResult::Reachable,
        Ok(2),
    );
    let first = first.unwrap().tunnel.id;
    let second = second.unwrap().tunnel.id;
    assert_ne!(first, second);
    for id in [first, second] {
        let chars: Vec<char> = id.chars().collect();
        assert_eq!(chars.len(), 36);
        for (i, c) in chars.iter().enumerate() {
            if i == 8 || i == 13 || i == 18 || i == 23 {
                assert_eq!(*c, '-');
            } else {
                assert!(c.is_ascii_hexdigit());
            }
        }
    }
}

#[test]
fn create_trims_name_and_host() {
    let mut tunnels = Vec::new();
    let (result, _) = run(
        &mut tunnels,
        request("  db \n", 5432, "\t10.0.0.5 ", 5432, true),
        true,
        ReachabilityResult::Reachable,
        Ok(1),
    );
    let tunnel = result.unwrap().tunnel;
    assert_eq!(tunnel.name, "db");
    assert_eq!(tunnel.target_host, "10.0.0.5");
}

#[test]
fn create_rejects_empty_name() {
    assert_eq!(
        create_tunnel(request("   ", 5432, "10.0.0.5", 5432, true)),
        CreateStep::Rejected { error: Rejection::NameEmpty }
    );
    assert_eq!(
        create_tunnel(request("", 0, "", 0, true)),
        CreateStep::Rejected { error: Rejection::NameEmpty }
    );
}

#[test]
fn create_rejects_empty_target_host() {
    assert_eq!(
        create_tunnel(request("db", 0, " \t", 0, true)),
        CreateStep::Rejected { error: Rejection::TargetHostEmpty }
    );
}

#[test]
fn create_rejects_zero_local_port() {
    assert_eq!(
        create_tunnel(request("db", 0, "10.0.0.5", 0, true)),
        CreateStep::Rejected { error: Rejection::LocalPortRange }
    );
}

#[test]
fn create_rejects_zero_target_port() {
    assert_eq!(
        create_tunnel(request("db", 5432, "10.0.0.5", 0, false)),
        CreateStep::Rejected { error: Rejection::TargetPortRange }
    );
}

#[test]
fn create_rejects_self_loop_for_each_loopback_name() {
    for host in ["localhost", "127.0.0.1", "::1", "0.0.0.0", " LocalHost "] {
        let mut tunnels = vec![stored("a", 1)];
        let (result, asked) = run(
            &mut tunnels,
            request("loop", 8080, host, 8080, true),
            true,
            ReachabilityResult::Reachable,
            Ok(1),
        );
        let error = result.unwrap_err();
        assert_eq!(error, Rejection::SelfLoop { port: 8080 });
        assert_eq!(error.status(), 400);
        assert!(asked.is_empty());
        assert_eq!(tunnels, vec![stored("a", 1)]);
    }
}

#[test]
fn create_accepts_loopback_target_on_another_port() {
    assert_eq!(
        create_tunnel(request("web", 8080, "localhost", 3000, true)),
        CreateStep::ProbePort { request: request("web", 8080, "localhost", 3000, true) }
    );
}

#[test]
fn create_asks_for_the_port_of_a_valid_request() {
    assert_eq!(create_tunnel(db_request()), CreateStep::ProbePort { request: db_request() });
}

#[test]
fn create_rejects_port_in_use_before_port_assigned() {
    let mut tunnels = vec![stored("a", 5432)];
    let (result, asked) =
        run(&mut tunnels, db_request(), false, ReachabilityResult::Reachable, Ok(1));
    assert_eq!(result.unwrap_err(), Rejection::PortInUse { port: 5432 });
    assert_eq!(asked, vec!["port"]);
    assert_eq!(tunnels, vec![stored("a", 5432)]);
}

#[test]
fn create_rejects_port_of_a_disabled_tunnel() {
    let mut tunnels = vec![stored("a", 1000), stored("b", 5432)];
    let (result, _) = run(&mut tunnels, db_request(), true, ReachabilityResult::Reachable, Ok(1));
    assert_eq!(result.unwrap_err(), Rejection::PortAssigned { port: 5432 });
    assert_eq!(tunnels, vec![stored("a", 1000), stored("b", 5432)]);
}

#[test]
fn create_unreachable_host_leaves_list_unchanged() {
    let mut tunnels = vec![stored("a", 1000)];
    let (result, asked) = run(
        &mut tunnels,
        db_request(),
        true,
        ReachabilityResult::HostUnreachable("Connection timed out".to_string()),
        Ok(1),
    );
    let error = result.unwrap_err();
    assert_eq!(
        error,
        Rejection::HostUnreachable {
            host: "10.0.0.5".to_string(),
            reason: "Connection timed out".to_string()
        }
    );
    assert_eq!(error.status(), 502);
    assert_eq!(asked, vec!["port", "reachability"]);
    assert_eq!(tunnels, vec![stored("a", 1000)]);
}

#[test]
fn create_failed_forwarder_leaves_list_unchanged() {
    let mut tunnels = vec![stored("a", 1000)];
    let (result, asked) = run(
        &mut tunnels,
        db_request(),
        true,
        ReachabilityResult::Reachable,
        Err("[socat] Failed to spawn socat: not found".to_string()),
    );
    let error = result.unwrap_err();
    assert_eq!(
        error,
        Rejection::ForwarderFailed { detail: "[socat] Failed to spawn socat: not found".to_string() }
    );
    assert_eq!(error.status(), 500);
    assert_eq!(asked, vec!["port", "reachability", "forwarder"]);
    assert_eq!(tunnels, vec![stored("a", 1000)]);
}

#[test]
fn create_with_closed_port_warns_and_proceeds() {
    let mut tunnels = vec![stored("a", 1000)];
    let (result, asked) = run(
        &mut tunnels,
        db_request(),
        true,
        ReachabilityResult::HostReachablePortClosed,
        Ok(99),
    );
    let response = result.unwrap();
    assert_eq!(asked, vec!["port", "reachability", "forwarder"]);
    assert_eq!(response.tunnel.warning_id, Some("api.warning.port_closed".to_string()));
    assert_eq!(response.tunnel.pid, Some(99));
    let warning = response.warning.clone().unwrap();
    assert_eq!(warning.id, "api.warning.port_closed");
    assert_eq!(
        warning.params,
        vec![
            Param { key: "host".to_string(), value: ParamValue::Text("10.0.0.5".to_string()) },
            Param { key: "port".to_string(), value: ParamValue::Number(5432) },
        ]
    );
    assert_eq!(tunnels, vec![stored("a", 1000), response.tunnel]);
}

#[test]
fn create_disabled_tunnel_needs_no_probe_and_no_forwarder() {
    let mut tunnels = vec![stored("a", 1000)];
    let (result, asked) = run(
        &mut tunnels,
        request("db", 5432, "10.0.0.5", 5432, false),
        true,
        ReachabilityResult::HostUnreachable("never asked".to_string()),
        Err("never asked".to_string()),
    );
    let response = result.unwrap();
    assert_eq!(asked, vec!["port"]);
    assert!(!response.tunnel.enabled);
    assert_eq!(response.tunnel.pid, None);
    assert_eq!(response.tunnel.warning_id, None);
    assert_eq!(response.connection_url, None);
    assert_eq!(response.warning, None);
    assert_eq!(tunnels.len(), 2);
    assert_eq!(tunnels[1], response.tunnel);
}

#[test]
fn create_admitted_uses_the_given_id() {
    let mut tunnels = Vec::new();
    let step = create_admitted(&mut tunnels, db_request(), "id-1".to_string(), HOST);
    match step {
        CreateStep::CheckReachability { tunnel } => {
            assert_eq!(tunnel.id, "id-1");
            assert_eq!(tunnel.pid, None);
            assert_eq!(tunnel.warning_id, None);
        }
        other => panic!("unexpected step {other:?}"),
    }
    assert!(tunnels.is_empty());
}

#[test]
fn create_admitted_refuses_a_port_that_is_taken_meanwhile() {
    let mut tunnels = vec![stored("a", 5432)];
    let step = create_admitted(
        &mut tunnels,
        request("db", 5432, "10.0.0.5", 5432, false),
        "id-1".to_string(),
        HOST,
    );
    assert_eq!(step, CreateStep::Rejected { error: Rejection::PortAssigned { port: 5432 } });
    assert_eq!(tunnels, vec![stored("a", 5432)]);
}

#[test]
fn create_reachability_clears_a_stale_warning() {
    let mut tunnel = stored("a", 1000);
    tunnel.enabled = true;
    tunnel.warning_id = Some("api.warning.port_closed".to_string());
    match create_on_reachability(tunnel, ReachabilityResult::Reachable) {
        CreateStep::StartForwarder { tunnel } => assert_eq!(tunnel.warning_id, None),
        other => panic!("unexpected step {other:?}"),
    }
}

#[test]
fn create_started_refuses_a_port_that_is_taken_meanwhile() {
    let mut tunnels = vec![stored("a", 5432)];
    let mut tunnel = stored("b", 5432);
    tunnel.enabled = true;
    let step = create_on_started(&mut tunnels, tunnel, Ok(5), HOST);
    assert_eq!(step, CreateStep::Rejected { error: Rejection::PortAssigned { port: 5432 } });
    assert_eq!(tunnels, vec![stored("a", 5432)]);
}

#[test]
fn create_keeps_ports_unique() {
    let mut tunnels = Vec::new();
    for (port, free) in [(1000, true), (1000, true), (2000, true), (1000, false), (2000, true)] {
        let _ = run(
            &mut tunnels,
            request("t", port, "10.0.0.5", 80, true),
            free,
            ReachabilityResult::Reachable,
            Ok(1),
        );
    }
    let ports: Vec<u16> = tunnels.iter().map(|t| t.local_port).collect();
    assert_eq!(ports, vec![1000, 2000]);
}
