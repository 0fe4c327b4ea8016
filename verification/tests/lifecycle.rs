use tunnel_manager::create::{
    create_on_port_probed, create_on_reachability, create_on_started, create_tunnel, CreateStep,
};
use tunnel_manager::delete::{delete_on_stopped, delete_tunnel, DeleteStep};
use tunnel_manager::models::{CreateTunnelRequest, ReachabilityResult, Tunnel, UpdateTunnelRequest};
use tunnel_manager::update::{
    update_on_reachability, update_on_started, update_on_stopped, update_tunnel, UpdateStep,
};

fn create(tunnels: &mut Vec<Tunnel>, port: u16, reachability: ReachabilityResult, pid: u32) -> Tunnel {
    let request = CreateTunnelRequest {
        name: "db".to_string(),
        local_port: port,
        target_host: "10.0.0.5".to_string(),
        target_port: 5432,
        enabled: true,
    };
    let request = match create_tunnel(request) {
        CreateStep::ProbePort { request } => request,
        other => panic!("unexpected step {other:?}"),
    };
    let tunnel = match create_on_port_probed(tunnels, request, true, "box") {
        CreateStep::CheckReachability { tunnel } => tunnel,
        other => panic!("unexpected step {other:?}"),
    };
    let tunnel = match create_on_reachability(tunnel, reachability) {
        CreateStep::StartForwarder { tunnel } => tunnel,
        other => panic!("unexpected step {other:?}"),
    };
    match create_on_started(tunnels, tunnel, Ok(pid), "box") {
        CreateStep::Created { response } => response.tunnel,
        other => panic!("unexpected step {other:?}"),
    }
}

#[test]
fn delete_frees_the_port_for_a_new_create() {
    let mut tunnels = Vec::new();
    let first = create(&mut tunnels, 5432, ReachabilityResult::Reachable, 100);
    match delete_tunnel(&mut tunnels, &first.id) {
        DeleteStep::StopForwarder { id, pid } => {
            assert_eq!(pid, 100);
            assert_eq!(delete_on_stopped(&mut tunnels, &id), DeleteStep::Deleted);
        }
        other => panic!("unexpected step {other:?}"),
    }
    assert!(tunnels.is_empty());
    let second = create(&mut tunnels, 5432, ReachabilityResult::Reachable, 101);
    assert_eq!(second.local_port, 5432);
    assert_ne!(second.id, first.id);
    assert_eq!(tunnels, vec![second]);
}

#[test]
fn warning_is_set_by_create_and_cleared_by_a_confirming_update() {
    let mut tunnels = Vec::new();
    let created = create(&mut tunnels, 5432, ReachabilityResult::HostReachablePortClosed, 100);
    assert_eq!(created.warning_id, Some("api.warning.port_closed".to_string()));

    let changes = UpdateTunnelRequest {
        name: None,
        local_port: None,
        target_host: None,
        target_port: Some(5433),
        enabled: None,
    };
    let plan = match update_tunnel(&mut tunnels, &created.id, changes, "box") {
        UpdateStep::CheckReachability { plan } => plan,
        other => panic!("unexpected step {other:?}"),
    };
    let plan = match update_on_reachability(&mut tunnels, plan, ReachabilityResult::Reachable, "box") {
        UpdateStep::StopForwarder { plan, pid, pause_millis } => {
            assert_eq!(pid, 100);
            assert_eq!(pause_millis, 200);
            plan
        }
        other => panic!("unexpected step {other:?}"),
    };
    let plan = match update_on_stopped(&mut tunnels, plan, "box") {
        UpdateStep::StartForwarder { plan } => plan,
        other => panic!("unexpected step {other:?}"),
    };
    match update_on_started(&mut tunnels, plan, Ok(101), "box") {
        UpdateStep::Updated { response } => {
            assert_eq!(response.tunnel.warning_id, None);
            assert_eq!(response.warning, None);
        }
        other => panic!("unexpected step {other:?}"),
    }
    assert_eq!(tunnels[0].warning_id, None);
    assert_eq!(tunnels[0].pid, Some(101));
}

#[test]
fn warning_is_cleared_by_disabling() {
    let mut tunnels = Vec::new();
    let created = create(&mut tunnels, 5432, ReachabilityResult::HostReachablePortClosed, 100);
    let changes = UpdateTunnelRequest {
        name: None,
        local_port: None,
        target_host: None,
        target_port: None,
        enabled: Some(false),
    };
    let plan = match update_tunnel(&mut tunnels, &created.id, changes, "box") {
        UpdateStep::StopForwarder { plan, .. } => plan,
        other => panic!("unexpected step {other:?}"),
    };
    match update_on_stopped(&mut tunnels, plan, "box") {
        UpdateStep::Updated { response } => assert_eq!(response.tunnel.warning_id, None),
        other => panic!("unexpected step {other:?}"),
    }
    assert_eq!(tunnels[0].warning_id, None);
    assert_eq!(tunnels[0].pid, None);
    assert!(!tunnels[0].enabled);
}
