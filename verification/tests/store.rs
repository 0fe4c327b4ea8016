use tunnel_manager::models::Tunnel;
use tunnel_manager::store::{find_tunnel, is_port_claimed, is_port_claimed_by_other};

fn tunnel(id: &str, port: u16, enabled: bool) -> Tunnel {
    Tunnel {
        id: id.to_string(),
        name: format!("tunnel {id}"),
        local_port: port,
        target_host: "10.0.0.5".to_string(),
        target_port: 80,
        enabled,
        pid: None,
        warning_id: None,
    }
}

fn list() -> Vec<Tunnel> {
    vec![tunnel("a", 1000, true), tunnel("b", 2000, false), tunnel("a", 3000, true)]
}

#[test]
fn find_gives_the_first_position_of_an_id() {
    assert_eq!(find_tunnel(&list(), "a"), Some(0));
    assert_eq!(find_tunnel(&list(), "b"), Some(1));
}

#[test]
fn find_of_an_unknown_id_gives_nothing() {
    assert_eq!(find_tunnel(&list(), "c"), None);
    assert_eq!(find_tunnel(&list(), "A"), None);
    assert_eq!(find_tunnel(&list(), "a "), None);
    assert_eq!(find_tunnel(&list(), ""), None);
    assert_eq!(find_tunnel(&Vec::new(), "a"), None);
}

#[test]
fn ports_of_disabled_tunnels_are_claimed_too() {
    assert!(is_port_claimed(&list(), 1000));
    assert!(is_port_claimed(&list(), 2000));
    assert!(is_port_claimed(&list(), 3000));
    assert!(!is_port_claimed(&list(), 4000));
    assert!(!is_port_claimed(&Vec::new(), 1000));
}

#[test]
fn a_tunnel_does_not_claim_its_port_against_itself() {
    assert!(!is_port_claimed_by_other(&list(), 1, 2000));
    assert!(is_port_claimed_by_other(&list(), 0, 2000));
    assert!(is_port_claimed_by_other(&list(), 2, 2000));
    assert!(is_port_claimed_by_other(&list(), 7, 2000));
    assert!(!is_port_claimed_by_other(&list(), 0, 4000));
}
