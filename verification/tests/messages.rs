use tunnel_manager::messages::{
    api_err, api_err_params, params1, params2, ApiMessage, Param, ParamValue,
};
use tunnel_manager::rejection::Rejection;

fn text(key: &str, value: &str) -> Param {
    Param { key: key.to_string(), value: ParamValue::Text(value.to_string()) }
}

fn number(key: &str, value: u16) -> Param {
    Param { key: key.to_string(), value: ParamValue::Number(value) }
}

#[test]
fn message_without_values() {
    let message = ApiMessage::new("api.error.name_empty");
    assert_eq!(message.id, "api.error.name_empty");
    assert!(message.params.is_empty());
}

#[test]
fn message_with_values_keeps_them_in_order() {
    let message = ApiMessage::with_params("key", vec![text("host", "h"), number("port", 80)]);
    assert_eq!(message.id, "key");
    assert_eq!(message.params, vec![text("host", "h"), number("port", 80)]);
}

#[test]
fn message_with_a_repeated_name_keeps_the_later_value_in_the_place_of_the_earlier() {
    let message = ApiMessage::with_params(
        "key",
        vec![text("host", "a"), number("port", 80), text("host", "b"), number("port", 81)],
    );
    assert_eq!(message.params, vec![text("host", "b"), number("port", 81)]);
    let body = api_err_params("key", vec![text("id", "1"), text("id", "2"), text("id", "3")]);
    assert_eq!(body.error.params, vec![text("id", "3")]);
}

#[test]
fn params_builders() {
    assert_eq!(params1("port", ParamValue::Number(22)), vec![number("port", 22)]);
    assert_eq!(
        params2("host", ParamValue::Text("a".to_string()), "reason", ParamValue::Text("b".to_string())),
        vec![text("host", "a"), text("reason", "b")]
    );
}

#[test]
fn error_bodies() {
    assert_eq!(api_err("x").error, ApiMessage { id: "x".to_string(), params: vec![] });
    assert_eq!(
        api_err_params("x", vec![number("port", 1)]).error,
        ApiMessage { id: "x".to_string(), params: vec![number("port", 1)] }
    );
}

fn check(rejection: Rejection, status: u16, id: &str, params: Vec<Param>) {
    assert_eq!(rejection.status(), status);
    let body = rejection.body();
    assert_eq!(body.error.id, id);
    assert_eq!(body.error.params, params);
}

#[test]
fn validation_rejections_are_400_without_values() {
    check(Rejection::NameEmpty, 400, "api.error.name_empty", vec![]);
    check(Rejection::TargetHostEmpty, 400, "api.error.target_host_empty", vec![]);
    check(Rejection::LocalPortRange, 400, "api.error.local_port_range", vec![]);
    check(Rejection::TargetPortRange, 400, "api.error.target_port_range", vec![]);
}

#[test]
fn self_loop_rejection_is_400_with_the_port() {
    check(Rejection::SelfLoop { port: 8080 }, 400, "api.error.self_loop", vec![number("port", 8080)]);
}

#[test]
fn port_conflicts_are_409_with_the_port() {
    check(Rejection::PortInUse { port: 80 }, 409, "api.error.port_in_use", vec![number("port", 80)]);
    check(
        Rejection::PortAssigned { port: 5432 },
        409,
        "api.error.port_assigned",
        vec![number("port", 5432)],
    );
}

#[test]
fn unreachable_host_is_502_with_host_and_reason() {
    check(
        Rejection::HostUnreachable { host: "10.0.0.5".to_string(), reason: "no route".to_string() },
        502,
        "api.error.host_unreachable",
        vec![text("host", "10.0.0.5"), text("reason", "no route")],
    );
}

#[test]
fn failed_forwarder_is_500_with_the_detail() {
    check(
        Rejection::ForwarderFailed { detail: "boom".to_string() },
        500,
        "api.error.socat_failed",
        vec![text("detail", "boom")],
    );
}

#[test]
fn unknown_tunnel_is_404_with_the_id() {
    check(
        Rejection::TunnelNotFound { id: "abc".to_string() },
        404,
        "api.error.tunnel_not_found",
        vec![text("id", "abc")],
    );
}
