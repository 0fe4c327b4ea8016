//! Why a request is refused, and how the refusal is reported.

use vstd::prelude::*;
use vstd::string::*;

use crate::messages::{
    api_err, api_err_params, keys_distinct, message_with_one, message_with_two, params1, params2,
    plain_message, ApiErrorResponse, ApiMessageView, ParamValue, ParamValueView,
};

verus! {

/// The reasons for which a request is refused.
#[derive(Debug, PartialEq, Eq)]
pub enum Rejection {
    /// The name is empty once trimmed.
    NameEmpty,
    /// The target host is empty once trimmed.
    TargetHostEmpty,
    /// The local port is zero.
    LocalPortRange,
    /// The target port is zero.
    TargetPortRange,
    /// The tunnel would forward the port to itself.
    SelfLoop { port: u16 },
    /// The local port cannot be bound on this machine.
    PortInUse { port: u16 },
    /// Another stored tunnel claims the local port.
    PortAssigned { port: u16 },
    /// The target host cannot be reached.
    HostUnreachable { host: String, reason: String },
    /// The forwarder did not start.
    ForwarderFailed { detail: String },
    /// No stored tunnel has this id.
    TunnelNotFound { id: String },
}

/// A `Rejection` with its strings as character sequences.
pub enum RejectionView {
    NameEmpty,
    TargetHostEmpty,
    LocalPortRange,
    TargetPortRange,
    SelfLoop { port: u16 },
    PortInUse { port: u16 },
    PortAssigned { port: u16 },
    HostUnreachable { host: Seq<char>, reason: Seq<char> },
    ForwarderFailed { detail: Seq<char> },
    TunnelNotFound { id: Seq<char> },
}

impl View for Rejection {
    type V = RejectionView;

    open spec fn view(&self) -> RejectionView {
        match self {
            Rejection::NameEmpty => RejectionView::NameEmpty,
            Rejection::TargetHostEmpty => RejectionView::TargetHostEmpty,
            Rejection::LocalPortRange => RejectionView::LocalPortRange,
            Rejection::TargetPortRange => RejectionView::TargetPortRange,
            Rejection::SelfLoop { port } => RejectionView::SelfLoop { port: *port },
            Rejection::PortInUse { port } => RejectionView::PortInUse { port: *port },
            Rejection::PortAssigned { port } => RejectionView::PortAssigned { port: *port },
            Rejection::HostUnreachable { host, reason } => RejectionView::HostUnreachable {
                host: host@,
                reason: reason@,
            },
            Rejection::ForwarderFailed { detail } => RejectionView::ForwarderFailed {
                detail: detail@,
            },
            Rejection::TunnelNotFound { id } => RejectionView::TunnelNotFound { id: id@ },
        }
    }
}

/// The HTTP status that reports a rejection: 400 for a malformed or
/// self-looping request, 409 for a port conflict, 502 for an unreachable
/// target, 500 for a forwarder that did not start, 404 for an unknown id.
pub open spec fn status_of(rejection: RejectionView) -> u16 {
    match rejection {
        RejectionView::NameEmpty => 400,
        RejectionView::TargetHostEmpty => 400,
        RejectionView::LocalPortRange => 400,
        RejectionView::TargetPortRange => 400,
        RejectionView::SelfLoop { .. } => 400,
        RejectionView::PortInUse { .. } => 409,
        RejectionView::PortAssigned { .. } => 409,
        RejectionView::HostUnreachable { .. } => 502,
        RejectionView::ForwarderFailed { .. } => 500,
        RejectionView::TunnelNotFound { .. } => 404,
    }
}

/// The message that reports a rejection.
pub open spec fn message_of(rejection: RejectionView) -> ApiMessageView {
    match rejection {
        RejectionView::NameEmpty => plain_message("api.error.name_empty"@),
        RejectionView::TargetHostEmpty => plain_message("api.error.target_host_empty"@),
        RejectionView::LocalPortRange => plain_message("api.error.local_port_range"@),
        RejectionView::TargetPortRange => plain_message("api.error.target_port_range"@),
        RejectionView::SelfLoop { port } => message_with_one(
            "api.error.self_loop"@,
            "port"@,
            ParamValueView::Number(port),
        ),
        RejectionView::PortInUse { port } => message_with_one(
            "api.error.port_in_use"@,
            "port"@,
            ParamValueView::Number(port),
        ),
        RejectionView::PortAssigned { port } => message_with_one(
            "api.error.port_assigned"@,
            "port"@,
            ParamValueView::Number(port),
        ),
        RejectionView::HostUnreachable { host, reason } => message_with_two(
            "api.error.host_unreachable"@,
            "host"@,
            ParamValueView::Text(host),
            "reason"@,
            ParamValueView::Text(reason),
        ),
        RejectionView::ForwarderFailed { detail } => message_with_one(
            "api.error.socat_failed"@,
            "detail"@,
            ParamValueView::Text(detail),
        ),
        RejectionView::TunnelNotFound { id } => message_with_one(
            "api.error.tunnel_not_found"@,
            "id"@,
            ParamValueView::Text(id),
        ),
    }
}

impl Rejection {
    /// The HTTP status to answer with.
    pub fn status(&self) -> (code: u16)
        ensures
            code == status_of(self@),
    {
        match self {
            Rejection::NameEmpty => 400,
            Rejection::TargetHostEmpty => 400,
            Rejection::LocalPortRange => 400,
            Rejection::TargetPortRange => 400,
            Rejection::SelfLoop { .. } => 400,
            Rejection::PortInUse { .. } => 409,
            Rejection::PortAssigned { .. } => 409,
            Rejection::HostUnreachable { .. } => 502,
            Rejection::ForwarderFailed { .. } => 500,
            Rejection::TunnelNotFound { .. } => 404,
        }
    }

    /// The body to answer with.
    pub fn body(&self) -> (body: ApiErrorResponse)
        ensures
            body@ == message_of(self@),
            keys_distinct(body@.params),
    {
        proof {
            reveal_strlit("host");
            reveal_strlit("reason");
            assert("host"@.len() != "reason"@.len());
        }
        match self {
            Rejection::NameEmpty => api_err("api.error.name_empty"),
            Rejection::TargetHostEmpty => api_err("api.error.target_host_empty"),
            Rejection::LocalPortRange => api_err("api.error.local_port_range"),
            Rejection::TargetPortRange => api_err("api.error.target_port_range"),
            Rejection::SelfLoop { port } => api_err_params(
                "api.error.self_loop",
                params1("port", ParamValue::Number(*port)),
            ),
            Rejection::PortInUse { port } => api_err_params(
                "api.error.port_in_use",
                params1("port", ParamValue::Number(*port)),
            ),
            Rejection::PortAssigned { port } => api_err_params(
                "api.error.port_assigned",
                params1("port", ParamValue::Number(*port)),
            ),
            Rejection::HostUnreachable { host, reason } => api_err_params(
                "api.error.host_unreachable",
                params2(
                    "host",
                    ParamValue::Text(host.clone()),
                    "reason",
                    ParamValue::Text(reason.clone()),
                ),
            ),
            Rejection::ForwarderFailed { detail } => api_err_params(
                "api.error.socat_failed",
                params1("detail", ParamValue::Text(detail.clone())),
            ),
            Rejection::TunnelNotFound { id } => api_err_params(
                "api.error.tunnel_not_found",
                params1("id", ParamValue::Text(id.clone())),
            ),
        }
    }
}

} // verus!
