//! What the service answers: a tunnel together with the address that clients
//! connect to and, where there is one, a warning.

use vstd::prelude::*;
use vstd::string::*;

use crate::messages::{
    keys_distinct, message_with_two, params2, ApiMessage, ApiMessageView, ParamValue,
    ParamValueView,
};
use crate::models::{Tunnel, TunnelView};
use crate::text::{decimal, push_decimal};

verus! {

/// The answer to a create or update request.
#[derive(Debug, Clone, PartialEq, Eq)]
pub struct TunnelResponse {
    pub tunnel: Tunnel,
    /// Present only when the tunnel is enabled.
    pub connection_url: Option<String>,
    /// Present when the tunnel was accepted although something looked wrong.
    pub warning: Option<ApiMessage>,
}

/// A `TunnelResponse` with its strings as character sequences.
pub struct TunnelResponseView {
    pub tunnel: TunnelView,
    pub connection_url: Option<Seq<char>>,
    pub warning: Option<ApiMessageView>,
}

impl View for TunnelResponse {
    type V = TunnelResponseView;

    open spec fn view(&self) -> TunnelResponseView {
        TunnelResponseView {
            tunnel: self.tunnel@,
            connection_url: self.connection_url.deep_view(),
            warning: self.warning.deep_view(),
        }
    }
}

/// One entry of the tunnel listing.
#[derive(Debug, Clone, PartialEq, Eq)]
pub struct TunnelListItem {
    pub tunnel: Tunnel,
    /// Present only when the tunnel is enabled.
    pub connection_url: Option<String>,
}

/// A `TunnelListItem` with its strings as character sequences.
pub struct TunnelListItemView {
    pub tunnel: TunnelView,
    pub connection_url: Option<Seq<char>>,
}

impl View for TunnelListItem {
    type V = TunnelListItemView;

    open spec fn view(&self) -> TunnelListItemView {
        TunnelListItemView {
            tunnel: self.tunnel@,
            connection_url: self.connection_url.deep_view(),
        }
    }
}

impl DeepView for TunnelListItem {
    type V = TunnelListItemView;

    open spec fn deep_view(&self) -> TunnelListItemView {
        self@
    }
}

/// The address `<hostname>:<port>`.
pub open spec fn host_port(hostname: Seq<char>, port: u16) -> Seq<char> {
    hostname + seq![':'] + decimal(port as nat)
}

/// The address under which clients reach `tunnel`: none while it is disabled.
pub open spec fn connection_url(tunnel: TunnelView, hostname: Seq<char>) -> Option<Seq<char>> {
    if tunnel.enabled {
        Some(host_port(hostname, tunnel.local_port))
    } else {
        None
    }
}

/// The listing entry of `tunnel`.
pub open spec fn list_item(tunnel: TunnelView, hostname: Seq<char>) -> TunnelListItemView {
    TunnelListItemView { tunnel, connection_url: connection_url(tunnel, hostname) }
}

/// The answer that reports `tunnel` with `warning`.
pub open spec fn response_for(
    tunnel: TunnelView,
    hostname: Seq<char>,
    warning: Option<ApiMessageView>,
) -> TunnelResponseView {
    TunnelResponseView { tunnel, connection_url: connection_url(tunnel, hostname), warning }
}

/// The key of the warning that a target host is up while nothing listens on
/// the target port.
pub open spec fn port_closed_key() -> Seq<char> {
    "api.warning.port_closed"@
}

/// The warning that nothing listens on `port` of `host`.
pub open spec fn port_closed_message(host: Seq<char>, port: u16) -> ApiMessageView {
    message_with_two(
        port_closed_key(),
        "host"@,
        ParamValueView::Text(host),
        "port"@,
        ParamValueView::Number(port),
    )
}

/// The key under which a tunnel records that its target port was closed.
pub fn port_closed_warning_id() -> (key: String)
    ensures
        key@ == port_closed_key(),
{
    String::from_str("api.warning.port_closed")
}

/// The warning that the host answered while nothing listens on the port.
pub fn port_closed_warning(host: &str, port: u16) -> (warning: ApiMessage)
    ensures
        warning@ == port_closed_message(host@, port),
        keys_distinct(warning@.params),
{
    proof {
        reveal_strlit("host");
        reveal_strlit("port");
        assert("host"@[0] != "port"@[0]);
    }
    ApiMessage::with_params(
        "api.warning.port_closed",
        params2("host", ParamValue::Text(String::from_str(host)), "port", ParamValue::Number(port)),
    )
}

/// Writes `<host>:<port>`.
pub fn join_host_port(host: &str, port: u16) -> (address: String)
    ensures
        address@ == host_port(host@, port),
{
    let mut address = String::from_str(host);
    address.append(":");
    proof {
        reveal_strlit(":");
    }
    push_decimal(&mut address, port as u32);
    address
}

/// The address under which clients reach `tunnel` on the machine called
/// `hostname`: `<hostname>:<local_port>` while the tunnel is enabled, nothing
/// otherwise.
pub fn connection_url_for(tunnel: &Tunnel, hostname: &str) -> (url: Option<String>)
    ensures
        url.deep_view() == connection_url(tunnel@, hostname@),
{
    if tunnel.enabled {
        Some(join_host_port(hostname, tunnel.local_port))
    } else {
        None
    }
}

/// The listing of `tunnels`: every tunnel, in order, with its address.
pub fn list_tunnels(tunnels: &Vec<Tunnel>, hostname: &str) -> (items: Vec<TunnelListItem>)
    ensures
        items.deep_view() == tunnels.deep_view().map_values(
            |t: TunnelView| list_item(t, hostname@),
        ),
{
    let mut items: Vec<TunnelListItem> = Vec::new();
    let mut i: usize = 0;
    while i < tunnels.len()
        invariant
            i <= tunnels.len(),
            items.len() == i,
            forall|k: int|
                0 <= k < i ==> (#[trigger] items[k])@ == list_item(tunnels[k]@, hostname@),
        decreases tunnels.len() - i,
    {
        let tunnel = &tunnels[i];
        items.push(
            TunnelListItem {
                connection_url: connection_url_for(tunnel, hostname),
                tunnel: tunnel.clone(),
            },
        );
        i += 1;
    }
    items
}

} // verus!
