//! What of the tunnel list goes to the tunnel file and comes back from it.
//!
//! The file holds every field of a tunnel but the process id, which means
//! nothing once the service has stopped. A file that is missing or cannot be
//! read as a tunnel list stands for an empty list.

use vstd::prelude::*;

use crate::models::{clone_text, Tunnel, TunnelView};

verus! {

/// `tunnel` as the tunnel file holds it: without a process id.
pub open spec fn persisted(tunnel: TunnelView) -> TunnelView {
    TunnelView { pid: None, ..tunnel }
}

/// The list as the tunnel file holds it: every tunnel, in order, without its
/// process id.
pub open spec fn saved(tunnels: Seq<TunnelView>) -> Seq<TunnelView> {
    tunnels.map_values(|t: TunnelView| persisted(t))
}

/// The list that the service starts with, given what the tunnel file held:
/// what was read, without process ids, or nothing.
pub open spec fn loaded(read: Option<Seq<TunnelView>>) -> Seq<TunnelView> {
    match read {
        Some(tunnels) => saved(tunnels),
        None => Seq::empty(),
    }
}

/// The list to write to the tunnel file.
pub fn save_tunnels(tunnels: &Vec<Tunnel>) -> (records: Vec<Tunnel>)
    ensures
        records.deep_view() == saved(tunnels.deep_view()),
{
    let mut records: Vec<Tunnel> = Vec::new();
    let mut i: usize = 0;
    while i < tunnels.len()
        invariant
            i <= tunnels.len(),
            records.len() == i,
            forall|k: int| 0 <= k < i ==> (#[trigger] records[k])@ == persisted(tunnels[k]@),
        decreases tunnels.len() - i,
    {
        let tunnel = &tunnels[i];
        records.push(
            Tunnel {
                id: tunnel.id.clone(),
                name: tunnel.name.clone(),
                local_port: tunnel.local_port,
                target_host: tunnel.target_host.clone(),
                target_port: tunnel.target_port,
                enabled: tunnel.enabled,
                pid: None,
                warning_id: clone_text(&tunnel.warning_id),
            },
        );
        i += 1;
    }
    records
}

/// The list to start with: `read` is what the tunnel file held, or nothing if
/// the file is missing or does not hold a tunnel list.
pub fn load_tunnels(read: Option<Vec<Tunnel>>) -> (tunnels: Vec<Tunnel>)
    ensures
        tunnels.deep_view() == loaded(read.deep_view()),
{
    match read {
        Some(records) => save_tunnels(&records),
        None => {
            let tunnels: Vec<Tunnel> = Vec::new();
            tunnels
        },
    }
}

} // verus!
