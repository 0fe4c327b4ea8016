//! What the fields of a tunnel must look like: a name and a target host that
//! are not empty once trimmed, and ports that are not zero.

use vstd::prelude::*;

use crate::models::TunnelView;
use crate::rejection::{Rejection, RejectionView};
use crate::text::{trim, trimmed};

verus! {

/// What is malformed in the fields of a tunnel, if anything. The checks run
/// in this order: the name and the target host must not be empty once
/// trimmed, and the two ports must not be zero.
pub open spec fn malformed(
    name: Seq<char>,
    local_port: u16,
    target_host: Seq<char>,
    target_port: u16,
) -> Option<RejectionView> {
    if trimmed(name).len() == 0 {
        Some(RejectionView::NameEmpty)
    } else if trimmed(target_host).len() == 0 {
        Some(RejectionView::TargetHostEmpty)
    } else if local_port == 0 {
        Some(RejectionView::LocalPortRange)
    } else if target_port == 0 {
        Some(RejectionView::TargetPortRange)
    } else {
        None
    }
}

/// No field of `tunnel` is malformed.
pub open spec fn well_formed(tunnel: TunnelView) -> bool {
    malformed(tunnel.name, tunnel.local_port, tunnel.target_host, tunnel.target_port) is None
}

/// No field of a tunnel of the list is malformed.
pub open spec fn all_well_formed(tunnels: Seq<TunnelView>) -> bool {
    forall|i: int| 0 <= i < tunnels.len() ==> well_formed(#[trigger] tunnels[i])
}

/// Tells what is malformed in the fields of a tunnel, if anything.
pub fn check_fields(name: &str, local_port: u16, target_host: &str, target_port: u16) -> (error:
    Option<Rejection>)
    ensures
        error.is_some() == malformed(name@, local_port, target_host@, target_port).is_some(),
        error matches Some(e) ==> malformed(name@, local_port, target_host@, target_port) == Some(
            e@,
        ),
{
    if trim(name).is_empty() {
        Some(Rejection::NameEmpty)
    } else if trim(target_host).is_empty() {
        Some(Rejection::TargetHostEmpty)
    } else if local_port == 0 {
        Some(Rejection::LocalPortRange)
    } else if target_port == 0 {
        Some(Rejection::TargetPortRange)
    } else {
        None
    }
}

} // verus!
