//! The stored tunnel list: an ordered list that is searched from the front.
//!
//! A new tunnel goes to the end; removing one keeps the order of the others.

use vstd::prelude::*;

use crate::models::{Tunnel, TunnelView};
use crate::text::str_eq;

verus! {

/// Some tunnel has the identifier `id`.
pub open spec fn has_id(tunnels: Seq<TunnelView>, id: Seq<char>) -> bool {
    exists|i: int| 0 <= i < tunnels.len() && (#[trigger] tunnels[i]).id == id
}

/// `i` is the position of the first tunnel with the identifier `id`.
pub open spec fn is_first_with_id(tunnels: Seq<TunnelView>, id: Seq<char>, i: int) -> bool {
    &&& 0 <= i < tunnels.len()
    &&& tunnels[i].id == id
    &&& forall|j: int| 0 <= j < i ==> (#[trigger] tunnels[j]).id != id
}

/// The position of the first tunnel with the identifier `id`.
pub open spec fn lookup(tunnels: Seq<TunnelView>, id: Seq<char>) -> Option<int> {
    if exists|i: int| is_first_with_id(tunnels, id, i) {
        Some(choose|i: int| is_first_with_id(tunnels, id, i))
    } else {
        None
    }
}

/// Some tunnel, enabled or not, has the local port `port`.
pub open spec fn port_claimed(tunnels: Seq<TunnelView>, port: u16) -> bool {
    exists|i: int| 0 <= i < tunnels.len() && (#[trigger] tunnels[i]).local_port == port
}

/// Some tunnel other than the one at `index` has the local port `port`.
pub open spec fn port_claimed_by_other(tunnels: Seq<TunnelView>, index: int, port: u16) -> bool {
    exists|i: int|
        0 <= i < tunnels.len() && i != index && (#[trigger] tunnels[i]).local_port == port
}

/// No two tunnels have the same local port.
pub open spec fn ports_unique(tunnels: Seq<TunnelView>) -> bool {
    forall|i: int, j: int|
        0 <= i < j < tunnels.len() ==> (#[trigger] tunnels[i]).local_port != (
        #[trigger] tunnels[j]).local_port
}

/// `tunnel` without a process id.
pub open spec fn idle(tunnel: TunnelView) -> TunnelView {
    TunnelView { pid: None, ..tunnel }
}

/// The list after the forwarder of the tunnel `id` was stopped: the first
/// tunnel with the identifier has no process id.
pub open spec fn forwarder_gone(tunnels: Seq<TunnelView>, id: Seq<char>) -> Seq<TunnelView> {
    match lookup(tunnels, id) {
        Some(i) => tunnels.update(i, idle(tunnels[i])),
        None => tunnels,
    }
}

/// `after` is `before` but for process ids that tunnels have lost.
pub open spec fn sheds_pids(before: Seq<TunnelView>, after: Seq<TunnelView>) -> bool {
    &&& after.len() == before.len()
    &&& forall|i: int|
        0 <= i < before.len() ==> #[trigger] after[i] == before[i] || after[i] == idle(before[i])
}

/// No two tunnels have the same identifier.
pub open spec fn ids_unique(tunnels: Seq<TunnelView>) -> bool {
    forall|i: int, j: int|
        0 <= i < j < tunnels.len() ==> (#[trigger] tunnels[i]).id != (#[trigger] tunnels[j]).id
}

/// Only enabled tunnels have a process id.
pub open spec fn pids_sound(tunnels: Seq<TunnelView>) -> bool {
    forall|i: int|
        0 <= i < tunnels.len() && (#[trigger] tunnels[i]).pid is Some ==> tunnels[i].enabled
}

/// There is at most one first tunnel with a given identifier.
pub proof fn lemma_lookup_is(tunnels: Seq<TunnelView>, id: Seq<char>, i: int)
    requires
        is_first_with_id(tunnels, id, i),
    ensures
        lookup(tunnels, id) == Some(i),
{
}

/// A list with the identifier has a first tunnel with it.
pub proof fn lemma_lookup_exists(tunnels: Seq<TunnelView>, id: Seq<char>)
    requires
        has_id(tunnels, id),
    ensures
        lookup(tunnels, id) is Some,
{
    let k = choose|k: int| 0 <= k < tunnels.len() && (#[trigger] tunnels[k]).id == id;
    lemma_first_before(tunnels, id, k);
}

/// Where a tunnel has the identifier, a first tunnel has it.
proof fn lemma_first_before(tunnels: Seq<TunnelView>, id: Seq<char>, k: int)
    requires
        0 <= k < tunnels.len(),
        tunnels[k].id == id,
    ensures
        exists|i: int| is_first_with_id(tunnels, id, i),
    decreases k,
{
    if exists|j: int| 0 <= j < k && (#[trigger] tunnels[j]).id == id {
        let j = choose|j: int| 0 <= j < k && (#[trigger] tunnels[j]).id == id;
        lemma_first_before(tunnels, id, j);
    } else {
        assert(is_first_with_id(tunnels, id, k));
    }
}

/// A list without the identifier has no first tunnel with it.
pub proof fn lemma_lookup_none(tunnels: Seq<TunnelView>, id: Seq<char>)
    requires
        !has_id(tunnels, id),
    ensures
        lookup(tunnels, id) is None,
{
}

/// Finds the first tunnel whose identifier is `id`.
pub fn find_tunnel(tunnels: &Vec<Tunnel>, id: &str) -> (found: Option<usize>)
    ensures
        match found {
            Some(i) => lookup(tunnels.deep_view(), id@) == Some(i as int) && i < tunnels.len(),
            None => lookup(tunnels.deep_view(), id@) is None,
        },
{
    let mut i: usize = 0;
    while i < tunnels.len()
        invariant
            i <= tunnels.len(),
            forall|j: int| 0 <= j < i ==> (#[trigger] tunnels.deep_view()[j]).id != id@,
        decreases tunnels.len() - i,
    {
        if str_eq(tunnels[i].id.as_str(), id) {
            proof {
                lemma_lookup_is(tunnels.deep_view(), id@, i as int);
            }
            return Some(i);
        }
        i += 1;
    }
    proof {
        lemma_lookup_none(tunnels.deep_view(), id@);
    }
    None
}

/// Tells whether a stored tunnel, enabled or not, has the local port `port`.
pub fn is_port_claimed(tunnels: &Vec<Tunnel>, port: u16) -> (claimed: bool)
    ensures
        claimed == port_claimed(tunnels.deep_view(), port),
{
    let mut i: usize = 0;
    while i < tunnels.len()
        invariant
            i <= tunnels.len(),
            forall|j: int| 0 <= j < i ==> (#[trigger] tunnels.deep_view()[j]).local_port != port,
        decreases tunnels.len() - i,
    {
        if tunnels[i].local_port == port {
            assert(tunnels.deep_view()[i as int].local_port == port);
            return true;
        }
        i += 1;
    }
    false
}

/// Tells whether a stored tunnel other than the one at `index` has the local
/// port `port`.
pub fn is_port_claimed_by_other(tunnels: &Vec<Tunnel>, index: usize, port: u16) -> (claimed: bool)
    ensures
        claimed == port_claimed_by_other(tunnels.deep_view(), index as int, port),
{
    let mut i: usize = 0;
    while i < tunnels.len()
        invariant
            i <= tunnels.len(),
            forall|j: int|
                0 <= j < i && j != index ==> (#[trigger] tunnels.deep_view()[j]).local_port
                    != port,
        decreases tunnels.len() - i,
    {
        if i != index && tunnels[i].local_port == port {
            assert(tunnels.deep_view()[i as int].local_port == port);
            return true;
        }
        i += 1;
    }
    false
}

/// What `lookup` finds is the first tunnel with the identifier.
pub proof fn lemma_lookup_found(tunnels: Seq<TunnelView>, id: Seq<char>)
    requires
        lookup(tunnels, id) is Some,
    ensures
        is_first_with_id(tunnels, id, lookup(tunnels, id)->0),
{
}

/// A tunnel may take the place of another in a list with unique ports if it
/// keeps the port or takes one that no other tunnel has.
pub proof fn lemma_replace_keeps_ports_unique(tunnels: Seq<TunnelView>, i: int, tunnel: TunnelView)
    requires
        ports_unique(tunnels),
        0 <= i < tunnels.len(),
        tunnel.local_port == tunnels[i].local_port || !port_claimed_by_other(
            tunnels,
            i,
            tunnel.local_port,
        ),
    ensures
        ports_unique(tunnels.update(i, tunnel)),
{
}

/// A tunnel may join a list with unique ports if no tunnel has its port.
pub proof fn lemma_push_keeps_ports_unique(tunnels: Seq<TunnelView>, tunnel: TunnelView)
    requires
        ports_unique(tunnels),
        !port_claimed(tunnels, tunnel.local_port),
    ensures
        ports_unique(tunnels.push(tunnel)),
{
}

/// Taking a tunnel out of a list with unique ports leaves the ports unique,
/// and no tunnel that is left has the port of the one that went.
pub proof fn lemma_remove_frees_port(tunnels: Seq<TunnelView>, i: int)
    requires
        ports_unique(tunnels),
        0 <= i < tunnels.len(),
    ensures
        ports_unique(tunnels.remove(i)),
        !port_claimed(tunnels.remove(i), tunnels[i].local_port),
{
}

/// Taking a process id away changes neither which tunnel an identifier finds
/// nor which ports are taken.
pub proof fn lemma_forwarder_gone(tunnels: Seq<TunnelView>, id: Seq<char>)
    ensures
        sheds_pids(tunnels, forwarder_gone(tunnels, id)),
        forall|other: Seq<char>| #[trigger]
            lookup(forwarder_gone(tunnels, id), other) == lookup(tunnels, other),
        forall|i: int, port: u16| #[trigger]
            port_claimed_by_other(forwarder_gone(tunnels, id), i, port) == port_claimed_by_other(
                tunnels,
                i,
                port,
            ),
        ports_unique(tunnels) ==> ports_unique(forwarder_gone(tunnels, id)),
{
    let after = forwarder_gone(tunnels, id);
    if lookup(tunnels, id) is Some {
        lemma_lookup_found(tunnels, id);
    }
    assert forall|k: int| 0 <= k < tunnels.len() implies (#[trigger] after[k]).id == tunnels[k].id
        && after[k].local_port == tunnels[k].local_port by {}
    assert forall|other: Seq<char>| #[trigger]
        lookup(after, other) == lookup(tunnels, other) by {
        if lookup(tunnels, other) is Some {
            lemma_lookup_found(tunnels, other);
            let i = lookup(tunnels, other)->0;
            assert(is_first_with_id(after, other, i)) by {
                assert forall|j: int| 0 <= j < i implies (#[trigger] after[j]).id != other by {
                    assert(tunnels[j].id != other);
                }
            }
            lemma_lookup_is(after, other, i);
        } else if lookup(after, other) is Some {
            lemma_lookup_found(after, other);
            let i = lookup(after, other)->0;
            assert(is_first_with_id(tunnels, other, i)) by {
                assert forall|j: int| 0 <= j < i implies (#[trigger] tunnels[j]).id != other by {
                    assert(after[j].id != other);
                }
            }
            lemma_lookup_is(tunnels, other, i);
        }
    }
    assert forall|i: int, port: u16| #[trigger]
        port_claimed_by_other(after, i, port) == port_claimed_by_other(tunnels, i, port) by {
        if port_claimed_by_other(tunnels, i, port) {
            let k = choose|k: int|
                0 <= k < tunnels.len() && k != i && (#[trigger] tunnels[k]).local_port == port;
            assert(after[k].local_port == port);
        }
        if port_claimed_by_other(after, i, port) {
            let k = choose|k: int|
                0 <= k < after.len() && k != i && (#[trigger] after[k]).local_port == port;
            assert(tunnels[k].local_port == port);
        }
    }
    if ports_unique(tunnels) {
        assert forall|a: int, b: int| 0 <= a < b < after.len() implies (
        #[trigger] after[a]).local_port != (#[trigger] after[b]).local_port by {
            assert(tunnels[a].local_port != tunnels[b].local_port);
        }
    }
}

} // verus!
