//! Recognising hosts that name this machine itself.

use vstd::prelude::*;
use vstd::string::*;

use crate::dotted::{dotted, is_octet, law_dotted_is_read, law_read_is_dotted};
use crate::literal::{ipv4_octets, ipv6_groups, parse_ipv4, parse_ipv6};
use crate::text::{
    decimal, is_plain, lemma_trimmed_is_itself, lowercase, str_eq, to_lowercase, trim, trimmed,
    white_space,
};

verus! {

/// The groups of the IPv6 loopback address `::1`.
pub open spec fn loopback_groups() -> Seq<u16> {
    seq![0u16, 0u16, 0u16, 0u16, 0u16, 0u16, 0u16, 1u16]
}

/// `text` writes a loopback address: an IPv4 address whose first number is
/// 127, or the IPv6 address `::1` in any of its forms.
pub open spec fn loopback_literal(text: Seq<char>) -> bool {
    match ipv4_octets(text) {
        Some(octets) => octets[0] == 127,
        None => ipv6_groups(text) == Some(loopback_groups()),
    }
}

/// The IPv4 texts that write a loopback address are the dotted forms of the
/// addresses from 127.0.0.0 to 127.255.255.255.
pub proof fn law_loopback_ipv4(text: Seq<char>)
    ensures
        ipv4_octets(text) is Some && loopback_literal(text) <==> exists|b: int, c: int, d: int|
            is_octet(b) && is_octet(c) && is_octet(d) && text == #[trigger] dotted(127, b, c, d),
{
    if ipv4_octets(text) is Some && loopback_literal(text) {
        law_read_is_dotted(text);
    }
    if exists|b: int, c: int, d: int|
        is_octet(b) && is_octet(c) && is_octet(d) && text == #[trigger] dotted(127, b, c, d) {
        let (b, c, d) = choose|b: int, c: int, d: int|
            is_octet(b) && is_octet(c) && is_octet(d) && text == #[trigger] dotted(127, b, c, d);
        law_dotted_is_read(127, b, c, d);
    }
}

/// `host`, once trimmed and put in lower case, names the local machine: it is
/// `localhost`, `::1` or `0.0.0.0`, or it writes a loopback address.
pub open spec fn loopback_host(host: Seq<char>) -> bool {
    let h = lowercase(trimmed(host));
    h == "localhost"@ || h == "::1"@ || h == "0.0.0.0"@ || loopback_literal(h)
}

/// A text of characters below U+0080 without capital letters that neither
/// begins nor ends with white space names the local machine exactly when it
/// is one of the three names or writes a loopback address.
pub proof fn lemma_plain_host(host: Seq<char>)
    requires
        forall|i: int| 0 <= i < host.len() ==> is_plain(#[trigger] host[i]),
        host.len() > 0 ==> !white_space(host.first()) && !white_space(host.last()),
    ensures
        loopback_host(host) <==> host == "localhost"@ || host == "::1"@ || host == "0.0.0.0"@
            || loopback_literal(host),
{
    lemma_trimmed_is_itself(host);
}

/// The hosts `localhost`, `127.0.0.1`, `::1` and `0.0.0.0` name the local
/// machine.
pub proof fn law_named_loopback_hosts()
    ensures
        loopback_host("localhost"@),
        loopback_host("127.0.0.1"@),
        loopback_host("::1"@),
        loopback_host("0.0.0.0"@),
{
    reveal_strlit("localhost");
    reveal_strlit("127.0.0.1");
    reveal_strlit("::1");
    reveal_strlit("0.0.0.0");
    lemma_plain_host("localhost"@);
    lemma_plain_host("::1"@);
    lemma_plain_host("0.0.0.0"@);
    lemma_plain_host("127.0.0.1"@);
    law_dotted_is_read(127, 0, 0, 1);
    reveal_with_fuel(decimal, 3);
    assert(dotted(127, 0, 0, 1) =~= "127.0.0.1"@);
}

/// A tunnel from `local_port` to `target_host:target_port` would forward the
/// port to itself.
pub open spec fn is_self_loop(local_port: u16, target_host: Seq<char>, target_port: u16) -> bool {
    local_port == target_port && loopback_host(target_host)
}

/// Tells whether `text` writes a loopback address.
fn is_loopback_literal(text: &str) -> (loopback: bool)
    ensures
        loopback == loopback_literal(text@),
{
    match parse_ipv4(text) {
        Some((first, _, _, _)) => first == 127,
        None => match parse_ipv6(text) {
            Some(groups) => {
                let loopback = groups[0] == 0 && groups[1] == 0 && groups[2] == 0 && groups[3] == 0
                    && groups[4] == 0 && groups[5] == 0 && groups[6] == 0 && groups[7] == 1;
                proof {
                    if loopback {
                        assert(groups@ =~= loopback_groups());
                    }
                }
                loopback
            },
            None => false,
        },
    }
}

/// Tells whether `host` names the local machine, so that a tunnel to it on
/// the same port would forward to itself.
pub fn is_loopback_host(host: &str) -> (loopback: bool)
    ensures
        loopback == loopback_host(host@),
{
    let h = to_lowercase(trim(host));
    str_eq(h.as_str(), "localhost") || str_eq(h.as_str(), "::1") || str_eq(h.as_str(), "0.0.0.0")
        || is_loopback_literal(h.as_str())
}

} // verus!
