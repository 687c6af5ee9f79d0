use vstd::prelude::*;
use vstd::string::*;

verus! {

/// What stands for a peer address that could not be read.
pub open spec fn unknown_peer() -> Seq<char> {
    "<unknown>"@
}

/// The notice that records who asked for the fan to be switched off.
pub open spec fn request_notice_of(peer_ip: Option<Seq<char>>) -> Seq<char> {
    "A user at IP address "@ + match peer_ip {
        Some(ip) => ip,
        None => unknown_peer(),
    } + " requested that the fan be turned off."@
}

/// Builds the notice for a request from `peer_ip`, or from an unknown peer.
pub fn request_notice(peer_ip: Option<&str>) -> (r: String)
    ensures
        r@ == request_notice_of(
            match peer_ip {
                Some(ip) => Some(ip@),
                None => None,
            },
        ),
{
    let mut r = String::from_str("A user at IP address ");
    match peer_ip {
        Some(ip) => r.append(ip),
        None => r.append("<unknown>"),
    }
    r.append(" requested that the fan be turned off.");
    r
}

} // verus!
