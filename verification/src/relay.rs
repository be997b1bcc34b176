//! Where a question relayed to a paired peer goes, decided before any connection is
//! attempted.
//!
//! Every failure is an `Error` reply rather than a torn-down session: a peer being
//! unknown or unreachable is ordinary, and the control app needs to show it rather than
//! lose its connection to its own agent over it.

use vstd::prelude::*;

use crate::ipc::{is_error, IpcResponse};
use crate::key::{fingerprint_text, PeerKey};
use crate::peers::{lookup, PeerStore};

verus! {

/// Why an unknown peer is refused, after its fingerprint.
pub const NOT_PAIRED: &'static str = " is not paired with this device";

/// Why a peer with no address cannot be asked, after its name.
pub const NEVER_REACHED: &'static str =
    " has never been reached from this device, so there is no address to try; discovery does not exist yet";

/// Why a stored address cannot be dialled, between the peer's name and the address.
pub const NOT_HOST_PORT: &'static str = " has a stored address that is not host:port: ";

/// The peer's name and last known address, or the reply that says why it cannot be
/// asked: it is not paired, or it was paired without ever being dialled.
pub fn relay_target(peers: &PeerStore, peer: &PeerKey) -> (r: Result<(String, String), IpcResponse>)
    ensures
        lookup(peers@.peers, peer@) is None ==> (r matches Err(e) && is_error(
            e,
            "unknown_peer"@,
            fingerprint_text(peer@) + NOT_PAIRED@,
        )),
        lookup(peers@.peers, peer@) matches Some(p) ==> (p.address is None ==> (r matches Err(e) && is_error(
            e,
            "peer_address_unknown"@,
            p.name@ + NEVER_REACHED@,
        ))),
        lookup(peers@.peers, peer@) matches Some(p) ==> (p.address matches Some(a) ==> (r matches Ok(
            (n, addr),
        ) && n@ == p.name@ && addr@ == a@)),
{
    match peers.get(peer) {
        None => {
            let mut message = peer.fingerprint();
            message.append(NOT_PAIRED);
            Err(IpcResponse::Error { code: String::from_str("unknown_peer"), message })
        },
        Some(entry) => match &entry.address {
            None => {
                let mut message = entry.name.clone();
                message.append(NEVER_REACHED);
                Err(IpcResponse::Error { code: String::from_str("peer_address_unknown"), message })
            },
            Some(address) => Ok((entry.name.clone(), address.clone())),
        },
    }
}

/// The reply for a peer whose stored address is not `host:port`.
pub fn invalid_address(name: &str, address: &str) -> (r: IpcResponse)
    ensures
        is_error(r, "peer_address_invalid"@, name@ + NOT_HOST_PORT@ + address@),
{
    let mut message = String::from_str(name);
    message.append(NOT_HOST_PORT);
    message.append(address);
    IpcResponse::Error { code: String::from_str("peer_address_invalid"), message }
}

} // verus!
