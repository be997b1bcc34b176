use ultidesk::ipc::IpcResponse;
use ultidesk::key::Identity;
use ultidesk::peers::PeerStore;
use ultidesk::relay::{invalid_address, relay_target};

fn store() -> PeerStore {
    PeerStore::new(Identity::from_secret_bytes([1u8; 32]).public())
}

fn code(r: &IpcResponse) -> &str {
    match r {
        IpcResponse::Error { code, .. } => code,
        other => panic!("expected an error, got {other:?}"),
    }
}

#[test]
fn an_unpaired_peer_is_refused_before_any_connection_is_attempted() {
    let stranger = Identity::from_secret_bytes([3u8; 32]).public();
    let r = relay_target(&store(), &stranger).unwrap_err();
    assert_eq!(code(&r), "unknown_peer");
    assert_eq!(
        r,
        IpcResponse::Error {
            code: "unknown_peer".to_string(),
            message: format!("{} is not paired with this device", stranger.fingerprint())
        }
    );
}

#[test]
fn a_paired_peer_with_no_known_address_says_so() {
    let peer = Identity::from_secret_bytes([4u8; 32]).public();
    let mut s = store();
    s.pin(peer, "arch", 1).unwrap();
    let r = relay_target(&s, &peer).unwrap_err();
    assert_eq!(code(&r), "peer_address_unknown");
    assert_eq!(
        r,
        IpcResponse::Error {
            code: "peer_address_unknown".to_string(),
            message: "arch has never been reached from this device, so there is no address to try; \
                      discovery does not exist yet"
                .to_string()
        }
    );
}

#[test]
fn a_reached_peer_is_dialled_at_its_last_address() {
    let peer = Identity::from_secret_bytes([6u8; 32]).public();
    let mut s = store();
    s.pin(peer, "arch", 1).unwrap();
    s.remember_address(&peer, "127.0.0.1:1");
    assert_eq!(relay_target(&s, &peer), Ok(("arch".to_string(), "127.0.0.1:1".to_string())));
}

#[test]
fn a_stored_address_that_is_not_an_address_is_reported_with_both() {
    assert_eq!(
        invalid_address("arch", "not-an-address"),
        IpcResponse::Error {
            code: "peer_address_invalid".to_string(),
            message: "arch has a stored address that is not host:port: not-an-address".to_string()
        }
    );
}
