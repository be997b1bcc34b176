use ultidesk::ids::DeviceId;
use ultidesk::settings::{adopt_device_id, DeviceKey, Route};

fn route(source: (DeviceId, &str), sink: (DeviceId, &str)) -> Route {
    Route {
        source: DeviceKey { device_id: source.0, node: source.1.to_string() },
        sink: DeviceKey { device_id: sink.0, node: sink.1.to_string() },
    }
}

#[test]
fn adopting_the_derived_id_carries_this_machines_routes_across() {
    let mut local = DeviceId::new();
    let old = local;
    let peer = DeviceId::new();
    let mut routes = vec![route((old, "speakers"), (peer, "peer-sink")), route((peer, "peer-mic"), (old, "headset"))];
    let derived = DeviceId::new();
    assert!(adopt_device_id(&mut local, &mut routes, derived));
    assert_eq!(local, derived);
    assert_eq!(routes[0].source.device_id, derived);
    assert_eq!(routes[1].sink.device_id, derived);
    assert_eq!(routes[0].sink.device_id, peer, "a peer's id is not this machine's and must not be rewritten");
    assert_eq!(routes[1].source.device_id, peer);
    assert_eq!(routes[0].source.node, "speakers", "nodes are opaque");
}

#[test]
fn adopting_the_same_id_changes_nothing_and_says_so() {
    let mut local = DeviceId::new();
    let id = local;
    let mut routes = vec![route((id, "speakers"), (DeviceId::new(), "peer-sink"))];
    let before = routes.clone();
    assert!(!adopt_device_id(&mut local, &mut routes, id));
    assert_eq!(local, id);
    assert_eq!(routes, before);
}

#[test]
fn a_route_between_two_local_endpoints_moves_at_both_ends() {
    let mut local = DeviceId::from_u128(1);
    let mut routes = vec![route((DeviceId::from_u128(1), "mic"), (DeviceId::from_u128(1), "speakers"))];
    assert!(adopt_device_id(&mut local, &mut routes, DeviceId::from_u128(2)));
    assert_eq!(routes[0].source.device_id, DeviceId::from_u128(2));
    assert_eq!(routes[0].sink.device_id, DeviceId::from_u128(2));
    assert_eq!(routes[0].sink.node, "speakers");
}

#[test]
fn adopting_with_no_routes_still_moves_the_id() {
    let mut local = DeviceId::from_u128(1);
    let mut routes: Vec<Route> = Vec::new();
    assert!(adopt_device_id(&mut local, &mut routes, DeviceId::from_u128(9)));
    assert_eq!(local, DeviceId::from_u128(9));
    assert!(routes.is_empty());
}
