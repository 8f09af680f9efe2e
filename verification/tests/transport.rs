use nexus_core::identity::{DeviceId, Identity};
use nexus_core::model::PeerEndpoint;
use nexus_core::transport::{
    format_address, removed_service_event, resolved_service_event, service_host, service_instance,
    service_properties, service_type_name, LanTcpTransport, TransportEvent,
};

#[test]
fn addresses() {
    let v4 = PeerEndpoint { host: "127.0.0.1".into(), port: 47777 };
    assert_eq!(format_address(&v4), "127.0.0.1:47777");
    let v6 = PeerEndpoint { host: "fe80::1".into(), port: 80 };
    assert_eq!(format_address(&v6), "[fe80::1]:80");
    let zero = PeerEndpoint { host: "host.local".into(), port: 0 };
    assert_eq!(format_address(&zero), "host.local:0");
    assert_eq!(LanTcpTransport.name(), "lan-tcp");
    assert_eq!(service_type_name(), "_nexus-p2p._tcp.local.");
}

#[test]
fn advertisement() {
    let identity = Identity::from_secrets("Alice", [1; 32], [2; 32]);
    let public = identity.public();
    assert_eq!(service_host(&public.device_id), format!("{}.local.", public.device_id.0));
    assert_eq!(service_instance(&public.device_id), format!("nexus-{}", &public.device_id.0[..8]));
    let properties = service_properties(public);
    assert_eq!(properties.len(), 5);
    assert_eq!(properties[0], ("id".to_string(), public.device_id.0.clone()));
    assert_eq!(properties[1], ("name".to_string(), "Alice".to_string()));
    assert_eq!(properties[2], ("sign".to_string(), hex::encode(public.signing_public_key)));
    assert_eq!(properties[3], ("exchange".to_string(), hex::encode(public.exchange_public_key)));
    assert_eq!(properties[4], ("v".to_string(), "1".to_string()));
}

#[test]
fn resolved_services() {
    let alice = Identity::from_secrets("Alice", [1; 32], [2; 32]);
    let bob = Identity::from_secrets("Bob", [3; 32], [4; 32]);
    let local = alice.public().device_id.clone();
    let b = bob.public();
    let some = |s: &str| Some(s.to_string());
    let event = resolved_service_event(
        &local,
        some(&b.device_id.0),
        some("Bob"),
        some(&hex::encode(b.signing_public_key)),
        some(&hex::encode(b.exchange_public_key).to_uppercase()),
        "bob-host.local..",
        47778,
    );
    match event {
        Some(TransportEvent::Discovered { endpoint, announcement }) => {
            assert_eq!(endpoint, PeerEndpoint { host: "bob-host.local".into(), port: 47778 });
            assert_eq!(&announcement, b);
        }
        other => panic!("unexpected {other:?}"),
    }
    // The node's own service, missing properties, bad keys and empty hosts are ignored.
    assert!(resolved_service_event(&local, some(&local.0), some("A"), some(&hex::encode([0; 32])), some(&hex::encode([0; 32])), "h", 1).is_none());
    assert!(resolved_service_event(&local, None, some("B"), some(&hex::encode([0; 32])), some(&hex::encode([0; 32])), "h", 1).is_none());
    assert!(resolved_service_event(&local, some("x"), None, some(&hex::encode([0; 32])), some(&hex::encode([0; 32])), "h", 1).is_none());
    assert!(resolved_service_event(&local, some("x"), some("B"), some("zz"), some(&hex::encode([0; 32])), "h", 1).is_none());
    assert!(resolved_service_event(&local, some("x"), some("B"), some(&hex::encode([0; 31])), some(&hex::encode([0; 32])), "h", 1).is_none());
    assert!(resolved_service_event(&local, some("x"), some("B"), some(&hex::encode([0; 32])), some(&hex::encode([0; 32])), "...", 1).is_none());
    assert!(resolved_service_event(&local, some("x"), some("B"), some(&hex::encode([0; 32])), some(&hex::encode([0; 32])), "h", 1).is_some());
}

#[test]
fn removed_services() {
    match removed_service_event("nexus-0123abcd._nexus-p2p._tcp.local.") {
        Some(TransportEvent::Lost { device_id }) => assert_eq!(device_id, DeviceId("0123abcd".into())),
        other => panic!("unexpected {other:?}"),
    }
    match removed_service_event("nexus-plain") {
        Some(TransportEvent::Lost { device_id }) => assert_eq!(device_id.0, "plain"),
        other => panic!("unexpected {other:?}"),
    }
    assert!(removed_service_event("other-0123._tcp").is_none());
    assert!(removed_service_event("nexus").is_none());
}

#[test]
fn instance_name_takes_eight_bytes() {
    let id = DeviceId("éééééééé".into());
    assert_eq!(service_instance(&id), "nexus-éééé");
    let bytes8 = DeviceId("ab€def".into());
    assert_eq!(service_instance(&bytes8), "nexus-ab€def");
}
