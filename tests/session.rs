use boringtun::crypto::X25519SecretKey;
use boringtun::noise::errors::WireGuardError;
use wireguard_uwp::buffers::{BufferPool, VpnPacketBuffer, VpnPacketBufferList};
use wireguard_uwp::config::{
    from_base64, preshared_key_from_bytes, AddressFamily, InterfaceConfig, IpAddress, IpNetwork,
    PeerConfig, PresharedKeyError, WireGuardConfig,
};
use wireguard_uwp::engine::EngineOutcome;
use wireguard_uwp::pipeline::{dispose_decapsulated, dispose_drained, dispose_encapsulated};
use wireguard_uwp::plugin::{prepare_connection, Phase, PluginError, VpnPlugin};
use wireguard_uwp::routes::{build_route_set, partition_addresses, Route};

fn v4(a: u8, b: u8, c: u8, d: u8) -> IpAddress {
    IpAddress { family: AddressFamily::V4, bits: u32::from_be_bytes([a, b, c, d]) as u128 }
}

fn net(address: IpAddress, prefix: u8) -> IpNetwork {
    IpNetwork { address, prefix }
}

fn bytes(k: &[u8]) -> [u8; 32] {
    let mut b = [0u8; 32];
    b.copy_from_slice(k);
    b
}

/// A fresh private key and its public key, as raw bytes.
fn keypair() -> ([u8; 32], [u8; 32]) {
    let k = X25519SecretKey::new();
    (bytes(k.as_bytes()), bytes(k.public_key().as_bytes()))
}

fn config(private_key: [u8; 32], public_key: [u8; 32], address: IpNetwork) -> WireGuardConfig {
    WireGuardConfig {
        interface: InterfaceConfig {
            private_key,
            address: vec![address],
            dns_servers: vec![],
            search_domains: vec![],
        },
        peer: PeerConfig {
            public_key,
            port: 51820,
            allowed_ips: vec![net(v4(10, 0, 0, 0), 24)],
            excluded_ips: vec![],
            persistent_keepalive: None,
            preshared_key: None,
        },
    }
}

/// Two connected plugins that are each other's peer.
fn pair() -> (VpnPlugin, VpnPlugin) {
    let (a_key, a_pub) = keypair();
    let (b_key, b_pub) = keypair();
    let mut a = VpnPlugin::new();
    let mut b = VpnPlugin::new();
    assert!(a.connect_inner(config(a_key, b_pub, net(v4(10, 0, 0, 1), 32))).is_ok());
    assert!(b.connect_inner(config(b_key, a_pub, net(v4(10, 0, 0, 2), 32))).is_ok());
    (a, b)
}

/// An IPv4 packet from 10.0.0.1 to 10.0.0.2 carrying `payload`.
fn ipv4_packet(payload: &[u8]) -> Vec<u8> {
    let total = (20 + payload.len()) as u16;
    let mut p = vec![0x45, 0, (total >> 8) as u8, total as u8, 0, 0, 0, 0, 64, 17, 0, 0];
    p.extend_from_slice(&[10, 0, 0, 1, 10, 0, 0, 2]);
    p.extend_from_slice(payload);
    p
}

fn list_of(packets: Vec<Vec<u8>>) -> VpnPacketBufferList {
    VpnPacketBufferList::from_vec(packets.into_iter().map(VpnPacketBuffer::from_bytes).collect())
}

#[test]
fn no_engine_encapsulate_is_a_no_op() {
    let mut plugin = VpnPlugin::new();
    let pool = BufferPool::new(2048, 2048);
    let mut packets = list_of(vec![ipv4_packet(b"hello")]);
    let mut out = VpnPacketBufferList::new();
    assert!(plugin.encapsulate(&pool, &mut packets, &mut out).is_ok());
    assert_eq!(packets.size(), 1);
    assert_eq!(packets.get(0).to_vec(), ipv4_packet(b"hello"));
    assert_eq!(out.size(), 0);
}

#[test]
fn no_engine_decapsulate_is_a_no_op() {
    let mut plugin = VpnPlugin::new();
    let mut pool = BufferPool::new(2048, 2048);
    let frame = VpnPacketBuffer::from_bytes(vec![1, 2, 3, 4]);
    let mut packets = VpnPacketBufferList::new();
    let mut control = VpnPacketBufferList::new();
    assert!(plugin.decapsulate(&mut pool, &frame, &mut packets, &mut control).is_ok());
    assert_eq!(packets.size(), 0);
    assert_eq!(control.size(), 0);
    assert_eq!(pool.released_count(), 0);
}

#[test]
fn round_trip_through_two_sessions() {
    let (mut a, mut b) = pair();
    let mut pool = BufferPool::new(2048, 2048);
    let plain = ipv4_packet(b"round trip payload");

    // A has no session yet: the packet is queued and a handshake starts.
    let mut packets = list_of(vec![plain.clone()]);
    let mut frames = VpnPacketBufferList::new();
    assert!(a.encapsulate(&pool, &mut packets, &mut frames).is_ok());
    assert_eq!(frames.size(), 1);
    assert_eq!(packets.size(), 1);
    assert_eq!(packets.get(0).to_vec(), plain);
    let init = frames.get(0).to_vec();

    // B answers the handshake; nothing else is pending on its side.
    let mut b_packets = VpnPacketBufferList::new();
    let mut b_control = VpnPacketBufferList::new();
    let init_frame = VpnPacketBuffer::from_bytes(init);
    assert!(b.decapsulate(&mut pool, &init_frame, &mut b_packets, &mut b_control).is_ok());
    assert_eq!(b_control.size(), 1);
    assert_eq!(b_packets.size(), 0);
    let response = b_control.get(0).to_vec();

    // A completes the handshake: a keepalive, then the queued packet.
    let mut a_packets = VpnPacketBufferList::new();
    let mut a_control = VpnPacketBufferList::new();
    let response_frame = VpnPacketBuffer::from_bytes(response);
    assert!(a.decapsulate(&mut pool, &response_frame, &mut a_packets, &mut a_control).is_ok());
    assert_eq!(a_control.size(), 2);
    assert_eq!(a_packets.size(), 0);
    let data = a_control.get(1).to_vec();

    // B decrypts the data frame back into the plaintext packet.
    let mut b_packets = VpnPacketBufferList::new();
    let mut b_control = VpnPacketBufferList::new();
    let data_frame = VpnPacketBuffer::from_bytes(data);
    assert!(b.decapsulate(&mut pool, &data_frame, &mut b_packets, &mut b_control).is_ok());
    assert_eq!(b_packets.size(), 1);
    assert_eq!(b_packets.get(0).to_vec(), plain);
    assert_eq!(b_control.size(), 0);
}

#[test]
fn encapsulate_disposes_one_buffer_per_packet() {
    let (mut a, _b) = pair();
    let pool = BufferPool::new(2048, 2048);
    let inputs = vec![ipv4_packet(b"one"), ipv4_packet(b"two"), ipv4_packet(b"three")];
    let mut packets = list_of(inputs.clone());
    let mut frames = VpnPacketBufferList::new();
    assert!(a.encapsulate(&pool, &mut packets, &mut frames).is_ok());
    assert_eq!(packets.size() - inputs.len() + frames.size(), inputs.len());
    for (i, p) in inputs.iter().enumerate() {
        assert_eq!(&packets.get(i).to_vec(), p);
    }
}

#[test]
fn pre_handshake_packet_is_queued_and_its_buffer_returned() {
    let (mut a, _b) = pair();
    let pool = BufferPool::new(2048, 2048);
    let mut packets = list_of(vec![ipv4_packet(b"first"), ipv4_packet(b"second")]);
    let mut frames = VpnPacketBufferList::new();
    assert!(a.encapsulate(&pool, &mut packets, &mut frames).is_ok());
    // The first packet starts the handshake; the second is only queued.
    assert_eq!(frames.size(), 1);
    assert_eq!(packets.size(), 3);
    assert_eq!(packets.get(2).length, 0);
    assert_eq!(packets.get(2).data.len(), 2048);
}

#[test]
fn oversized_packet_fails_with_bounds_and_spares_the_rest() {
    let (mut a, _b) = pair();
    let pool = BufferPool::new(4096, 4096);
    let big = vec![0x45u8; 1501];
    let mut packets = list_of(vec![big.clone(), ipv4_packet(b"fine")]);
    let mut frames = VpnPacketBufferList::new();
    let r = a.encapsulate(&pool, &mut packets, &mut frames);
    assert!(matches!(r, Err(PluginError::Bounds)));
    assert_eq!(frames.size(), 1);
    assert_eq!(packets.size(), 3);
    assert_eq!(packets.get(0).to_vec(), big);
    assert_eq!(packets.get(1).to_vec(), ipv4_packet(b"fine"));
}

#[test]
fn send_buffer_too_small_fails_with_bounds() {
    let (mut a, _b) = pair();
    let pool = BufferPool::new(40, 2048);
    let mut packets = list_of(vec![ipv4_packet(b"payload")]);
    let mut frames = VpnPacketBufferList::new();
    let r = a.encapsulate(&pool, &mut packets, &mut frames);
    assert!(matches!(r, Err(PluginError::Bounds)));
    assert_eq!(frames.size(), 0);
    assert_eq!(packets.size(), 2);
}

#[test]
fn garbage_frame_is_a_protocol_error_and_its_buffer_is_returned() {
    let (_a, mut b) = pair();
    let mut pool = BufferPool::new(2048, 2048);
    let frame = VpnPacketBuffer::from_bytes(vec![9u8; 100]);
    let mut packets = VpnPacketBufferList::new();
    let mut control = VpnPacketBufferList::new();
    let r = b.decapsulate(&mut pool, &frame, &mut packets, &mut control);
    assert!(matches!(r, Err(PluginError::Protocol(_))));
    assert_eq!(pool.released_count(), 1);
    assert_eq!(packets.size(), 0);
    assert_eq!(control.size(), 0);
}

#[test]
fn small_receive_buffer_fails_with_bounds() {
    let (_a, mut b) = pair();
    let mut pool = BufferPool::new(2048, 100);
    let frame = VpnPacketBuffer::from_bytes(vec![1u8; 148]);
    let mut packets = VpnPacketBufferList::new();
    let mut control = VpnPacketBufferList::new();
    let r = b.decapsulate(&mut pool, &frame, &mut packets, &mut control);
    assert!(matches!(r, Err(PluginError::Bounds)));
    assert_eq!(pool.released_count(), 1);
}

#[test]
fn disconnect_twice_leaves_the_session_disconnected() {
    let (mut a, _b) = pair();
    assert_eq!(a.get_phase(), Phase::Connected);
    a.disconnect_inner();
    assert_eq!(a.get_phase(), Phase::Disconnected);
    a.disconnect_inner();
    assert_eq!(a.get_phase(), Phase::Disconnected);
    let pool = BufferPool::new(2048, 2048);
    let mut packets = list_of(vec![ipv4_packet(b"after")]);
    let mut frames = VpnPacketBufferList::new();
    assert!(a.encapsulate(&pool, &mut packets, &mut frames).is_ok());
    assert_eq!(frames.size(), 0);
    assert_eq!(packets.size(), 1);
}

#[test]
fn disconnect_without_connect() {
    let mut plugin = VpnPlugin::new();
    assert_eq!(plugin.get_phase(), Phase::Uninitialized);
    plugin.disconnect_inner();
    assert_eq!(plugin.get_phase(), Phase::Disconnected);
}

#[test]
fn keepalive_payload_is_never_produced() {
    let (a, _b) = pair();
    assert!(a.get_keep_alive_payload().is_none());
}

#[test]
fn connect_builds_the_plan() {
    let (key, _) = keypair();
    let (_, peer) = keypair();
    let v6 = IpAddress { family: AddressFamily::V6, bits: 0xfd00_0000_0000_0000_0000_0000_0000_0001 };
    let mut c = config(key, peer, net(v4(10, 0, 0, 7), 24));
    c.interface.address.push(net(v6, 64));
    c.interface.dns_servers.push(v4(1, 1, 1, 1));
    c.peer.allowed_ips = vec![
        net(v4(192, 168, 17, 77), 20),
        net(v6, 48),
        net(v4(0, 0, 0, 0), 0),
    ];
    c.peer.excluded_ips = vec![net(v4(192, 168, 16, 9), 32)];
    let mut plugin = VpnPlugin::new();
    let plan = match plugin.connect_inner(c) {
        Ok(p) => p,
        Err(_) => panic!("connect failed"),
    };
    assert_eq!(plugin.get_phase(), Phase::Connected);
    assert_eq!(plan.ipv4_addresses, vec![v4(10, 0, 0, 7)]);
    assert_eq!(plan.ipv6_addresses, vec![v6]);
    assert_eq!(
        plan.routes.ipv4_inclusion,
        vec![
            Route { address: v4(192, 168, 16, 0), prefix: 20 },
            Route { address: v4(0, 0, 0, 0), prefix: 0 },
        ]
    );
    assert_eq!(
        plan.routes.ipv6_inclusion,
        vec![Route {
            address: IpAddress { family: AddressFamily::V6, bits: 0xfd00_0000_0000_0000_0000_0000_0000_0000 },
            prefix: 48,
        }]
    );
    assert_eq!(plan.routes.ipv4_exclusion, vec![Route { address: v4(192, 168, 16, 9), prefix: 32 }]);
    assert!(plan.routes.ipv6_exclusion.is_empty());
    assert_eq!(plan.dns_servers, vec![v4(1, 1, 1, 1)]);
    assert_eq!(plan.remote_port, 51820);
    assert_eq!(plan.mtu, 1500);
    assert_eq!(plan.max_frame_size, 1600);
    assert!(!plan.low_cost_network_monitoring);
}

#[test]
fn connect_rejects_an_oversized_prefix() {
    let (key, _) = keypair();
    let (_, peer) = keypair();
    let mut plugin = VpnPlugin::new();
    let r = plugin.connect_inner(config(key, peer, net(v4(10, 0, 0, 7), 33)));
    assert!(matches!(r, Err(PluginError::InvalidConfig)));
    assert_eq!(plugin.get_phase(), Phase::Uninitialized);
}

#[test]
fn reconnect_replaces_the_engine() {
    let (mut a, _b) = pair();
    let (key, _) = keypair();
    let (_, peer) = keypair();
    assert!(a.connect_inner(config(key, peer, net(v4(10, 0, 0, 3), 32))).is_ok());
    assert_eq!(a.get_phase(), Phase::Connected);
}

#[test]
fn network_masks_the_host_bits() {
    let n = net(v4(192, 168, 1, 77), 20);
    assert_eq!(n.network(), v4(192, 168, 0, 0));
    assert_eq!(net(v4(192, 168, 1, 77), 32).network(), v4(192, 168, 1, 77));
    assert_eq!(net(v4(192, 168, 1, 77), 0).network(), v4(0, 0, 0, 0));
    let v6 = IpAddress { family: AddressFamily::V6, bits: u128::MAX };
    assert_eq!(
        net(v6, 1).network(),
        IpAddress { family: AddressFamily::V6, bits: 1u128 << 127 }
    );
    assert!(!net(v4(1, 2, 3, 4), 33).is_valid());
    assert!(net(v6, 128).is_valid());
}

#[test]
fn addresses_and_routes_split_by_family_in_order() {
    let v6 = IpAddress { family: AddressFamily::V6, bits: 5 };
    let nets = vec![net(v4(10, 1, 2, 3), 8), net(v6, 128), net(v4(10, 9, 9, 9), 16)];
    let (a4, a6) = partition_addresses(&nets);
    assert_eq!(a4, vec![v4(10, 1, 2, 3), v4(10, 9, 9, 9)]);
    assert_eq!(a6, vec![v6]);
    let routes = build_route_set(&nets, &vec![]);
    assert_eq!(
        routes.ipv4_inclusion,
        vec![Route { address: v4(10, 0, 0, 0), prefix: 8 }, Route { address: v4(10, 9, 0, 0), prefix: 16 }]
    );
    assert_eq!(routes.ipv6_inclusion, vec![Route { address: v6, prefix: 128 }]);
}

#[test]
fn preshared_key_decodes_32_bytes() {
    let text = "AAECAwQFBgcICQoLDA0ODxAREhMUFRYXGBkaGxwdHh8=";
    let key = match from_base64(text) {
        Ok(k) => k,
        Err(_) => panic!("valid key refused"),
    };
    let expected: Vec<u8> = (0u8..32).collect();
    assert_eq!(key.to_vec(), expected);
}

#[test]
fn preshared_key_of_wrong_length_is_refused() {
    assert!(matches!(from_base64("AAECAw=="), Err(PresharedKeyError::InvalidLength)));
    assert!(preshared_key_from_bytes(&vec![1u8; 31]).is_none());
    assert_eq!(preshared_key_from_bytes(&vec![7u8; 32]), Some([7u8; 32]));
}

#[test]
fn preshared_key_that_is_not_base64_is_refused() {
    assert!(matches!(from_base64("not base64!"), Err(PresharedKeyError::Decode(_))));
}

#[test]
fn dispose_encapsulated_forwards_a_frame_with_its_length() {
    let mut out = VpnPacketBufferList::new();
    let mut returned = VpnPacketBufferList::new();
    let mut first = None;
    let b = VpnPacketBuffer { data: vec![0u8; 200], length: 0 };
    dispose_encapsulated(EngineOutcome::WriteToNetwork(148), b, &mut out, &mut returned, &mut first);
    assert_eq!(out.size(), 1);
    assert_eq!(out.get(0).length, 148);
    assert_eq!(returned.size(), 0);
    assert!(first.is_none());
}

#[test]
fn dispose_encapsulated_keeps_the_first_error_only() {
    let mut out = VpnPacketBufferList::new();
    let mut returned = VpnPacketBufferList::new();
    let mut first = None;
    let b = VpnPacketBuffer { data: vec![0u8; 200], length: 0 };
    dispose_encapsulated(
        EngineOutcome::Failed(WireGuardError::NoCurrentSession),
        b,
        &mut out,
        &mut returned,
        &mut first,
    );
    let b = VpnPacketBuffer { data: vec![0u8; 200], length: 0 };
    dispose_encapsulated(
        EngineOutcome::Failed(WireGuardError::InvalidMac),
        b,
        &mut out,
        &mut returned,
        &mut first,
    );
    let b = VpnPacketBuffer { data: vec![0u8; 200], length: 0 };
    dispose_encapsulated(EngineOutcome::Done, b, &mut out, &mut returned, &mut first);
    assert_eq!(out.size(), 0);
    assert_eq!(returned.size(), 3);
    assert!(matches!(first, Some(PluginError::Protocol(WireGuardError::NoCurrentSession))));
}

#[test]
fn dispose_decapsulated_routes_each_outcome() {
    let mut pool = BufferPool::new(2048, 2048);
    let mut packets = VpnPacketBufferList::new();
    let mut control = VpnPacketBufferList::new();
    let fresh = || VpnPacketBuffer { data: vec![0u8; 300], length: 0 };
    let r = dispose_decapsulated(EngineOutcome::WriteToTunnelV4(60), fresh(), &mut pool, &mut packets, &mut control);
    assert!(matches!(r, Ok(false)));
    assert_eq!(packets.get(0).length, 60);
    let r = dispose_decapsulated(EngineOutcome::WriteToNetwork(92), fresh(), &mut pool, &mut packets, &mut control);
    assert!(matches!(r, Ok(true)));
    assert_eq!(control.get(0).length, 92);
    let r = dispose_decapsulated(EngineOutcome::Done, fresh(), &mut pool, &mut packets, &mut control);
    assert!(matches!(r, Ok(false)));
    let r = dispose_decapsulated(
        EngineOutcome::Failed(WireGuardError::InvalidPacket),
        fresh(),
        &mut pool,
        &mut packets,
        &mut control,
    );
    assert!(matches!(r, Err(PluginError::Protocol(WireGuardError::InvalidPacket))));
    assert_eq!(pool.released_count(), 2);
    assert_eq!(packets.size(), 1);
    assert_eq!(control.size(), 1);
}

#[test]
fn draining_collects_each_frame_and_stops_at_the_first_other_result() {
    let mut pool = BufferPool::new(2048, 2048);
    let mut control = VpnPacketBufferList::new();
    let fresh = || VpnPacketBuffer { data: vec![0u8; 300], length: 0 };
    let k = 3;
    for i in 0..k {
        let r = dispose_drained(EngineOutcome::WriteToNetwork(100 + i), fresh(), &mut pool, &mut control);
        assert!(matches!(r, Ok(true)));
    }
    let r = dispose_drained(EngineOutcome::Done, fresh(), &mut pool, &mut control);
    assert!(matches!(r, Ok(false)));
    assert_eq!(control.size(), k);
    assert_eq!(control.get(2).length, 102);
    assert_eq!(pool.released_count(), 1);
}

#[test]
fn prepared_session_takes_effect_only_when_installed() {
    let (key, _) = keypair();
    let (_, peer) = keypair();
    let mut plugin = VpnPlugin::new();
    let pending = match prepare_connection(config(key, peer, net(v4(10, 0, 0, 9), 24))) {
        Ok(p) => p,
        Err(_) => panic!("prepare failed"),
    };
    assert_eq!(pending.plan.remote_port, 51820);
    assert_eq!(plugin.get_phase(), Phase::Uninitialized);
    let plan = plugin.install(pending);
    assert_eq!(plan.ipv4_addresses, vec![v4(10, 0, 0, 9)]);
    assert_eq!(plugin.get_phase(), Phase::Connected);
}

#[test]
fn connect_reports_keys_the_engine_refuses() {
    let (key, _) = keypair();
    let mut plugin = VpnPlugin::new();
    let r = plugin.connect_inner(config(key, [0u8; 32], net(v4(10, 0, 0, 7), 24)));
    assert!(matches!(r, Err(PluginError::EngineConstruction(_))));
    assert_eq!(plugin.get_phase(), Phase::Uninitialized);
}

#[test]
fn every_packet_returned_when_the_engine_only_queues() {
    let (mut a, _b) = pair();
    let pool = BufferPool::new(2048, 2048);
    // The first batch starts the handshake; later packets are only queued.
    let mut first = list_of(vec![ipv4_packet(b"start")]);
    let mut frames = VpnPacketBufferList::new();
    assert!(a.encapsulate(&pool, &mut first, &mut frames).is_ok());
    let inputs = vec![ipv4_packet(b"q1"), ipv4_packet(b"q2"), ipv4_packet(b"q3")];
    let mut packets = list_of(inputs.clone());
    let mut out = VpnPacketBufferList::new();
    assert!(a.encapsulate(&pool, &mut packets, &mut out).is_ok());
    assert_eq!(out.size(), 0);
    assert_eq!(packets.size(), 6);
    for i in 0..3 {
        assert_eq!(packets.get(i).to_vec(), inputs[i]);
        assert_eq!(packets.get(3 + i).length, 0);
    }
}

#[test]
fn handshake_reply_drains_the_queued_packets() {
    let (mut a, mut b) = pair();
    let mut pool = BufferPool::new(2048, 2048);
    let mut packets = list_of(vec![ipv4_packet(b"one"), ipv4_packet(b"two"), ipv4_packet(b"three")]);
    let mut frames = VpnPacketBufferList::new();
    assert!(a.encapsulate(&pool, &mut packets, &mut frames).is_ok());
    assert_eq!(frames.size(), 1);
    let init = VpnPacketBuffer::from_bytes(frames.get(0).to_vec());
    let mut b_packets = VpnPacketBufferList::new();
    let mut b_control = VpnPacketBufferList::new();
    assert!(b.decapsulate(&mut pool, &init, &mut b_packets, &mut b_control).is_ok());
    let response = VpnPacketBuffer::from_bytes(b_control.get(0).to_vec());
    let released_before = pool.released_count();
    let mut a_packets = VpnPacketBufferList::new();
    let mut a_control = VpnPacketBufferList::new();
    assert!(a.decapsulate(&mut pool, &response, &mut a_packets, &mut a_control).is_ok());
    // The keepalive, then one frame for each of the three queued packets.
    assert_eq!(a_control.size(), 4);
    assert_eq!(a_packets.size(), 0);
    for i in 1..4 {
        assert_eq!(a_control.get(i).length as usize, ipv4_packet(b"one").len() + 32 + [0, 0, 2][i - 1]);
    }
    // The send buffer of the call that found nothing more went back.
    assert_eq!(pool.released_count(), released_before + 1);
}
