use btest_rs::data::{tcp_payload, PacketSource};
use btest_rs::protocol::Command;
use btest_rs::server::{client_udp_port, port_message, ListenAddr, ServerConfig, ServerState};

fn config(udp_port_start: u16, max_sessions: u32) -> ServerConfig {
    ServerConfig {
        udp_port_start,
        max_sessions,
        ..ServerConfig::default()
    }
}

#[test]
fn default_configuration() {
    let config = ServerConfig::default();
    assert_eq!(
        config.listen_addr,
        ListenAddr::V4 {
            ipv4: [0, 0, 0, 0],
            port: 2000
        }
    );
    assert_eq!(config.udp_port_start, 2000);
    assert_eq!(config.max_sessions, 100);
    assert_eq!(config.max_test_duration, 300_000_000_000);
    assert_eq!(config.control_timeout, 30_000_000_000);
}

#[test]
fn ports_are_allocated_in_order() {
    let mut state = ServerState::new(config(40_000, 10));
    assert_eq!(state.allocate_udp_port(), 40_000);
    assert_eq!(state.allocate_udp_port(), 40_001);
    assert_eq!(state.allocate_udp_port(), 40_002);
}

#[test]
fn ports_wrap_around() {
    let mut state = ServerState::new(config(64_998, 10));
    let ports: Vec<u16> = (0..8).map(|_| state.allocate_udp_port()).collect();
    assert_eq!(
        ports,
        [64_998, 64_999, 65_000, 65_001, 64_999, 65_000, 65_001, 64_999]
    );
}

#[test]
fn ports_of_a_full_cycle_are_distinct() {
    let mut state = ServerState::new(config(2000, 10));
    let mut seen = vec![false; 65_536];
    for _ in 0..63_002 {
        let port = state.allocate_udp_port();
        assert!(port >= 2000);
        assert!(!seen[port as usize]);
        seen[port as usize] = true;
    }
    assert_eq!(state.allocate_udp_port(), 2001);
    // The first port does not come back
    for _ in 0..130_000 {
        assert_ne!(state.allocate_udp_port(), 2000);
    }
}

#[test]
fn ports_from_a_high_start() {
    let mut state = ServerState::new(config(65_100, 10));
    let ports: Vec<u16> = (0..4).map(|_| state.allocate_udp_port()).collect();
    assert_eq!(ports, [65_100, 65_101, 65_101, 65_101]);

    let mut state = ServerState::new(config(65_535, 10));
    let ports: Vec<u16> = (0..3).map(|_| state.allocate_udp_port()).collect();
    assert_eq!(ports, [65_535, 0, 0]);
}

#[test]
fn only_udp_tests_take_a_port() {
    let mut state = ServerState::new(config(40_000, 10));
    let mut buf = [0u8; 16];
    buf[1] = 0x02;
    let udp = Command::parse(&buf).unwrap();
    buf[0] = 0x01;
    let tcp = Command::parse(&buf).unwrap();

    assert!(state.begin_test(&tcp).is_none());
    let first = state.begin_test(&udp).unwrap();
    assert_eq!(first.port, 40_000);
    assert_eq!(first.announcement, [0x9C, 0x40]);
    assert!(state.begin_test(&tcp).is_none());
    let second = state.begin_test(&udp).unwrap();
    assert_eq!(second.port, 40_001);
    assert_eq!(second.announcement, [0x9C, 0x41]);
}

#[test]
fn client_listens_above_the_server() {
    assert_eq!(client_udp_port(2000), 2256);
    assert_eq!(client_udp_port(65_279), 65_535);
}

#[test]
fn port_message_is_big_endian() {
    assert_eq!(port_message(2000), [0x07, 0xD0]);
    assert_eq!(port_message(0x0102), [0x01, 0x02]);
}

#[test]
fn max_sessions_rejection() {
    let mut state = ServerState::new(config(2000, 2));
    assert!(state.try_open_session());
    assert!(state.try_open_session());
    assert_eq!(state.active_sessions(), 2);
    assert!(!state.try_open_session());
    assert_eq!(state.active_sessions(), 2);
    state.close_session();
    assert_eq!(state.active_sessions(), 1);
    assert!(state.try_open_session());
    assert!(!state.try_open_session());
}

#[test]
fn no_session_is_allowed() {
    let mut state = ServerState::new(config(2000, 0));
    assert!(!state.try_open_session());
    assert_eq!(state.active_sessions(), 0);
    assert_eq!(state.config().max_sessions, 0);
}

#[test]
fn tcp_payload_has_the_size_asked_for() {
    assert_eq!(tcp_payload(0x8000), vec![0u8; 0x8000]);
    assert_eq!(tcp_payload(1), vec![0u8]);
    assert_eq!(tcp_payload(0), vec![0u8]);
}

#[test]
fn datagrams_have_the_size_asked_for() {
    for (tx_size, len) in [(512, 484), (1500, 1472), (33, 5), (32, 4), (28, 4), (0, 4)] {
        let mut source = PacketSource::new(tx_size);
        assert_eq!(source.next_packet().len(), len);
    }
}

#[test]
fn udp_receive_sequenced_packets() {
    let mut source = PacketSource::new(512);
    for seq in 1u32..=1000 {
        let packet = source.next_packet();
        assert_eq!(packet.len(), 484);
        assert_eq!(&packet[..4], &seq.to_be_bytes());
        assert!(packet[4..].iter().all(|b| *b == 0));
    }
}
