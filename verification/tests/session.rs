use btest_rs::model::{Phase, Reply};
use btest_rs::protocol::{Direction, Protocol, Stats};
use btest_rs::server::{ServerConfig, ServerState};
use btest_rs::session::{remote_stats, Session};
use byteorder::{BigEndian, ByteOrder, LittleEndian};

const SEC: u128 = 1_000_000_000;

fn open(max_test_secs: u128, control_secs: u128) -> Session {
    let config = ServerConfig {
        max_test_duration: max_test_secs * SEC,
        control_timeout: control_secs * SEC,
        ..ServerConfig::default()
    };
    Session::open(&config, 0).0
}

fn make_cmd(protocol: u8, direction: u8, conn_count: u8, tx_size: u16) -> [u8; 16] {
    let mut buf = [0u8; 16];
    buf[0] = protocol;
    buf[1] = direction;
    buf[3] = conn_count;
    LittleEndian::write_u16(&mut buf[4..6], tx_size);
    buf
}

fn start(protocol: u8, direction: u8) -> Session {
    let mut session = open(60, 60);
    let reply = session.on_read(&make_cmd(protocol, direction, 0, 512), 0);
    assert!(matches!(reply, Reply::Start { .. }));
    session
}

/// The next statistics message, as soon as it is due. Tests start at zero.
fn tick(session: &mut Session) -> Stats {
    let due = (session.stats_seq() as u128 + 1) * SEC;
    Stats::parse(&session.on_stats_tick(due).unwrap()).unwrap()
}

// --- Handshake ---

#[test]
fn handshake_hello() {
    let (session, hello) = Session::open(&ServerConfig::default(), 0);
    assert_eq!(hello, [0x01, 0x00, 0x00, 0x00]);
    assert_eq!(session.phase(), Phase::Handshake);
    assert_eq!(session.command_bytes_wanted(), 16);
    assert!(!session.sends_data());
}

#[test]
fn handshake_tcp_full() {
    let mut session = open(10, 10);
    match session.on_read(&make_cmd(0x01, 0x02, 0, 0x8000), 5) {
        Reply::Start { command, confirm } => {
            assert_eq!(confirm.token, [0x01, 0x00, 0x00, 0x00]);
            assert_eq!(command.protocol, Protocol::Tcp);
            assert_eq!(command.direction, Direction::Receive);
            assert_eq!(command.tx_size, 0x8000);
        }
        _ => panic!("the command should start a test"),
    }
    assert_eq!(
        session.phase(),
        Phase::Tcp {
            reading: true,
            writing: true
        }
    );
    assert_eq!(session.command_bytes_wanted(), 0);
}

#[test]
fn handshake_udp_full() {
    let port_base = 40_000;
    let mut state = ServerState::new(ServerConfig {
        udp_port_start: port_base,
        ..ServerConfig::default()
    });
    let (mut session, hello) = Session::open(state.config(), 0);
    assert_eq!(hello, [0x01, 0x00, 0x00, 0x00]);
    match session.on_read(&make_cmd(0x00, 0x02, 0, 512), 0) {
        Reply::Start { command, confirm } => {
            assert_eq!(confirm.token[0], 0x01);
            let udp = state.begin_test(&command).unwrap();
            let udp_port = BigEndian::read_u16(&udp.announcement);
            assert!(udp_port >= port_base);
            assert_eq!(udp_port, udp.port);
        }
        _ => panic!("the command should start a test"),
    }
    assert_eq!(
        session.phase(),
        Phase::Udp {
            receiving: true,
            sending: true
        }
    );
}

#[test]
fn handshake_tcp_multi_connection() {
    let mut session = open(10, 10);
    match session.on_read(&make_cmd(0x01, 0x02, 5, 0x8000), 0) {
        Reply::Start { confirm, .. } => {
            assert_eq!(confirm.token[0], 0x01);
            let session_id = u16::from_le_bytes([confirm.token[1], confirm.token[2]]);
            assert!(session_id > 0);
        }
        _ => panic!("the command should start a test"),
    }
}

#[test]
fn command_may_arrive_in_pieces() {
    let cmd = make_cmd(0x00, 0x03, 2, 1400);
    let mut session = open(10, 10);
    assert!(matches!(session.on_read(&cmd[..1], 1), Reply::Nothing));
    assert_eq!(session.command_bytes_wanted(), 15);
    assert!(matches!(session.on_read(&cmd[1..9], 2), Reply::Nothing));
    assert_eq!(session.command_bytes_wanted(), 7);
    assert_eq!(session.phase(), Phase::Handshake);
    match session.on_read(&cmd[9..], 3) {
        Reply::Start { command, confirm } => {
            assert_eq!(command.tx_size, 1400);
            assert_eq!(command.direction, Direction::Both);
            assert_eq!(confirm.token, [0x01, 0x00, 0x01, 0x00]);
        }
        _ => panic!("the command should start a test"),
    }
}

#[test]
fn malformed_command_invalid_protocol() {
    let mut session = open(10, 10);
    let reply = session.on_read(&make_cmd(0xFF, 0x02, 0, 512), 0);
    assert!(matches!(reply, Reply::Nothing));
    assert_eq!(session.phase(), Phase::Closed);
    assert!(session.on_stats_tick(60 * SEC).is_none());
}

#[test]
fn malformed_command_invalid_direction() {
    let mut session = open(10, 10);
    let reply = session.on_read(&make_cmd(0x01, 0xFF, 0, 0x8000), 0);
    assert!(matches!(reply, Reply::Nothing));
    assert_eq!(session.phase(), Phase::Closed);
    assert!(session.on_stats_tick(60 * SEC).is_none());
}

#[test]
fn malformed_command_truncated() {
    let mut session = open(10, 10);
    assert!(matches!(
        session.on_read(&[0x01, 0x02, 0x00, 0x00], 0),
        Reply::Nothing
    ));
    assert!(matches!(session.on_read(&[], 1), Reply::Nothing));
    assert_eq!(session.phase(), Phase::Closed);
}

#[test]
fn silent_client_never_gets_a_test() {
    let mut session = open(60, 3);
    session.on_clock(3 * SEC - 1);
    assert_eq!(session.phase(), Phase::Handshake);
    session.on_read(&[0x00], 3 * SEC - 1);
    session.on_clock(6 * SEC - 2);
    assert_eq!(session.phase(), Phase::Handshake);
    session.on_clock(6 * SEC - 1);
    assert_eq!(session.phase(), Phase::Closed);
}

// --- Statistics ---

#[test]
fn udp_server_sends_stats_on_control_channel() {
    let mut session = start(0x00, 0x02);
    let bytes = session.on_stats_tick(SEC).unwrap();
    assert_eq!(bytes[0], 0x07);
    assert_eq!(BigEndian::read_u32(&bytes[1..5]), 1);
    assert_eq!(tick(&mut session).seq, 2);
    assert_eq!(tick(&mut session).seq, 3);
    assert_eq!(session.stats_seq(), 3);
}

#[test]
fn tcp_transmit_server_receives() {
    let mut session = start(0x01, 0x01);
    assert!(!session.sends_data());
    for _ in 0..10 {
        assert!(matches!(session.on_read(&[0u8; 4096], 1), Reply::Nothing));
    }
    let stats = tick(&mut session);
    assert_eq!(stats.seq, 1);
    assert_eq!(stats.recv_bytes, 40_960);
    assert_eq!(tick(&mut session).recv_bytes, 0);
}

#[test]
fn udp_transmit_server_receives() {
    let mut session = start(0x00, 0x01);
    assert!(!session.sends_data());
    for _ in 0..50 {
        session.on_datagram(484);
    }
    // Headers count too
    assert_eq!(tick(&mut session).recv_bytes, 50 * 512);
    session.on_datagram(0);
    assert_eq!(tick(&mut session).recv_bytes, 28);
}

#[test]
fn reported_count_wraps_at_32_bits() {
    let mut session = start(0x00, 0x01);
    session.on_datagram(0xFFFF_FFFF);
    assert_eq!(tick(&mut session).recv_bytes, 27);
    assert_eq!(tick(&mut session).recv_bytes, 0);
}

#[test]
fn stats_are_due_every_second() {
    let mut session = open(60, 60);
    session.on_read(&make_cmd(0x00, 0x02, 0, 512), 5 * SEC);
    assert_eq!(session.stats_wait(5 * SEC), SEC);
    assert_eq!(session.stats_wait(5 * SEC + 1), SEC - 1);
    assert!(!session.stats_due(6 * SEC - 1));
    assert!(session.on_stats_tick(6 * SEC - 1).is_none());
    assert_eq!(session.stats_seq(), 0);
    assert!(session.stats_due(6 * SEC));
    assert_eq!(session.stats_wait(6 * SEC), 0);
    assert!(session.on_stats_tick(6 * SEC).is_some());
    assert!(session.on_stats_tick(6 * SEC).is_none());
    assert_eq!(session.stats_wait(6 * SEC), SEC);
    assert!(session.on_stats_tick(7 * SEC).is_some());
    assert_eq!(session.stats_seq(), 2);
}

#[test]
fn late_stats_catch_up() {
    let mut session = start(0x01, 0x02);
    let now = 3 * SEC + SEC / 2;
    for seq in 1..=3 {
        let bytes = session.on_stats_tick(now).unwrap();
        assert_eq!(Stats::parse(&bytes).unwrap().seq, seq);
    }
    assert!(session.on_stats_tick(now).is_none());
    assert_eq!(session.stats_wait(now), SEC / 2);
}

#[test]
fn reports_never_exceed_what_was_received() {
    let mut session = start(0x00, 0x01);
    let mut received: u64 = 0;
    let mut reported: u64 = 0;
    for len in [0usize, 484, 0xFFFF_FFFF, 1, 65_507] {
        session.on_datagram(len);
        received += len as u64 + 28;
        reported += tick(&mut session).recv_bytes as u64;
        assert!(reported <= received);
        assert_eq!(reported % (1 << 32), received % (1 << 32));
    }
}

#[test]
fn no_stats_before_the_test() {
    let mut session = open(10, 10);
    assert!(session.on_stats_tick(60 * SEC).is_none());
    assert_eq!(session.stats_seq(), 0);
}

#[test]
fn remote_stats_are_passed_on() {
    let stats = Stats {
        seq: 9,
        recv_bytes: 77,
    };
    let mut session = start(0x00, 0x03);
    match session.on_read(&stats.serialize(), 1) {
        Reply::RemoteStats { stats } => {
            assert_eq!(stats.seq, 9);
            assert_eq!(stats.recv_bytes, 77);
        }
        _ => panic!("the statistics should be passed on"),
    }
    assert!(matches!(
        session.on_read(&stats.serialize()[..11], 1),
        Reply::Nothing
    ));
    assert!(matches!(session.on_read(&[0x06; 12], 1), Reply::Nothing));
    // Control bytes are no test data
    assert_eq!(tick(&mut session).recv_bytes, 0);
}

#[test]
fn remote_stats_of_a_longer_chunk() {
    let mut chunk = vec![0xAAu8; 40];
    chunk[..12].copy_from_slice(
        &Stats {
            seq: 1,
            recv_bytes: 2,
        }
        .serialize(),
    );
    assert_eq!(remote_stats(&chunk).unwrap().recv_bytes, 2);
    assert!(remote_stats(&chunk[1..]).is_none());
    assert!(remote_stats(&[]).is_none());
}

// --- Directions ---

#[test]
fn tcp_both_direction() {
    let mut session = start(0x01, 0x03);
    assert!(session.sends_data());
    session.on_read(&[0u8; 1024], 1);
    assert_eq!(tick(&mut session).recv_bytes, 1024);
    assert!(session.sends_data());
}

#[test]
fn udp_both_direction() {
    let mut session = start(0x00, 0x03);
    assert!(session.sends_data());
    session.on_datagram(484);
    assert_eq!(tick(&mut session).recv_bytes, 512);
    assert!(session.sends_data());
}

// --- The end of a session ---

#[test]
fn udp_sender_stops_on_tcp_close() {
    let mut session = start(0x00, 0x02);
    assert!(session.sends_data());
    assert!(matches!(session.on_read(&[], 1), Reply::Nothing));
    assert_eq!(session.phase(), Phase::Closed);
    assert!(!session.sends_data());
    session.on_read(&[1, 2, 3], 2);
    session.on_datagram(100);
    assert!(session.on_stats_tick(60 * SEC).is_none());
    assert_eq!(session.phase(), Phase::Closed);
}

#[test]
fn udp_sender_stops_when_stats_cannot_be_written() {
    let mut session = start(0x00, 0x02);
    session.on_stats_write_failed();
    assert_eq!(session.phase(), Phase::Closed);
    assert!(!session.sends_data());
}

#[test]
fn udp_sender_stops_on_control_idle_timeout() {
    let mut session = open(60, 3);
    session.on_read(&make_cmd(0x00, 0x02, 0, 512), 0);
    assert_eq!(session.time_left(SEC), 2 * SEC);
    // Datagrams are not heard on the control channel
    session.on_datagram(484);
    session.on_clock(3 * SEC - 1);
    assert!(session.sends_data());
    session.on_clock(3 * SEC);
    assert_eq!(session.phase(), Phase::Closed);
    assert!(!session.sends_data());
}

#[test]
fn udp_sender_goes_on_while_the_client_is_heard() {
    let mut session = open(60, 3);
    session.on_read(&make_cmd(0x00, 0x02, 0, 512), 0);
    for i in 1..=10 {
        session.on_clock(2 * i * SEC);
        session.on_read(&[0x07], 2 * i * SEC);
        assert_eq!(session.time_left(2 * i * SEC), 3 * SEC);
    }
    assert!(session.sends_data());
}

#[test]
fn udp_sender_stops_on_session_deadline() {
    let mut session = open(3, 60);
    session.on_read(&make_cmd(0x00, 0x02, 0, 512), SEC);
    assert_eq!(session.time_left(SEC), 3 * SEC);
    session.on_read(&[0x07], 4 * SEC - 1);
    session.on_clock(4 * SEC - 1);
    assert!(session.sends_data());
    assert!(!session.expired(4 * SEC - 1));
    assert!(session.expired(4 * SEC));
    session.on_clock(4 * SEC);
    assert_eq!(session.phase(), Phase::Closed);
    assert!(!session.sends_data());
    assert!(!session.expired(4 * SEC));
}

#[test]
fn tcp_sender_stops_on_session_deadline() {
    let mut session = open(2, 60);
    session.on_read(&make_cmd(0x01, 0x02, 0, 0x8000), 0);
    assert!(session.sends_data());
    session.on_clock(2 * SEC - 1);
    assert!(session.sends_data());
    session.on_clock(2 * SEC);
    assert_eq!(session.phase(), Phase::Closed);
    assert!(!session.sends_data());
}

#[test]
fn tcp_test_goes_on_writing_after_the_client_hung_up() {
    let mut session = start(0x01, 0x02);
    session.on_hung_up();
    assert_eq!(
        session.phase(),
        Phase::Tcp {
            reading: false,
            writing: true
        }
    );
    assert!(session.sends_data());
    session.on_read(&[0u8; 10], 1);
    assert_eq!(tick(&mut session).recv_bytes, 0);
    session.on_stats_write_failed();
    assert_eq!(session.phase(), Phase::Closed);
}

#[test]
fn tcp_test_goes_on_reading_when_stats_cannot_be_written() {
    let mut session = start(0x01, 0x03);
    session.on_stats_write_failed();
    assert_eq!(
        session.phase(),
        Phase::Tcp {
            reading: true,
            writing: false
        }
    );
    assert!(!session.sends_data());
    assert!(session.on_stats_tick(60 * SEC).is_none());
    session.on_hung_up();
    assert_eq!(session.phase(), Phase::Closed);
}

#[test]
fn tcp_test_ends_when_data_cannot_be_written() {
    let mut session = start(0x01, 0x02);
    session.abort();
    assert_eq!(session.phase(), Phase::Closed);
}

#[test]
fn udp_socket_failures_end_one_side() {
    let mut session = start(0x00, 0x03);
    session.on_send_failed();
    assert!(!session.sends_data());
    session.on_datagram(100);
    assert_eq!(tick(&mut session).recv_bytes, 128);
    session.on_receive_failed();
    session.on_datagram(100);
    assert_eq!(tick(&mut session).recv_bytes, 0);
    assert_eq!(
        session.phase(),
        Phase::Udp {
            receiving: false,
            sending: false
        }
    );
}

#[test]
fn events_of_the_other_test_do_nothing() {
    let mut session = start(0x01, 0x02);
    session.on_datagram(100);
    session.on_receive_failed();
    session.on_send_failed();
    assert!(session.sends_data());
    assert_eq!(tick(&mut session).recv_bytes, 0);
}
