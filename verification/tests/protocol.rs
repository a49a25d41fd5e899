use btest_rs::protocol::{
    Command, ConfirmMulti, Direction, Protocol, Stats, BTEST_PORT, BTEST_PORT_CLIENT_OFFSET,
    MSG_AUTH_FAIL, MSG_AUTH_OK, MSG_HELLO, MSG_STAT,
};
use byteorder::{ByteOrder, LittleEndian};

// --- Command::parse ---

fn make_cmd_buf(
    proto: u8,
    dir: u8,
    random: u8,
    conns: u8,
    tx_size: u16,
    buf_size: u16,
    remote_speed: u32,
    local_speed: u32,
) -> [u8; 16] {
    let mut buf = [0u8; 16];
    buf[0] = proto;
    buf[1] = dir;
    buf[2] = random;
    buf[3] = conns;
    LittleEndian::write_u16(&mut buf[4..6], tx_size);
    LittleEndian::write_u16(&mut buf[6..8], buf_size);
    LittleEndian::write_u32(&mut buf[8..12], remote_speed);
    LittleEndian::write_u32(&mut buf[12..16], local_speed);
    buf
}

#[test]
fn parse_udp_receive_command() {
    let buf = make_cmd_buf(0x00, 0x02, 0x00, 0, 1500, 512, 0, 0);
    let cmd = Command::parse(&buf).unwrap();
    assert_eq!(cmd.protocol, Protocol::Udp);
    assert_eq!(cmd.direction, Direction::Receive);
    assert!(cmd.random_data);
    assert_eq!(cmd.tcp_conn_count, 0);
    assert_eq!(cmd.tx_size, 1500);
    assert_eq!(cmd.client_buf_size, 512);
    assert_eq!(cmd.remote_tx_speed, 0);
    assert_eq!(cmd.local_tx_speed, 0);
}

#[test]
fn parse_tcp_transmit_command() {
    let buf = make_cmd_buf(0x01, 0x01, 0x01, 20, 0x8000, 256, 1_000_000, 500_000);
    let cmd = Command::parse(&buf).unwrap();
    assert_eq!(cmd.protocol, Protocol::Tcp);
    assert_eq!(cmd.direction, Direction::Transmit);
    assert!(!cmd.random_data); // 0x01 = zeros
    assert_eq!(cmd.tcp_conn_count, 20);
    assert_eq!(cmd.tx_size, 0x8000);
    assert_eq!(cmd.remote_tx_speed, 1_000_000);
    assert_eq!(cmd.local_tx_speed, 500_000);
}

#[test]
fn parse_both_direction() {
    let buf = make_cmd_buf(0x00, 0x03, 0x00, 0, 1400, 0, 0, 0);
    let cmd = Command::parse(&buf).unwrap();
    assert_eq!(cmd.direction, Direction::Both);
}

#[test]
fn parse_invalid_protocol() {
    let buf = make_cmd_buf(0x05, 0x01, 0x00, 0, 0, 0, 0, 0);
    assert!(Command::parse(&buf).is_none());
}

#[test]
fn parse_invalid_direction() {
    let buf = make_cmd_buf(0x00, 0x00, 0x00, 0, 0, 0, 0, 0);
    assert!(Command::parse(&buf).is_none());

    let buf = make_cmd_buf(0x00, 0x04, 0x00, 0, 0, 0, 0, 0);
    assert!(Command::parse(&buf).is_none());
}

#[test]
fn parse_accepts_exactly_the_known_selectors() {
    for proto in 0..=255u8 {
        for dir in 0..=255u8 {
            let buf = make_cmd_buf(proto, dir, 0x00, 0, 0, 0, 0, 0);
            let known = proto <= 1 && (1..=3).contains(&dir);
            assert_eq!(Command::parse(&buf).is_some(), known);
        }
    }
}

#[test]
fn parse_reads_every_byte_in_its_place() {
    let buf = [
        0x01, 0x02, 0x02, 0x03, 0x04, 0x05, 0x06, 0x07, 0x08, 0x09, 0x0A, 0x0B, 0x0C, 0x0D, 0x0E,
        0x0F,
    ];
    let cmd = Command::parse(&buf).unwrap();
    assert!(!cmd.random_data); // only zero asks for random data
    assert_eq!(cmd.tcp_conn_count, 3);
    assert_eq!(cmd.tx_size, 0x0504);
    assert_eq!(cmd.client_buf_size, 0x0706);
    assert_eq!(cmd.remote_tx_speed, 0x0B0A0908);
    assert_eq!(cmd.local_tx_speed, 0x0F0E0D0C);
}

// --- Command::effective_conn_count ---

#[test]
fn effective_conn_count_zero_means_one() {
    let buf = make_cmd_buf(0x01, 0x01, 0x00, 0, 0x8000, 0, 0, 0);
    let cmd = Command::parse(&buf).unwrap();
    assert_eq!(cmd.effective_conn_count(), 1);
}

#[test]
fn effective_conn_count_nonzero() {
    let buf = make_cmd_buf(0x01, 0x01, 0x00, 20, 0x8000, 0, 0, 0);
    let cmd = Command::parse(&buf).unwrap();
    assert_eq!(cmd.effective_conn_count(), 20);
}

// --- Command as text ---

#[test]
fn command_display_unlimited() {
    let buf = make_cmd_buf(0x00, 0x02, 0x00, 0, 1500, 0, 0, 0);
    let cmd = Command::parse(&buf).unwrap();
    let s = cmd.to_string();
    assert!(s.contains("proto=UDP"));
    assert!(s.contains("dir=receive"));
    assert!(s.contains("remote_speed=unlimited"));
    assert!(s.contains("local_speed=unlimited"));
}

#[test]
fn command_display_with_speeds() {
    let buf = make_cmd_buf(0x01, 0x01, 0x01, 5, 0x8000, 0, 100_000, 200_000);
    let cmd = Command::parse(&buf).unwrap();
    let s = cmd.to_string();
    assert!(s.contains("proto=TCP"));
    assert!(s.contains("dir=transmit"));
    assert!(s.contains("conns=5"));
    assert!(s.contains("remote_speed=100000"));
    assert!(s.contains("local_speed=200000"));
}

#[test]
fn command_display_whole_line() {
    let buf = make_cmd_buf(0x00, 0x03, 0x00, 0, 0, 0, u32::MAX, 10);
    let cmd = Command::parse(&buf).unwrap();
    assert_eq!(
        cmd.to_string(),
        "proto=UDP dir=both random=true conns=1 tx_size=0 remote_speed=4294967295 local_speed=10"
    );
    let buf = make_cmd_buf(0x01, 0x02, 0x01, 255, 65535, 0, 0, 9);
    let cmd = Command::parse(&buf).unwrap();
    assert_eq!(
        cmd.to_string(),
        "proto=TCP dir=receive random=false conns=255 tx_size=65535 remote_speed=unlimited local_speed=9"
    );
}

// --- Protocol / Direction as text ---

#[test]
fn protocol_display() {
    assert_eq!(Protocol::Udp.to_string(), "UDP");
    assert_eq!(Protocol::Tcp.to_string(), "TCP");
}

#[test]
fn direction_display() {
    assert_eq!(Direction::Transmit.to_string(), "transmit");
    assert_eq!(Direction::Receive.to_string(), "receive");
    assert_eq!(Direction::Both.to_string(), "both");
}

#[test]
fn server_sends_when_the_client_receives() {
    for (dir, sends) in [(0x01, false), (0x02, true), (0x03, true)] {
        let buf = make_cmd_buf(0x01, dir, 0x00, 0, 0x8000, 0, 0, 0);
        assert_eq!(Command::parse(&buf).unwrap().server_should_send(), sends);
    }
}

// --- Stats parse/serialize roundtrip ---

#[test]
fn stats_roundtrip() {
    let original = Stats {
        seq: 42,
        recv_bytes: 1_048_576,
    };
    let wire = original.serialize();
    let parsed = Stats::parse(&wire).unwrap();
    assert_eq!(parsed.seq, 42);
    assert_eq!(parsed.recv_bytes, 1_048_576);
}

#[test]
fn stats_serialize_format() {
    let stat = Stats {
        seq: 1,
        recv_bytes: 256,
    };
    let buf = stat.serialize();
    assert_eq!(buf[0], MSG_STAT);
    // seq=1 big-endian in bytes 1..5
    assert_eq!(&buf[1..5], &[0, 0, 0, 1]);
    // padding zeros
    assert_eq!(&buf[5..8], &[0, 0, 0]);
    // recv_bytes=256 little-endian in bytes 8..12
    assert_eq!(&buf[8..12], &[0, 1, 0, 0]);
}

#[test]
fn stats_serialize_all_bytes() {
    let stat = Stats {
        seq: 0x01020304,
        recv_bytes: 0x05060708,
    };
    assert_eq!(
        stat.serialize(),
        [0x07, 0x01, 0x02, 0x03, 0x04, 0, 0, 0, 0x08, 0x07, 0x06, 0x05]
    );
}

#[test]
fn stats_parse_all_bytes() {
    let buf = [
        0x07, 0x01, 0x02, 0x03, 0x04, 0xFF, 0xFE, 0xFD, 0x08, 0x07, 0x06, 0x05,
    ];
    let stats = Stats::parse(&buf).unwrap();
    assert_eq!(stats.seq, 0x01020304);
    assert_eq!(stats.recv_bytes, 0x05060708);
}

#[test]
fn stats_canonical_bytes_come_back() {
    let buf = [0x07, 0x80, 0, 0xFF, 0x01, 0, 0, 0, 0xFF, 0, 0x80, 0x7F];
    assert_eq!(Stats::parse(&buf).unwrap().serialize(), buf);
}

#[test]
fn stats_parse_wrong_type_byte() {
    let mut buf = [0u8; 12];
    buf[0] = 0x01; // not MSG_STAT
    assert!(Stats::parse(&buf).is_none());
}

#[test]
fn stats_roundtrip_large_values() {
    let original = Stats {
        seq: u32::MAX,
        recv_bytes: u32::MAX,
    };
    let wire = original.serialize();
    let parsed = Stats::parse(&wire).unwrap();
    assert_eq!(parsed.seq, u32::MAX);
    assert_eq!(parsed.recv_bytes, u32::MAX);
}

#[test]
fn stats_roundtrip_zero() {
    let original = Stats {
        seq: 0,
        recv_bytes: 0,
    };
    let wire = original.serialize();
    let parsed = Stats::parse(&wire).unwrap();
    assert_eq!(parsed.seq, 0);
    assert_eq!(parsed.recv_bytes, 0);
}

#[test]
fn stats_default_is_zero() {
    let stats = Stats::default();
    assert_eq!(stats.seq, 0);
    assert_eq!(stats.recv_bytes, 0);
}

// --- ConfirmMulti ---

#[test]
fn confirm_single() {
    let c = ConfirmMulti::single();
    assert_eq!(c.token, MSG_AUTH_OK);
}

#[test]
fn confirm_multi_session_id() {
    let c = ConfirmMulti::new(0x0102);
    assert_eq!(c.token[0], 0x01);
    assert_eq!(c.token[1], 0x01); // high byte of 0x0102
    assert_eq!(c.token[2], 0x02); // low byte of 0x0102
    assert_eq!(c.token[3], 0x00);
}

#[test]
fn confirm_multi_session_zero() {
    let c = ConfirmMulti::new(0);
    assert_eq!(c.token, [0x01, 0x00, 0x00, 0x00]);
}

#[test]
fn confirm_has_a_token_for_several_connections() {
    for (conns, token) in [
        (0, [0x01, 0x00, 0x00, 0x00]),
        (1, [0x01, 0x00, 0x00, 0x00]),
        (2, [0x01, 0x00, 0x01, 0x00]),
        (20, [0x01, 0x00, 0x01, 0x00]),
        (255, [0x01, 0x00, 0x01, 0x00]),
    ] {
        let buf = make_cmd_buf(0x01, 0x02, 0x00, conns, 0x8000, 0, 0, 0);
        let cmd = Command::parse(&buf).unwrap();
        assert_eq!(ConfirmMulti::for_command(&cmd).token, token);
    }
}

// --- Constants ---

#[test]
fn constants_sanity() {
    assert_eq!(BTEST_PORT, 2000);
    assert_eq!(BTEST_PORT_CLIENT_OFFSET, 256);
    assert_eq!(MSG_HELLO, MSG_AUTH_OK);
    assert_ne!(MSG_AUTH_OK, MSG_AUTH_FAIL);
}
