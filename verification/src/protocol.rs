//! The bandwidth-test protocol: message formats and what they mean.

use crate::text;
use crate::wire;
use vstd::prelude::*;
use vstd::string::*;

verus! {

pub const BTEST_PORT: u16 = 2000;

pub const BTEST_PORT_CLIENT_OFFSET: u16 = 256;

// Message types (first byte of 4-byte messages)
pub const MSG_HELLO: [u8; 4] = [0x01, 0x00, 0x00, 0x00];

pub const MSG_AUTH_OK: [u8; 4] = [0x01, 0x00, 0x00, 0x00];

/// Reserved for authentication.
pub const MSG_AUTH_FAIL: [u8; 4] = [0x00, 0x00, 0x00, 0x00];

/// Reserved for authentication.
pub const MSG_AUTH_REQUIRED_OLD: [u8; 4] = [0x02, 0x00, 0x00, 0x00];

/// Reserved for authentication.
pub const MSG_AUTH_REQUIRED_NEW: [u8; 4] = [0x03, 0x00, 0x00, 0x00];

pub const MSG_STAT: u8 = 0x07;

/// The transport that carries the test data.
#[derive(Debug, Clone, Copy, PartialEq, Eq, Structural)]
pub enum Protocol {
    Udp,
    Tcp,
}

impl Protocol {
    /// The name of the protocol.
    pub open spec fn name(self) -> Seq<char> {
        match self {
            Protocol::Udp => "UDP"@,
            Protocol::Tcp => "TCP"@,
        }
    }

    /// The protocol that a command's first byte selects.
    pub open spec fn of_byte(b: u8) -> Option<Protocol> {
        if b == 0x00 {
            Some(Protocol::Udp)
        } else if b == 0x01 {
            Some(Protocol::Tcp)
        } else {
            None
        }
    }

    pub fn to_string(&self) -> (text: String)
        ensures
            text@ == self.name(),
    {
        match self {
            Protocol::Udp => String::from_str("UDP"),
            Protocol::Tcp => String::from_str("TCP"),
        }
    }
}

/// Who sends, as the client sees it.
#[derive(Debug, Clone, Copy, PartialEq, Eq, Structural)]
pub enum Direction {
    /// The client transmits to the server (the server receives).
    Transmit,
    /// The client receives from the server (the server transmits).
    Receive,
    Both,
}

impl Direction {
    /// The name of the direction.
    pub open spec fn name(self) -> Seq<char> {
        match self {
            Direction::Transmit => "transmit"@,
            Direction::Receive => "receive"@,
            Direction::Both => "both"@,
        }
    }

    /// The direction that a command's second byte selects.
    pub open spec fn of_byte(b: u8) -> Option<Direction> {
        if b == 0x01 {
            Some(Direction::Transmit)
        } else if b == 0x02 {
            Some(Direction::Receive)
        } else if b == 0x03 {
            Some(Direction::Both)
        } else {
            None
        }
    }

    pub fn to_string(&self) -> (text: String)
        ensures
            text@ == self.name(),
    {
        match self {
            Direction::Transmit => String::from_str("transmit"),
            Direction::Receive => String::from_str("receive"),
            Direction::Both => String::from_str("both"),
        }
    }
}

/// The 16-byte command structure sent by the client after the hello handshake.
///
/// Wire format (all multi-byte integers are little-endian):
/// ```text
/// byte[0]:    protocol        0x01=TCP, 0x00=UDP
/// byte[1]:    direction       0x01=transmit, 0x02=receive, 0x03=both
/// byte[2]:    random_data     0x00=random, 0x01=zeros
/// byte[3]:    tcp_conn_count  0 means 1 connection, else N connections
/// byte[4:5]:  tx_size         uint16 LE (UDP packet size, or 0x8000 for TCP)
/// byte[6:7]:  client_buf_size uint16 LE
/// byte[8:11]: remote_tx_speed uint32 LE (0 = unlimited)
/// byte[12:15]:local_tx_speed  uint32 LE (0 = unlimited)
/// ```
#[derive(Debug, Clone, Copy)]
pub struct Command {
    pub protocol: Protocol,
    pub direction: Direction,
    pub random_data: bool,
    pub tcp_conn_count: u8,
    pub tx_size: u16,
    pub client_buf_size: u16,
    pub remote_tx_speed: u32,
    pub local_tx_speed: u32,
}

/// How a speed limit is displayed: zero is no limit.
pub open spec fn speed_name(speed: u32) -> Seq<char> {
    if speed == 0 {
        "unlimited"@
    } else {
        text::decimal(speed as nat)
    }
}

/// Appends a speed limit to `out`.
fn push_speed(out: &mut String, speed: u32)
    ensures
        final(out)@ == old(out)@ + speed_name(speed),
{
    if speed == 0 {
        out.append("unlimited");
    } else {
        text::push_decimal(out, speed);
    }
}

impl Command {
    /// What sixteen bytes mean as a command: nothing unless the first names a protocol and the
    /// second a direction; every other byte is free.
    pub open spec fn decode(bytes: Seq<u8>) -> Option<Command> {
        match (Protocol::of_byte(bytes[0]), Direction::of_byte(bytes[1])) {
            (Some(protocol), Some(direction)) => Some(
                Command {
                    protocol,
                    direction,
                    random_data: bytes[2] == 0x00,
                    tcp_conn_count: bytes[3],
                    tx_size: wire::le_u16(bytes.subrange(4, 6)) as u16,
                    client_buf_size: wire::le_u16(bytes.subrange(6, 8)) as u16,
                    remote_tx_speed: wire::le_u32(bytes.subrange(8, 12)) as u32,
                    local_tx_speed: wire::le_u32(bytes.subrange(12, 16)) as u32,
                },
            ),
            _ => None,
        }
    }

    /// The wire form of a command.
    pub open spec fn encode(self) -> Seq<u8> {
        seq![
            match self.protocol {
                Protocol::Udp => 0x00u8,
                Protocol::Tcp => 0x01u8,
            },
            match self.direction {
                Direction::Transmit => 0x01u8,
                Direction::Receive => 0x02u8,
                Direction::Both => 0x03u8,
            },
            if self.random_data {
                0x00u8
            } else {
                0x01u8
            },
            self.tcp_conn_count,
        ] + wire::le_u16_bytes(self.tx_size) + wire::le_u16_bytes(self.client_buf_size)
            + wire::le_u32_bytes(self.remote_tx_speed) + wire::le_u32_bytes(self.local_tx_speed)
    }

    /// How many connections the client asks for: a count of zero means one.
    pub open spec fn conn_count(self) -> nat {
        if self.tcp_conn_count == 0 {
            1
        } else {
            self.tcp_conn_count as nat
        }
    }

    /// Whether the server sends test data: the direction is the client's, so it does when the
    /// client receives.
    pub open spec fn wants_data(self) -> bool {
        self.direction is Receive || self.direction is Both
    }

    /// The log line for a command.
    pub open spec fn summary(self) -> Seq<char> {
        "proto="@ + self.protocol.name() + " dir="@ + self.direction.name() + " random="@ + text::flag(
            self.random_data,
        ) + " conns="@ + text::decimal(self.conn_count()) + " tx_size="@ + text::decimal(self.tx_size as nat)
            + " remote_speed="@ + speed_name(self.remote_tx_speed) + " local_speed="@ + speed_name(
            self.local_tx_speed,
        )
    }

    pub fn parse(buf: &[u8; 16]) -> (command: Option<Command>)
        ensures
            command == Command::decode(buf@),
    {
        let protocol = match buf[0] {
            0x00 => Protocol::Udp,
            0x01 => Protocol::Tcp,
            _ => return None,
        };

        let direction = match buf[1] {
            0x01 => Direction::Transmit,
            0x02 => Direction::Receive,
            0x03 => Direction::Both,
            _ => return None,
        };

        Some(
            Command {
                protocol,
                direction,
                random_data: buf[2] == 0x00,  // 0x00 = random, 0x01 = zeros
                tcp_conn_count: buf[3],
                tx_size: wire::read_u16_le(&buf[4..6]),
                client_buf_size: wire::read_u16_le(&buf[6..8]),
                remote_tx_speed: wire::read_u32_le(&buf[8..12]),
                local_tx_speed: wire::read_u32_le(&buf[12..16]),
            },
        )
    }

    pub fn effective_conn_count(&self) -> (count: u32)
        ensures
            count == self.conn_count(),
            count == if self.tcp_conn_count == 0 {
                1
            } else {
                self.tcp_conn_count as int
            },
    {
        if self.tcp_conn_count == 0 {
            1
        } else {
            self.tcp_conn_count as u32
        }
    }

    /// Whether the server is the one, or one of the two, to send test data.
    pub fn server_should_send(&self) -> (send: bool)
        ensures
            send == self.wants_data(),
            send <==> self.direction == Direction::Receive || self.direction == Direction::Both,
    {
        matches!(self.direction, Direction::Receive | Direction::Both)
    }

    pub fn to_string(&self) -> (text: String)
        ensures
            text@ == self.summary(),
    {
        let mut out = String::from_str("proto=");
        out.append(self.protocol.to_string().as_str());
        out.append(" dir=");
        out.append(self.direction.to_string().as_str());
        out.append(" random=");
        out.append(text::flag_text(self.random_data));
        out.append(" conns=");
        text::push_decimal(&mut out, self.effective_conn_count());
        out.append(" tx_size=");
        text::push_decimal(&mut out, self.tx_size as u32);
        out.append(" remote_speed=");
        push_speed(&mut out, self.remote_tx_speed);
        out.append(" local_speed=");
        push_speed(&mut out, self.local_tx_speed);
        out
    }
}

/// Statistics message sent every ~1 second on the TCP control channel.
///
/// Wire format (12 bytes):
/// ```text
/// byte[0]:    0x07 (message type)
/// byte[1:4]:  sequence number (uint32 big-endian)
/// byte[5:7]:  padding (zeros)
/// byte[8:11]: bytes received this interval (uint32 little-endian)
/// ```
#[derive(Debug, Clone, Copy)]
pub struct Stats {
    pub seq: u32,
    pub recv_bytes: u32,
}

impl Default for Stats {
    fn default() -> (stats: Stats)
        ensures
            stats.seq == 0,
            stats.recv_bytes == 0,
    {
        Stats { seq: 0, recv_bytes: 0 }
    }
}

impl Stats {
    /// What twelve bytes mean as a statistics message: nothing unless the type byte is right;
    /// the padding is not looked at.
    pub open spec fn decode(bytes: Seq<u8>) -> Option<Stats> {
        if bytes[0] == MSG_STAT {
            Some(
                Stats {
                    seq: wire::be_u32(bytes.subrange(1, 5)) as u32,
                    recv_bytes: wire::le_u32(bytes.subrange(8, 12)) as u32,
                },
            )
        } else {
            None
        }
    }

    /// The wire form of a statistics message.
    pub open spec fn encode(self) -> Seq<u8> {
        seq![MSG_STAT] + wire::be_u32_bytes(self.seq) + seq![0u8, 0u8, 0u8] + wire::le_u32_bytes(
            self.recv_bytes,
        )
    }

    pub fn parse(buf: &[u8; 12]) -> (stats: Option<Stats>)
        ensures
            stats == Stats::decode(buf@),
    {
        if buf[0] != MSG_STAT {
            return None;
        }
        Some(Stats { seq: wire::read_u32_be(&buf[1..5]), recv_bytes: wire::read_u32_le(&buf[8..12]) })
    }

    pub fn serialize(&self) -> (buf: [u8; 12])
        ensures
            buf@ == self.encode(),
    {
        let mut seq = [0u8;4];
        wire::write_u32_be(&mut seq, self.seq);
        let mut count = [0u8;4];
        wire::write_u32_le(&mut count, self.recv_bytes);
        // bytes 5-7 are padding (zeros)
        let buf: [u8; 12] = [
            MSG_STAT,
            seq[0],
            seq[1],
            seq[2],
            seq[3],
            0,
            0,
            0,
            count[0],
            count[1],
            count[2],
            count[3],
        ];
        assert(buf@ =~= self.encode());
        buf
    }
}

/// Multi-connection confirm message.
///
/// When the client asks for more than one connection, the server responds with a 4-byte confirm
/// that includes a session token the secondary connections use to identify themselves.
#[derive(Debug, Clone, Copy)]
pub struct ConfirmMulti {
    pub token: [u8; 4],
}

impl ConfirmMulti {
    /// The confirm message for a session: `01:xx:yy:00` with the identifier in the middle.
    pub open spec fn for_session(session_id: u16) -> Seq<u8> {
        seq![0x01u8] + wire::be_u16_bytes(session_id) + seq![0x00u8]
    }

    /// The confirm message that answers a command.
    pub open spec fn reply(command: Command) -> Seq<u8> {
        if command.conn_count() > 1 {
            ConfirmMulti::for_session(1)
        } else {
            MSG_AUTH_OK@
        }
    }

    /// Build confirm for multi-connection mode.
    /// Format: 01:xx:yy:00 where xx:yy is a session identifier.
    pub fn new(session_id: u16) -> (confirm: ConfirmMulti)
        ensures
            confirm.token@ == ConfirmMulti::for_session(session_id),
    {
        let mut token: [u8; 4] = [0x01, 0x00, 0x00, 0x00];
        assert(session_id >> 8 == session_id / 0x100) by (bit_vector);
        assert(session_id & 0xFF == session_id % 0x100) by (bit_vector);
        token[1] = (session_id >> 8) as u8;
        token[2] = (session_id & 0xFF) as u8;
        assert(token@ =~= ConfirmMulti::for_session(session_id));
        ConfirmMulti { token }
    }

    /// Build confirm for single-connection mode.
    pub fn single() -> (confirm: ConfirmMulti)
        ensures
            confirm.token@ == MSG_AUTH_OK@,
    {
        ConfirmMulti { token: MSG_AUTH_OK }
    }

    /// The confirm message for a command: one with a session token if the client is about to
    /// open further connections. All sessions share one identifier.
    pub fn for_command(command: &Command) -> (confirm: ConfirmMulti)
        ensures
            confirm.token@ == ConfirmMulti::reply(*command),
            confirm.token@ == if command.tcp_conn_count > 1 {
                seq![0x01u8, 0x00u8, 0x01u8, 0x00u8]
            } else {
                seq![0x01u8, 0x00u8, 0x00u8, 0x00u8]
            },
    {
        proof {
            law_confirm_by_count(*command);
        }
        if command.effective_conn_count() > 1 {
            ConfirmMulti::new(1)
        } else {
            ConfirmMulti::single()
        }
    }
}

/// A statistics message survives the wire: parsing what was serialized gives it back.
pub proof fn law_stats_roundtrip(stats: Stats)
    ensures
        stats.encode().len() == 12,
        Stats::decode(stats.encode()) == Some(stats),
{
    let bytes = stats.encode();
    wire::law_be_u32_roundtrip(stats.seq);
    wire::law_le_u32_roundtrip(stats.recv_bytes);
    assert(bytes.subrange(1, 5) =~= wire::be_u32_bytes(stats.seq));
    assert(bytes.subrange(8, 12) =~= wire::le_u32_bytes(stats.recv_bytes));
}

/// Twelve bytes with the right type and zero padding are the wire form of what they mean, so no
/// two such messages mean the same.
pub proof fn law_stats_canonical(bytes: Seq<u8>)
    requires
        bytes.len() == 12,
        bytes[0] == MSG_STAT,
        bytes[5] == 0,
        bytes[6] == 0,
        bytes[7] == 0,
    ensures
        Stats::decode(bytes) matches Some(stats) && stats.encode() == bytes,
{
    let stats = Stats::decode(bytes).unwrap();
    wire::law_be_u32_bytes_roundtrip(bytes.subrange(1, 5));
    wire::law_le_u32_bytes_roundtrip(bytes.subrange(8, 12));
    assert(bytes =~= seq![MSG_STAT] + bytes.subrange(1, 5) + seq![0u8, 0u8, 0u8] + bytes.subrange(
        8,
        12,
    ));
}

/// Every command can be asked for: its sixteen bytes are understood as that command.
pub proof fn law_command_roundtrip(command: Command)
    ensures
        command.encode().len() == 16,
        Command::decode(command.encode()) == Some(command),
{
    let bytes = command.encode();
    wire::law_le_u16_roundtrip(command.tx_size);
    wire::law_le_u16_roundtrip(command.client_buf_size);
    wire::law_le_u32_roundtrip(command.remote_tx_speed);
    wire::law_le_u32_roundtrip(command.local_tx_speed);
    assert(bytes.subrange(4, 6) =~= wire::le_u16_bytes(command.tx_size));
    assert(bytes.subrange(6, 8) =~= wire::le_u16_bytes(command.client_buf_size));
    assert(bytes.subrange(8, 12) =~= wire::le_u32_bytes(command.remote_tx_speed));
    assert(bytes.subrange(12, 16) =~= wire::le_u32_bytes(command.local_tx_speed));
}

/// Sixteen bytes that mean a command are that command's wire form, up to the byte that asks for
/// random data, of which only zero or not zero counts.
pub proof fn law_command_canonical(bytes: Seq<u8>)
    requires
        bytes.len() == 16,
        Command::decode(bytes) is Some,
    ensures
        Command::decode(bytes).unwrap().encode() == bytes.update(
            2,
            if bytes[2] == 0 {
                0u8
            } else {
                1u8
            },
        ),
{
    let command = Command::decode(bytes).unwrap();
    wire::law_le_u16_bytes_roundtrip(bytes.subrange(4, 6));
    wire::law_le_u16_bytes_roundtrip(bytes.subrange(6, 8));
    wire::law_le_u32_bytes_roundtrip(bytes.subrange(8, 12));
    wire::law_le_u32_bytes_roundtrip(bytes.subrange(12, 16));
    assert(command.encode() =~= command.encode().take(4) + bytes.subrange(4, 6) + bytes.subrange(
        6,
        8,
    ) + bytes.subrange(8, 12) + bytes.subrange(12, 16));
    assert(command.encode() =~= bytes.update(
        2,
        if bytes[2] == 0 {
            0u8
        } else {
            1u8
        },
    ));
}

/// The session identifier can be read back from a confirm message, so different sessions get
/// different tokens.
pub proof fn law_confirm_identifies_session(session_id: u16)
    ensures
        ConfirmMulti::for_session(session_id).len() == 4,
        wire::be_u16(ConfirmMulti::for_session(session_id).subrange(1, 3)) == session_id,
{
    assert(ConfirmMulti::for_session(session_id).subrange(1, 3) =~= wire::be_u16_bytes(session_id));
    wire::law_be_u16_roundtrip(session_id);
}

/// The plain confirm message is the one for session zero.
proof fn lemma_confirm_single_is_session_zero()
    ensures
        ConfirmMulti::for_session(0) == MSG_AUTH_OK@,
{
    assert(ConfirmMulti::for_session(0) =~= MSG_AUTH_OK@);
}

/// A confirm message always starts with `01`, and carries a session token exactly if the client
/// asked for several connections.
pub proof fn law_confirm_token_iff_multi(command: Command)
    ensures
        ConfirmMulti::reply(command).len() == 4,
        ConfirmMulti::reply(command)[0] == 0x01,
        wire::be_u16(ConfirmMulti::reply(command).subrange(1, 3)) != 0 <==> command.conn_count()
            > 1,
{
    law_confirm_identifies_session(1);
    law_confirm_identifies_session(0);
    lemma_confirm_single_is_session_zero();
}

/// Sixteen bytes are a command exactly if the first is 0 or 1 and the second 1, 2 or 3; whatever the
/// others are, each has its place in the command.
pub proof fn law_command_bytes(bytes: Seq<u8>)
    requires
        bytes.len() == 16,
    ensures
        Command::decode(bytes) is Some <==> bytes[0] <= 1 && 1 <= bytes[1] <= 3,
        Command::decode(bytes) matches Some(command) ==> {
            &&& command.protocol == Protocol::Udp <==> bytes[0] == 0
            &&& command.protocol == Protocol::Tcp <==> bytes[0] == 1
            &&& command.direction == Direction::Transmit <==> bytes[1] == 1
            &&& command.direction == Direction::Receive <==> bytes[1] == 2
            &&& command.direction == Direction::Both <==> bytes[1] == 3
            &&& command.random_data <==> bytes[2] == 0
            &&& command.tcp_conn_count == bytes[3]
            &&& command.tx_size == bytes[4] + 0x100 * bytes[5]
            &&& command.client_buf_size == bytes[6] + 0x100 * bytes[7]
            &&& command.remote_tx_speed == bytes[8] + 0x100 * bytes[9] + 0x1_0000 * bytes[10]
                + 0x100_0000 * bytes[11]
            &&& command.local_tx_speed == bytes[12] + 0x100 * bytes[13] + 0x1_0000 * bytes[14]
                + 0x100_0000 * bytes[15]
        },
{
}

/// Whether the server sends depends on the direction alone.
pub proof fn law_direction_decides(command: Command)
    ensures
        command.wants_data() <==> command.direction == Direction::Receive || command.direction
            == Direction::Both,
{
}

/// The connection count depends on the command's field alone, where zero stands for one; and so
/// does the confirm message, which carries session one exactly if the field exceeds one.
pub proof fn law_confirm_by_count(command: Command)
    ensures
        command.conn_count() >= 1,
        command.tcp_conn_count >= 1 ==> command.conn_count() == command.tcp_conn_count,
        command.tcp_conn_count == 0 ==> command.conn_count() == 1,
        command.tcp_conn_count > 1 ==> ConfirmMulti::reply(command) == seq![
            0x01u8,
            0x00u8,
            0x01u8,
            0x00u8,
        ],
        command.tcp_conn_count <= 1 ==> ConfirmMulti::reply(command) == seq![
            0x01u8,
            0x00u8,
            0x00u8,
            0x00u8,
        ],
{
    assert(ConfirmMulti::for_session(1) =~= seq![0x01u8, 0x00u8, 0x01u8, 0x00u8]);
    assert(MSG_AUTH_OK@ =~= seq![0x01u8, 0x00u8, 0x00u8, 0x00u8]);
}

/// A confirm message is `01`, the session identifier with its high byte first, and `00`.
pub proof fn law_confirm_bytes(session_id: u16)
    ensures
        ConfirmMulti::for_session(session_id).len() == 4,
        ConfirmMulti::for_session(session_id)[0] == 0x01,
        0x100 * ConfirmMulti::for_session(session_id)[1] + ConfirmMulti::for_session(session_id)[2]
            == session_id,
        ConfirmMulti::for_session(session_id)[3] == 0x00,
{
}

/// A statistics message has its type, its number with the high byte first, three zeros and its
/// count with the low byte first.
pub proof fn law_stats_bytes(stats: Stats)
    ensures
        ({
            let bytes = stats.encode();
            &&& bytes.len() == 12
            &&& bytes[0] == 0x07
            &&& 0x100_0000 * bytes[1] + 0x1_0000 * bytes[2] + 0x100 * bytes[3] + bytes[4]
                == stats.seq
            &&& bytes[5] == 0 && bytes[6] == 0 && bytes[7] == 0
            &&& bytes[8] + 0x100 * bytes[9] + 0x1_0000 * bytes[10] + 0x100_0000 * bytes[11]
                == stats.recv_bytes
        }),
{
    wire::law_be_u32_roundtrip(stats.seq);
    wire::law_le_u32_roundtrip(stats.recv_bytes);
    let bytes = stats.encode();
    assert(bytes.subrange(1, 5) =~= wire::be_u32_bytes(stats.seq));
    assert(bytes.subrange(8, 12) =~= wire::le_u32_bytes(stats.recv_bytes));
    assert(wire::be_u32(bytes.subrange(1, 5)) == stats.seq);
    assert(wire::le_u32(bytes.subrange(8, 12)) == stats.recv_bytes);
}

/// Twelve bytes are a statistics message exactly if they start with `07`; the number and the count
/// are read from their places.
pub proof fn law_stats_fields(bytes: Seq<u8>)
    requires
        bytes.len() == 12,
    ensures
        Stats::decode(bytes) is Some <==> bytes[0] == 0x07,
        Stats::decode(bytes) matches Some(stats) ==> {
            &&& stats.seq == 0x100_0000 * bytes[1] + 0x1_0000 * bytes[2] + 0x100 * bytes[3]
                + bytes[4]
            &&& stats.recv_bytes == bytes[8] + 0x100 * bytes[9] + 0x1_0000 * bytes[10] + 0x100_0000
                * bytes[11]
        },
{
}

/// The log line for a command names every field but the client's buffer size, whatever the others
/// are; a speed of zero is no limit.
pub proof fn law_summary_names_fields(command: Command)
    ensures
        command.summary() == "proto="@ + (if command.protocol == Protocol::Udp {
            "UDP"@
        } else {
            "TCP"@
        }) + " dir="@ + (if command.direction == Direction::Transmit {
            "transmit"@
        } else if command.direction == Direction::Receive {
            "receive"@
        } else {
            "both"@
        }) + " random="@ + (if command.random_data {
            "true"@
        } else {
            "false"@
        }) + " conns="@ + text::decimal(
            if command.tcp_conn_count == 0 {
                1
            } else {
                command.tcp_conn_count as nat
            },
        ) + " tx_size="@ + text::decimal(command.tx_size as nat) + " remote_speed="@ + (
        if command.remote_tx_speed == 0 {
            "unlimited"@
        } else {
            text::decimal(command.remote_tx_speed as nat)
        }) + " local_speed="@ + (if command.local_tx_speed == 0 {
            "unlimited"@
        } else {
            text::decimal(command.local_tx_speed as nat)
        }),
{
}

} // verus!
