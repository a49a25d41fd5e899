//! One client connection: the handshake and the test that the client asks for.
//!
//! A `Session` decides; its owner does the reading, writing and waiting, tells the session what
//! came of it and does what the session asks for.

use crate::model::{Phase, Reply, SessionState, COMMAND_LEN, STATS_INTERVAL, STATS_LEN, UDP_HEADER_LEN};
use crate::protocol::{Command, ConfirmMulti, Protocol, Stats, MSG_HELLO};
use crate::server::ServerConfig;
use vstd::prelude::*;

verus! {

/// A client connection.
pub struct Session {
    phase: Phase,
    buf: [u8; 16],
    filled: usize,
    command: Option<Command>,
    last_heard: u128,
    started: u128,
    recv_bytes: u64,
    stats_seq: u32,
    max_test_duration: u128,
    control_timeout: u128,
}

impl View for Session {
    type V = SessionState;

    closed spec fn view(&self) -> SessionState {
        SessionState {
            phase: self.phase,
            received: self.buf@.take(self.filled as int),
            command: self.command,
            last_heard: self.last_heard as int,
            started: self.started as int,
            counted: self.recv_bytes as int,
            stats_seq: self.stats_seq as int,
            max_test_duration: self.max_test_duration as int,
            control_timeout: self.control_timeout as int,
        }
    }
}

impl Session {
    #[verifier::type_invariant]
    spec fn valid(self) -> bool {
        &&& self.filled <= COMMAND_LEN
        &&& self@.well_formed()
    }

    /// A session whose client has just connected, and the message that greets the client.
    pub fn open(config: &ServerConfig, now: u128) -> (opened: (Session, [u8; 4]))
        ensures
            opened.0@ == SessionState::opened(
                config.max_test_duration as int,
                config.control_timeout as int,
                now as int,
            ),
            opened.0@.phase == Phase::Handshake,
            opened.0@.received.len() == 0,
            opened.0@.last_heard == now,
            opened.0@.max_test_duration == config.max_test_duration,
            opened.0@.control_timeout == config.control_timeout,
            opened.1@ == MSG_HELLO@,
            opened.1@ == seq![0x01u8, 0x00u8, 0x00u8, 0x00u8],
    {
        let buf = [0u8;16];
        assert(buf@.take(0) =~= Seq::<u8>::empty());
        let session = Session {
            phase: Phase::Handshake,
            buf,
            filled: 0,
            command: None,
            last_heard: now,
            started: now,
            recv_bytes: 0,
            stats_seq: 0,
            max_test_duration: config.max_test_duration,
            control_timeout: config.control_timeout,
        };
        assert(MSG_HELLO@ =~= seq![0x01u8, 0x00u8, 0x00u8, 0x00u8]);
        (session, MSG_HELLO)
    }

    /// What the session is at.
    pub fn phase(&self) -> (phase: Phase)
        ensures
            phase == self@.phase,
    {
        self.phase
    }

    /// How many bytes of the command are still to come.
    pub fn command_bytes_wanted(&self) -> (count: usize)
        ensures
            count == COMMAND_LEN - self@.received.len(),
    {
        proof {
            use_type_invariant(self);
        }
        COMMAND_LEN - self.filled
    }

    /// Number of the last statistics message.
    pub fn stats_seq(&self) -> (seq: u32)
        ensures
            seq == self@.stats_seq,
    {
        self.stats_seq
    }

    /// Whether test data is to be sent now.
    pub fn sends_data(&self) -> (sends: bool)
        ensures
            sends == self@.sends_data(),
    {
        proof {
            use_type_invariant(self);
        }
        match self.phase {
            Phase::Tcp { writing, .. } => match &self.command {
                Some(command) => writing && command.server_should_send(),
                None => false,
            },
            Phase::Udp { sending, .. } => sending,
            _ => false,
        }
    }

    /// Takes note of bytes that arrived over TCP. In the handshake no more of them may be read
    /// than are wanted.
    pub fn on_read(&mut self, chunk: &[u8], now: u128) -> (reply: Reply)
        requires
            old(self)@.phase is Handshake ==> old(self)@.received.len() + chunk@.len()
                <= COMMAND_LEN,
        ensures
            final(self)@ == old(self)@.after_read(chunk@, now as int),
            old(self)@.answers(chunk@, now as int, reply),
    {
        proof {
            use_type_invariant(&*self);
        }
        if chunk.len() == 0 {
            self.on_hung_up();
            return Reply::Nothing;
        }
        match self.phase {
            Phase::Handshake => self.on_command_bytes(chunk, now),
            Phase::Tcp { reading, .. } => {
                if reading {
                    *self =
                    Session {
                        recv_bytes: self.recv_bytes.wrapping_add(chunk.len() as u64),
                        last_heard: now,
                        ..*self
                    };
                }
                Reply::Nothing
            },
            Phase::Udp { .. } => {
                *self = Session { last_heard: now, ..*self };
                match remote_stats(chunk) {
                    Some(stats) => Reply::RemoteStats { stats },
                    None => Reply::Nothing,
                }
            },
            Phase::Closed => Reply::Nothing,
        }
    }

    /// Takes note of bytes of the command.
    fn on_command_bytes(&mut self, chunk: &[u8], now: u128) -> (reply: Reply)
        requires
            old(self)@.phase is Handshake,
            0 < chunk@.len(),
            old(self)@.received.len() + chunk@.len() <= COMMAND_LEN,
        ensures
            final(self)@ == old(self)@.after_read(chunk@, now as int),
            old(self)@.answers(chunk@, now as int, reply),
    {
        proof {
            use_type_invariant(&*self);
        }
        let mut buf = self.buf;
        let start = self.filled;
        for i in 0..chunk.len()
            invariant
                start + chunk@.len() <= 16,
                forall|j: int| 0 <= j < start ==> buf@[j] == self.buf@[j],
                forall|j: int| 0 <= j < i ==> buf@[start + j] == chunk@[j],
        {
            buf[start + i] = chunk[i];
        }
        let filled = start + chunk.len();
        assert(buf@.take(filled as int) =~= self.buf@.take(start as int) + chunk@);
        if filled < COMMAND_LEN {
            *self = Session { buf, filled, last_heard: now, ..*self };
            return Reply::Nothing;
        }
        assert(buf@.take(16) =~= buf@);
        match Command::parse(&buf) {
            Some(command) => {
                let phase = match command.protocol {
                    Protocol::Tcp => Phase::Tcp { reading: true, writing: true },
                    Protocol::Udp => Phase::Udp {
                        receiving: true,
                        sending: command.server_should_send(),
                    },
                };
                *self =
                Session {
                    phase,
                    buf,
                    filled,
                    command: Some(command),
                    last_heard: now,
                    started: now,
                    ..*self
                };
                Reply::Start { command, confirm: ConfirmMulti::for_command(&command) }
            },
            None => {
                *self = Session { phase: Phase::Closed, buf, filled, last_heard: now, ..*self };
                Reply::Nothing
            },
        }
    }

    /// Takes note that the client hung up or that reading from it failed.
    pub fn on_hung_up(&mut self)
        ensures
            final(self)@ == old(self)@.after_hung_up(),
    {
        proof {
            use_type_invariant(&*self);
        }
        match self.phase {
            Phase::Tcp { writing: true, .. } => {
                *self =
                Session { phase: Phase::Tcp { reading: false, writing: true }, ..*self };
            },
            _ => {
                *self = Session { phase: Phase::Closed, ..*self };
            },
        }
    }

    /// Whether a statistics message is due.
    pub fn stats_due(&self, now: u128) -> (due: bool)
        ensures
            due == self@.stats_due(now as int),
    {
        let reports = match self.phase {
            Phase::Tcp { writing, .. } => writing,
            Phase::Udp { .. } => true,
            _ => false,
        };
        reports && now.saturating_sub(self.started) >= (self.stats_seq as u128 + 1) * STATS_INTERVAL
    }

    /// How long until the next statistics message is due.
    pub fn stats_wait(&self, now: u128) -> (wait: u128)
        ensures
            wait == self@.stats_wait(now as int),
    {
        ((self.stats_seq as u128 + 1) * STATS_INTERVAL).saturating_sub(
            now.saturating_sub(self.started),
        )
    }

    /// Makes the statistics message that is due, if one is.
    pub fn on_stats_tick(&mut self, now: u128) -> (message: Option<[u8; 12]>)
        requires
            old(self)@.stats_due(now as int) ==> old(self)@.stats_seq < u32::MAX,
        ensures
            final(self)@ == old(self)@.after_stats_tick(now as int),
            message is Some <==> old(self)@.stats_due(now as int),
            message matches Some(bytes) ==> bytes@ == old(self)@.next_stats().encode(),
    {
        proof {
            use_type_invariant(&*self);
        }
        if !self.stats_due(now) {
            return None;
        }
        let seq: u32 = self.stats_seq + 1;
        let received: u64 = self.recv_bytes;
        assert(received as u32 == received % 0x1_0000_0000) by (bit_vector);
        let stats = Stats { seq, recv_bytes: received as u32 };
        *self = Session { stats_seq: seq, recv_bytes: 0, ..*self };
        Some(stats.serialize())
    }

    /// Takes note that statistics could not be written to the client.
    pub fn on_stats_write_failed(&mut self)
        ensures
            final(self)@ == old(self)@.after_stats_write_failed(),
    {
        proof {
            use_type_invariant(&*self);
        }
        match self.phase {
            Phase::Tcp { reading: true, .. } => {
                *self =
                Session { phase: Phase::Tcp { reading: true, writing: false }, ..*self };
            },
            Phase::Handshake => {},
            _ => {
                *self = Session { phase: Phase::Closed, ..*self };
            },
        }
    }

    /// Takes note of a datagram.
    pub fn on_datagram(&mut self, len: usize)
        ensures
            final(self)@ == old(self)@.after_datagram(len as nat),
    {
        proof {
            use_type_invariant(&*self);
        }
        if let Phase::Udp { receiving: true, .. } = self.phase {
            let counted = (len as u64).wrapping_add(UDP_HEADER_LEN as u64);
            *self = Session { recv_bytes: self.recv_bytes.wrapping_add(counted), ..*self };
        }
    }

    /// Takes note that datagrams can no longer be received.
    pub fn on_receive_failed(&mut self)
        ensures
            final(self)@ == old(self)@.after_receive_failed(),
    {
        proof {
            use_type_invariant(&*self);
        }
        if let Phase::Udp { sending, .. } = self.phase {
            *self = Session { phase: Phase::Udp { receiving: false, sending }, ..*self };
        }
    }

    /// Takes note that datagrams can no longer be sent.
    pub fn on_send_failed(&mut self)
        ensures
            final(self)@ == old(self)@.after_send_failed(),
    {
        proof {
            use_type_invariant(&*self);
        }
        if let Phase::Udp { receiving, .. } = self.phase {
            *self = Session { phase: Phase::Udp { receiving, sending: false }, ..*self };
        }
    }

    /// Ends the session if its time is up.
    pub fn on_clock(&mut self, now: u128)
        ensures
            final(self)@ == old(self)@.after_clock(now as int),
    {
        proof {
            use_type_invariant(&*self);
        }
        if self.expired(now) {
            *self = Session { phase: Phase::Closed, ..*self };
        }
    }

    /// Ends the session: setting up the test or writing test data failed.
    pub fn abort(&mut self)
        ensures
            final(self)@ == old(self)@.closed(),
    {
        proof {
            use_type_invariant(&*self);
        }
        *self = Session { phase: Phase::Closed, ..*self };
    }

    /// Whether the session's time is up.
    pub fn expired(&self, now: u128) -> (expired: bool)
        ensures
            expired == self@.expired(now as int),
    {
        let testing = match self.phase {
            Phase::Closed => return false,
            Phase::Handshake => false,
            _ => true,
        };
        now.saturating_sub(self.last_heard) >= self.control_timeout || (testing
            && now.saturating_sub(self.started) >= self.max_test_duration)
    }

    /// How long until the session's time is up if the client stays silent.
    pub fn time_left(&self, now: u128) -> (left: u128)
        ensures
            left == self@.time_left(now as int),
    {
        let silent = self.control_timeout.saturating_sub(now.saturating_sub(self.last_heard));
        let running = self.max_test_duration.saturating_sub(now.saturating_sub(self.started));
        let testing = matches!(self.phase, Phase::Tcp { .. } | Phase::Udp { .. });
        if testing && running < silent {
            running
        } else {
            silent
        }
    }
}

/// The statistics message at the start of what a client sent during a UDP test, if there is one.
pub fn remote_stats(chunk: &[u8]) -> (stats: Option<Stats>)
    ensures
        stats == if chunk@.len() >= STATS_LEN {
            Stats::decode(chunk@.take(STATS_LEN as int))
        } else {
            None
        },
{
    if chunk.len() < STATS_LEN {
        return None;
    }
    let mut buf = [0u8;12];
    for i in 0..STATS_LEN
        invariant
            chunk@.len() >= STATS_LEN,
            forall|j: int| 0 <= j < i ==> buf@[j] == chunk@[j],
    {
        buf[i] = chunk[i];
    }
    assert(buf@ =~= chunk@.take(STATS_LEN as int));
    Stats::parse(&buf)
}

} // verus!
