//! What a session is and what happens to it, as mathematics.
//!
//! A session is one client connection: the handshake and then the test that the client asked for.
//! `SessionState` is all that its decisions depend on; each `after_..` function says how one
//! happening changes it. Times are nanoseconds on a clock of the server's own.

use crate::protocol::{Command, ConfirmMulti, Protocol, Stats};
use crate::server::NANOS_PER_SEC;
use vstd::prelude::*;

verus! {

/// Length of a command.
pub const COMMAND_LEN: usize = 16;

/// Length of a statistics message.
pub const STATS_LEN: usize = 12;

/// Time from one statistics message to the next.
pub const STATS_INTERVAL: u128 = NANOS_PER_SEC;

/// IP and UDP header bytes that count as part of a datagram.
pub const UDP_HEADER_LEN: u16 = 28;

/// What a session is at.
#[derive(Debug, Clone, Copy, PartialEq, Eq, Structural)]
pub enum Phase {
    /// Waiting for the client's command.
    Handshake,
    /// A TCP test: test data is read from the client until it hangs up, and written to it, along
    /// with statistics, until that fails.
    Tcp { reading: bool, writing: bool },
    /// A UDP test: datagrams are received and sent until the socket fails to; statistics go to
    /// the client over TCP all along.
    Udp { receiving: bool, sending: bool },
    /// The session is over.
    Closed,
}

/// All that the decisions about a session depend on.
pub struct SessionState {
    pub phase: Phase,
    /// The bytes of the command that have arrived.
    pub received: Seq<u8>,
    /// The command, once it is complete and understood.
    pub command: Option<Command>,
    /// When the client last sent something over TCP; at first, when it connected.
    pub last_heard: int,
    /// When the test started.
    pub started: int,
    /// Bytes received since the last statistics message, as a 64-bit counter holds them.
    pub counted: int,
    /// Number of the last statistics message.
    pub stats_seq: int,
    /// Longest duration of a test.
    pub max_test_duration: int,
    /// Longest silence of the client.
    pub control_timeout: int,
}

/// What is to be done about bytes that arrived.
#[derive(Debug, Clone, Copy)]
pub enum Reply {
    /// Nothing.
    Nothing,
    /// Confirm the command and run its test.
    Start { command: Command, confirm: ConfirmMulti },
    /// Nothing, but the client has told what it received.
    RemoteStats { stats: Stats },
}

/// Something that happens to a session.
pub enum Event {
    /// Bytes arrived over TCP at a time.
    Read { chunk: Seq<u8>, now: int },
    /// The client hung up, or reading from it failed.
    HungUp,
    /// It is that time, and statistics are to be made if they are due.
    StatsTick { now: int },
    /// Writing statistics to the client failed.
    StatsWriteFailed,
    /// A datagram of a length arrived.
    Datagram { len: nat },
    /// Receiving datagrams failed.
    ReceiveFailed,
    /// Sending a datagram failed.
    SendFailed,
    /// It is that time.
    Clock { now: int },
    /// Setting up the test or writing test data to the client failed.
    Aborted,
}

impl Event {
    /// Whether the client is heard: it sent something over TCP.
    pub open spec fn is_heard(self) -> bool {
        self matches Event::Read { chunk, .. } && chunk.len() > 0
    }
}

/// The larger of a number and zero.
pub open spec fn positive_part(n: int) -> int {
    if n > 0 {
        n
    } else {
        0
    }
}

impl SessionState {
    /// A session whose client has just connected.
    pub open spec fn opened(
        max_test_duration: int,
        control_timeout: int,
        now: int,
    ) -> SessionState {
        SessionState {
            phase: Phase::Handshake,
            received: Seq::empty(),
            command: None,
            last_heard: now,
            started: now,
            counted: 0,
            stats_seq: 0,
            max_test_duration,
            control_timeout,
        }
    }

    /// Whether the test is running.
    pub open spec fn testing(self) -> bool {
        self.phase is Tcp || self.phase is Udp
    }

    /// What holds of every session: while it waits for its command that is incomplete, and no
    /// statistics have been made; a running test has a command and is of the command's protocol; a
    /// TCP test either reads or writes; a UDP test sends only if the server is to.
    pub open spec fn well_formed(self) -> bool {
        &&& self.phase is Handshake ==> self.received.len() < COMMAND_LEN && self.stats_seq == 0
        &&& self.phase matches Phase::Tcp { reading, writing } ==> {
            &&& self.command matches Some(command)
            &&& command.protocol is Tcp
            &&& reading || writing
        }
        &&& self.phase matches Phase::Udp { receiving, sending } ==> {
            &&& self.command matches Some(command)
            &&& command.protocol is Udp
            &&& sending ==> command.wants_data()
        }
        &&& 0 <= self.counted < 0x1_0000_0000_0000_0000
        &&& 0 <= self.stats_seq
    }

    /// Whether statistics are sent.
    pub open spec fn reports(self) -> bool {
        self.phase is Udp || (self.phase matches Phase::Tcp { writing, .. } && writing)
    }

    /// Whether test data is sent.
    pub open spec fn sends_data(self) -> bool {
        match self.phase {
            Phase::Tcp { writing, .. } => writing && self.command.unwrap().wants_data(),
            Phase::Udp { sending, .. } => sending,
            _ => false,
        }
    }

    /// Whether a statistics message is due: one for each interval that the test has run.
    pub open spec fn stats_due(self, now: int) -> bool {
        &&& self.reports()
        &&& self.running_time(now) >= (self.stats_seq + 1) * STATS_INTERVAL
    }

    /// How long until the next statistics message is due.
    pub open spec fn stats_wait(self, now: int) -> int {
        positive_part((self.stats_seq + 1) * STATS_INTERVAL - self.running_time(now))
    }

    /// The next statistics message. Its byte count has room for 32 bits of the counter.
    pub open spec fn next_stats(self) -> Stats {
        Stats {
            seq: (self.stats_seq + 1) as u32,
            recv_bytes: (self.counted % 0x1_0000_0000) as u32,
        }
    }

    /// How long the client has been silent.
    pub open spec fn silence(self, now: int) -> int {
        positive_part(now - self.last_heard)
    }

    /// How long the test has been running.
    pub open spec fn running_time(self, now: int) -> int {
        positive_part(now - self.started)
    }

    /// Whether the session's time is up: the client has been silent for too long, or the test has
    /// run for too long.
    pub open spec fn expired(self, now: int) -> bool {
        &&& !(self.phase is Closed)
        &&& {
            ||| self.silence(now) >= self.control_timeout
            ||| self.testing() && self.running_time(now) >= self.max_test_duration
        }
    }

    /// How long until the session's time is up if the client stays silent.
    pub open spec fn time_left(self, now: int) -> int {
        let silent = positive_part(self.control_timeout - self.silence(now));
        let running = positive_part(self.max_test_duration - self.running_time(now));
        if self.testing() && running < silent {
            running
        } else {
            silent
        }
    }

    /// Counts bytes towards the next statistics message.
    pub open spec fn count(self, bytes: int) -> SessionState {
        SessionState {
            counted: (self.counted + bytes) % 0x1_0000_0000_0000_0000,
            ..self
        }
    }

    /// Whether a reply is the one to bytes that arrive: a command that is now complete and
    /// understood is confirmed and starts the test; a statistics message during a UDP test is
    /// passed on.
    pub open spec fn answers(self, chunk: Seq<u8>, now: int, reply: Reply) -> bool {
        match self.phase {
            Phase::Handshake => if self.after_read(chunk, now).testing() {
                &&& reply matches Reply::Start { command, confirm }
                &&& self.after_read(chunk, now).command == Some(command)
                &&& confirm.token@ == ConfirmMulti::reply(command)
            } else {
                reply is Nothing
            },
            Phase::Udp { .. } => {
                let stats = Stats::decode(chunk.take(STATS_LEN as int));
                if chunk.len() >= STATS_LEN && stats is Some {
                    reply == Reply::RemoteStats { stats: stats.unwrap() }
                } else {
                    reply is Nothing
                }
            },
            _ => reply is Nothing,
        }
    }

    /// The phase in which a command's test starts.
    pub open spec fn first_phase(command: Command) -> Phase {
        match command.protocol {
            Protocol::Tcp => Phase::Tcp { reading: true, writing: true },
            Protocol::Udp => Phase::Udp { receiving: true, sending: command.wants_data() },
        }
    }

    /// The session is over.
    pub open spec fn closed(self) -> SessionState {
        SessionState { phase: Phase::Closed, ..self }
    }

    /// The TCP test goes on as far as it reads or writes, and is over once it does neither.
    pub open spec fn tcp(self, reading: bool, writing: bool) -> SessionState {
        if reading || writing {
            SessionState { phase: Phase::Tcp { reading, writing }, ..self }
        } else {
            self.closed()
        }
    }

    /// Bytes arrived over TCP. In the handshake they are part of the command: once complete, it
    /// starts the test, or ends the session if it cannot be understood. In a TCP test they are
    /// counted. In any case the client has been heard. No bytes at all mean that the client has
    /// hung up.
    pub open spec fn after_read(self, chunk: Seq<u8>, now: int) -> SessionState {
        if chunk.len() == 0 {
            self.after_hung_up()
        } else {
            let heard = SessionState { last_heard: now, ..self };
            match self.phase {
                Phase::Handshake => {
                    let received = self.received + chunk;
                    let more = SessionState { received, ..heard };
                    if received.len() < COMMAND_LEN {
                        more
                    } else {
                        match Command::decode(received) {
                            Some(command) => SessionState {
                                phase: SessionState::first_phase(command),
                                command: Some(command),
                                started: now,
                                ..more
                            },
                            None => more.closed(),
                        }
                    }
                },
                Phase::Tcp { reading, .. } => if reading {
                    heard.count(chunk.len() as int)
                } else {
                    self
                },
                Phase::Udp { .. } => heard,
                Phase::Closed => self,
            }
        }
    }

    /// The client hung up, or reading from it failed. A TCP test goes on writing.
    pub open spec fn after_hung_up(self) -> SessionState {
        match self.phase {
            Phase::Tcp { writing, .. } => self.tcp(false, writing),
            _ => self.closed(),
        }
    }

    /// It is that time, and the statistics message that is due, if any, has been made.
    pub open spec fn after_stats_tick(self, now: int) -> SessionState {
        if self.stats_due(now) {
            SessionState { stats_seq: self.stats_seq + 1, counted: 0, ..self }
        } else {
            self
        }
    }

    /// Writing statistics failed. A TCP test goes on reading.
    pub open spec fn after_stats_write_failed(self) -> SessionState {
        match self.phase {
            Phase::Tcp { reading, .. } => self.tcp(reading, false),
            Phase::Udp { .. } => self.closed(),
            _ => self,
        }
    }

    /// A datagram arrived; its headers count too.
    pub open spec fn after_datagram(self, len: nat) -> SessionState {
        if self.phase matches Phase::Udp { receiving, .. } && receiving {
            self.count(len + UDP_HEADER_LEN)
        } else {
            self
        }
    }

    /// Receiving datagrams failed: no more of them are received.
    pub open spec fn after_receive_failed(self) -> SessionState {
        match self.phase {
            Phase::Udp { sending, .. } => SessionState {
                phase: Phase::Udp { receiving: false, sending },
                ..self
            },
            _ => self,
        }
    }

    /// Sending a datagram failed: no more of them are sent.
    pub open spec fn after_send_failed(self) -> SessionState {
        match self.phase {
            Phase::Udp { receiving, .. } => SessionState {
                phase: Phase::Udp { receiving, sending: false },
                ..self
            },
            _ => self,
        }
    }

    /// It is that time: the session is over if its time is up.
    pub open spec fn after_clock(self, now: int) -> SessionState {
        if self.expired(now) {
            self.closed()
        } else {
            self
        }
    }

    /// How an event changes the session.
    pub open spec fn after(self, event: Event) -> SessionState {
        match event {
            Event::Read { chunk, now } => self.after_read(chunk, now),
            Event::HungUp => self.after_hung_up(),
            Event::StatsTick { now } => self.after_stats_tick(now),
            Event::StatsWriteFailed => self.after_stats_write_failed(),
            Event::Datagram { len } => self.after_datagram(len),
            Event::ReceiveFailed => self.after_receive_failed(),
            Event::SendFailed => self.after_send_failed(),
            Event::Clock { now } => self.after_clock(now),
            Event::Aborted => self.closed(),
        }
    }

    /// The session after a history of events.
    pub open spec fn after_all(self, events: Seq<Event>) -> SessionState
        decreases events.len(),
    {
        if events.len() == 0 {
            self
        } else {
            self.after_all(events.drop_last()).after(events.last())
        }
    }

    /// The statistics messages made in the course of a history of events.
    pub open spec fn stats_sent(self, events: Seq<Event>) -> Seq<Stats>
        decreases events.len(),
    {
        if events.len() == 0 {
            Seq::empty()
        } else {
            let before = self.after_all(events.drop_last());
            let sent = self.stats_sent(events.drop_last());
            if events.last() matches Event::StatsTick { now } && before.stats_due(now) {
                sent.push(before.next_stats())
            } else {
                sent
            }
        }
    }

    /// How many bytes of test data an event brings.
    pub open spec fn bytes_in(self, event: Event) -> int {
        match event {
            Event::Read { chunk, .. } => if self.phase matches Phase::Tcp { reading, .. }
                && reading {
                chunk.len() as int
            } else {
                0
            },
            Event::Datagram { len } => if self.phase matches Phase::Udp { receiving, .. }
                && receiving {
                len + UDP_HEADER_LEN
            } else {
                0
            },
            _ => 0,
        }
    }

    /// How many bytes of test data a history of events brings.
    pub open spec fn total_bytes_in(self, events: Seq<Event>) -> int
        decreases events.len(),
    {
        if events.len() == 0 {
            0
        } else {
            self.total_bytes_in(events.drop_last()) + self.after_all(events.drop_last()).bytes_in(
                events.last(),
            )
        }
    }
}

/// How many bytes a series of statistics messages reports in all.
pub open spec fn total_reported(stats: Seq<Stats>) -> int
    decreases stats.len(),
{
    if stats.len() == 0 {
        0
    } else {
        total_reported(stats.drop_last()) + stats.last().recv_bytes
    }
}

} // verus!
