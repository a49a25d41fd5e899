//! What all sessions of a server share: its configuration, the count of open sessions and the
//! allocation of UDP ports.

use crate::protocol::{Command, Protocol, BTEST_PORT, BTEST_PORT_CLIENT_OFFSET};
use crate::wire;
use vstd::prelude::*;

verus! {

/// Nanoseconds in a second, the unit in which all times are kept.
pub const NANOS_PER_SEC: u128 = 1_000_000_000;

/// Once a port beyond this one has been handed out, allocation goes on just past the start of the
/// range. So the port that follows this one is the last of a round.
pub const LAST_UDP_PORT: u32 = 65000;

/// The address that a server listens on.
#[derive(Debug, Clone, Copy, PartialEq, Eq)]
pub enum ListenAddr {
    V4 { ipv4: [u8; 4], port: u16 },
    V6 { ipv6: [u8; 16], port: u16, flowinfo: u32, scope_id: u32 },
}

/// Server configuration. Times are in nanoseconds.
#[derive(Debug, Clone, Copy)]
pub struct ServerConfig {
    pub listen_addr: ListenAddr,
    /// The first UDP port to allocate.
    pub udp_port_start: u16,
    /// How many sessions may be open at once.
    pub max_sessions: u32,
    /// Hard cap on the duration of a test.
    pub max_test_duration: u128,
    /// How long a client may be silent on its TCP connection.
    pub control_timeout: u128,
}

impl Default for ServerConfig {
    fn default() -> (config: ServerConfig)
        ensures
            config.listen_addr matches ListenAddr::V4 { ipv4, port } && ipv4@ == seq![
                0u8,
                0u8,
                0u8,
                0u8,
            ] && port == BTEST_PORT,
            config.udp_port_start == 2000,
            config.max_sessions == 100,
            config.max_test_duration == 300 * NANOS_PER_SEC,
            config.control_timeout == 30 * NANOS_PER_SEC,
    {
        let ipv4: [u8; 4] = [0, 0, 0, 0];
        assert(ipv4@ =~= seq![0u8, 0u8, 0u8, 0u8]);
        ServerConfig {
            listen_addr: ListenAddr::V4 { ipv4, port: BTEST_PORT },
            udp_port_start: 2000,
            max_sessions: 100,
            max_test_duration: 300 * NANOS_PER_SEC,
            control_timeout: 30 * NANOS_PER_SEC,
        }
    }
}

/// Where allocation stands after it has handed out `next`: one further, or just past the start of
/// the range if `next` lies beyond `LAST_UDP_PORT`.
pub open spec fn port_after(start: u16, next: int) -> int {
    if next > LAST_UDP_PORT {
        start + 1
    } else {
        next + 1
    }
}

/// Where allocation stands after `count` allocations.
pub open spec fn port_position(start: u16, count: nat) -> int
    decreases count,
{
    if count == 0 {
        start as int
    } else {
        port_after(start, port_position(start, (count - 1) as nat))
    }
}

/// Where allocation stands after the start of a test: a UDP test takes one port, a TCP test none.
pub open spec fn port_after_test(start: u16, next: int, command: Command) -> int {
    match command.protocol {
        Protocol::Tcp => next,
        Protocol::Udp => port_after(start, next),
    }
}

/// Where allocation stands after the start of so many tests.
pub open spec fn port_after_tests(start: u16, commands: Seq<Command>) -> int
    decreases commands.len(),
{
    if commands.len() == 0 {
        start as int
    } else {
        port_after_test(start, port_after_tests(start, commands.drop_last()), commands.last())
    }
}

/// How many of the commands ask for a UDP test.
pub open spec fn udp_tests(commands: Seq<Command>) -> nat
    decreases commands.len(),
{
    if commands.len() == 0 {
        0
    } else {
        udp_tests(commands.drop_last()) + if commands.last().protocol is Udp {
            1nat
        } else {
            0nat
        }
    }
}

/// How many sessions are open once a connection has arrived: one more, unless the limit is reached.
pub open spec fn sessions_after_arrival(open: int, limit: u32) -> int {
    if open < limit {
        open + 1
    } else {
        open
    }
}

/// How many sessions are open after a history in which connections arrive (`true`) and open
/// sessions end (`false`).
pub open spec fn sessions_after(limit: u32, history: Seq<bool>) -> int
    decreases history.len(),
{
    if history.len() == 0 {
        0
    } else {
        let open = sessions_after(limit, history.drop_last());
        if history.last() {
            sessions_after_arrival(open, limit)
        } else if open > 0 {
            open - 1
        } else {
            open
        }
    }
}

/// What a UDP test needs before it can run.
#[derive(Debug, Clone, Copy)]
pub struct UdpSetup {
    /// The server's port.
    pub port: u16,
    /// The message that tells the client the port, to be sent right after the confirm.
    pub announcement: [u8; 2],
}

/// Shared state of a server.
pub struct ServerState {
    next_udp_port: u32,
    active_sessions: u32,
    config: ServerConfig,
}

impl ServerState {
    #[verifier::type_invariant]
    spec fn well_formed(self) -> bool {
        &&& self.next_udp_port <= 0x1_0000
        &&& self.active_sessions <= self.config.max_sessions
    }

    /// The configuration that the server was started with.
    pub closed spec fn configuration(self) -> ServerConfig {
        self.config
    }

    /// How many sessions are open.
    pub closed spec fn open_sessions(self) -> int {
        self.active_sessions as int
    }

    /// The port to hand out next; a port number is sixteen bits of it.
    pub closed spec fn next_port(self) -> int {
        self.next_udp_port as int
    }

    pub fn new(config: ServerConfig) -> (state: ServerState)
        ensures
            state.configuration() == config,
            state.open_sessions() == 0,
            state.next_port() == port_position(config.udp_port_start, 0),
            state.next_port() == config.udp_port_start,
    {
        ServerState { next_udp_port: config.udp_port_start as u32, active_sessions: 0, config }
    }

    pub fn config(&self) -> (config: &ServerConfig)
        ensures
            *config == self.configuration(),
    {
        &self.config
    }

    pub fn active_sessions(&self) -> (count: u32)
        ensures
            count == self.open_sessions(),
            count <= self.configuration().max_sessions,
    {
        proof {
            use_type_invariant(self);
        }
        self.active_sessions
    }

    /// Hands out a UDP port.
    pub fn allocate_udp_port(&mut self) -> (port: u16)
        ensures
            port == old(self).next_port() % 0x1_0000,
            final(self).next_port() == port_after(
                old(self).configuration().udp_port_start,
                old(self).next_port(),
            ),
            old(self).next_port() <= 65000 ==> final(self).next_port() == old(self).next_port() + 1,
            old(self).next_port() > 65000 ==> final(self).next_port() == old(
                self,
            ).configuration().udp_port_start + 1,
            final(self).open_sessions() == old(self).open_sessions(),
            final(self).configuration() == old(self).configuration(),
    {
        proof {
            use_type_invariant(&*self);
        }
        let port: u32 = self.next_udp_port;
        // Wrap around if we go too high
        if port > LAST_UDP_PORT {
            self.next_udp_port = self.config.udp_port_start as u32 + 1;
        } else {
            self.next_udp_port = port + 1;
        }
        assert(port as u16 == port % 0x1_0000) by (bit_vector);
        port as u16
    }

    /// Prepares the test that a command asks for, once the command has been confirmed: a UDP test
    /// gets a port, which is announced to the client; a TCP test needs nothing.
    pub fn begin_test(&mut self, command: &Command) -> (setup: Option<UdpSetup>)
        ensures
            setup is Some <==> command.protocol is Udp,
            setup matches Some(udp) ==> {
                &&& udp.port == old(self).next_port() % 0x1_0000
                &&& udp.announcement@ == wire::be_u16_bytes(udp.port)
            },
            final(self).next_port() == port_after_test(
                old(self).configuration().udp_port_start,
                old(self).next_port(),
                *command,
            ),
            command.protocol == Protocol::Tcp ==> final(self).next_port() == old(self).next_port(),
            command.protocol == Protocol::Udp ==> final(self).next_port() == port_after(
                old(self).configuration().udp_port_start,
                old(self).next_port(),
            ),
            final(self).open_sessions() == old(self).open_sessions(),
            final(self).configuration() == old(self).configuration(),
    {
        match command.protocol {
            Protocol::Tcp => None,
            Protocol::Udp => {
                let port: u16 = self.allocate_udp_port();
                Some(UdpSetup { port, announcement: port_message(port) })
            },
        }
    }

    /// Counts a new connection as a session, unless as many sessions as allowed are open.
    pub fn try_open_session(&mut self) -> (admitted: bool)
        ensures
            admitted <==> old(self).open_sessions() < old(self).configuration().max_sessions,
            final(self).open_sessions() == sessions_after_arrival(
                old(self).open_sessions(),
                old(self).configuration().max_sessions,
            ),
            admitted ==> final(self).open_sessions() == old(self).open_sessions() + 1,
            !admitted ==> final(self).open_sessions() == old(self).open_sessions(),
            final(self).open_sessions() <= final(self).configuration().max_sessions,
            final(self).next_port() == old(self).next_port(),
            final(self).configuration() == old(self).configuration(),
    {
        proof {
            use_type_invariant(&*self);
        }
        if self.active_sessions >= self.config.max_sessions {
            return false;
        }
        self.active_sessions = self.active_sessions + 1;
        true
    }

    /// Counts the end of a session.
    pub fn close_session(&mut self)
        requires
            old(self).open_sessions() > 0,
        ensures
            final(self).open_sessions() == old(self).open_sessions() - 1,
            final(self).next_port() == old(self).next_port(),
            final(self).configuration() == old(self).configuration(),
    {
        proof {
            use_type_invariant(&*self);
        }
        self.active_sessions = self.active_sessions - 1;
    }
}

/// The UDP port that the client listens on.
pub fn client_udp_port(udp_port: u16) -> (port: u16)
    requires
        udp_port + BTEST_PORT_CLIENT_OFFSET <= u16::MAX,
    ensures
        port == udp_port + BTEST_PORT_CLIENT_OFFSET,
        port == udp_port + 256,
{
    udp_port + BTEST_PORT_CLIENT_OFFSET
}

/// The message that tells the client its UDP port.
pub fn port_message(udp_port: u16) -> (message: [u8; 2])
    ensures
        message@ == wire::be_u16_bytes(udp_port),
        0x100 * message@[0] + message@[1] == udp_port,
{
    assert(udp_port >> 8 == udp_port / 0x100) by (bit_vector);
    assert(udp_port & 0xFF == udp_port % 0x100) by (bit_vector);
    let message: [u8; 2] = [(udp_port >> 8) as u8, (udp_port & 0xFF) as u8];
    assert(message@ =~= wire::be_u16_bytes(udp_port));
    message
}

/// The ports of a range that starts low enough are handed out in order, and then over and over
/// again but for the first.
pub proof fn law_ports_cycle(start: u16, count: nat)
    requires
        start <= LAST_UDP_PORT,
    ensures
        port_position(start, count) == if count == 0 {
            start as int
        } else {
            start + 1 + (count - 1) % (LAST_UDP_PORT + 1 - start)
        },
    decreases count,
{
    let period = LAST_UDP_PORT + 1 - start;
    if count > 0 {
        let before = (count - 1) as nat;
        law_ports_cycle(start, before);
        if before > 0 {
            let k = before - 1;
            assert((k + 1) % period == if k % period == period - 1 {
                0
            } else {
                k % period + 1
            }) by (nonlinear_arith)
                requires
                    k >= 0,
                    period > 0,
            ;
        } else {
            assert(0int % period == 0) by (nonlinear_arith)
                requires
                    period > 0,
            ;
        }
    }
}

/// The first port is the start of the range. After a port up to 65000 comes the one above it, after
/// any other the one just past the start.
pub proof fn law_next_port(start: u16, next: int)
    ensures
        next <= 65000 ==> port_after(start, next) == next + 1,
        next > 65000 ==> port_after(start, next) == start + 1,
        port_position(start, 0) == start,
{
}

/// What starts a test moves allocation by one port if it is a UDP test and not at all otherwise,
/// whatever else the command says.
pub proof fn law_only_udp_takes_a_port(start: u16, next: int, command: Command)
    ensures
        command.protocol == Protocol::Tcp ==> port_after_test(start, next, command) == next,
        command.protocol == Protocol::Udp ==> port_after_test(start, next, command) == port_after(
            start,
            next,
        ),
{
}

/// All ports but the first lie above the start of the range, and none far above its end.
proof fn lemma_port_bounds(start: u16, count: nat)
    ensures
        start <= port_position(start, count),
        count > 0 ==> start < port_position(start, count),
        start <= LAST_UDP_PORT ==> port_position(start, count) <= LAST_UDP_PORT + 1,
        start > LAST_UDP_PORT ==> port_position(start, count) <= start + 1,
    decreases count,
{
    if count > 0 {
        lemma_port_bounds(start, (count - 1) as nat);
    }
}

/// The first port is never handed out again. No two later allocations give the same port unless
/// a whole round lies between them.
pub proof fn law_ports_distinct(start: u16, i: nat, j: nat)
    requires
        i < j,
        i == 0 || (start <= LAST_UDP_PORT && j < i + (LAST_UDP_PORT + 1 - start)),
    ensures
        port_position(start, i) % 0x1_0000 != port_position(start, j) % 0x1_0000,
{
    lemma_port_bounds(start, i);
    lemma_port_bounds(start, j);
    if i > 0 {
        let period = LAST_UDP_PORT + 1 - start;
        law_ports_cycle(start, i);
        law_ports_cycle(start, j);
        let a = i - 1;
        let b = j - 1;
        assert(a % period != b % period) by (nonlinear_arith)
            requires
                0 <= a < b < a + period,
                period > 0,
        ;
    }
}

/// No allocated port lies below the start of the range, nor above the end of a round, nor, where
/// the range starts beyond that, by more than one above its start; so every port is handed out as
/// it is counted. What follows a start at the very top is left out: it has no port number.
pub proof fn law_ports_in_range(start: u16, count: nat)
    requires
        start < u16::MAX || count == 0,
    ensures
        start <= port_position(start, count) < 0x1_0000,
        port_position(start, count) % 0x1_0000 == port_position(start, count),
        start <= LAST_UDP_PORT ==> port_position(start, count) <= LAST_UDP_PORT + 1,
        start > LAST_UDP_PORT ==> port_position(start, count) <= start + 1,
{
    lemma_port_bounds(start, count);
}

/// The client's port has a number for every port allocated from a range that starts low enough.
pub proof fn law_client_port_exists(start: u16, count: nat)
    requires
        start + BTEST_PORT_CLIENT_OFFSET <= u16::MAX,
        start + BTEST_PORT_CLIENT_OFFSET < u16::MAX || count == 0,
    ensures
        port_position(start, count) + BTEST_PORT_CLIENT_OFFSET <= u16::MAX,
{
    lemma_port_bounds(start, count);
}

/// Each UDP test takes exactly one port and no TCP test takes any: where allocation stands depends
/// only on how many UDP tests there were.
pub proof fn law_one_port_per_udp_test(start: u16, commands: Seq<Command>)
    ensures
        port_after_tests(start, commands) == port_position(start, udp_tests(commands)),
    decreases commands.len(),
{
    if commands.len() > 0 {
        law_one_port_per_udp_test(start, commands.drop_last());
    }
}

/// Whatever connections arrive and whichever sessions end, no more sessions are open than allowed,
/// and a connection is turned away only when exactly as many are.
pub proof fn law_session_limit(limit: u32, history: Seq<bool>)
    ensures
        0 <= sessions_after(limit, history) <= limit,
        sessions_after(limit, history.push(true)) == sessions_after(limit, history)
            <==> sessions_after(limit, history) == limit,
    decreases history.len(),
{
    if history.len() > 0 {
        law_session_limit(limit, history.drop_last());
    }
    assert(history.push(true).drop_last() =~= history);
}

/// A connection is admitted exactly while fewer sessions are open than allowed.
pub proof fn law_arrival(open: int, limit: u32)
    ensures
        open < limit ==> sessions_after_arrival(open, limit) == open + 1,
        open >= limit ==> sessions_after_arrival(open, limit) == open,
{
}

/// A session that ends makes room: the next connection is admitted.
pub proof fn law_ended_session_makes_room(limit: u32, history: Seq<bool>)
    requires
        sessions_after(limit, history) > 0,
    ensures
        sessions_after(limit, history.push(false)) < limit,
        sessions_after(limit, history.push(false).push(true)) == sessions_after(limit, history),
{
    law_session_limit(limit, history);
    assert(history.push(false).drop_last() =~= history);
    assert(sessions_after(limit, history.push(false)) == sessions_after(limit, history) - 1);
    assert(history.push(false).push(true).drop_last() =~= history.push(false));
}

} // verus!
