//! What each event does to each part of a session, in terms of the event and the session's parts.
//!
//! Where `model` goes through the events and says what becomes of the session, these laws go
//! through the parts of a session and say by what they change, and by what they do not. The laws
//! at the end follow a test over any history.

use crate::model::{Event, Phase, Reply, SessionState};
use crate::protocol::{Command, Direction};
use vstd::prelude::*;

verus! {

/// A new session waits for its command, has heard the client connect, and has counted and reported
/// nothing.
pub proof fn law_new_session(max_test_duration: int, control_timeout: int, now: int)
    ensures
        ({
            let session = SessionState::opened(max_test_duration, control_timeout, now);
            &&& session.phase == Phase::Handshake
            &&& session.received == Seq::<u8>::empty()
            &&& session.command is None
            &&& session.last_heard == now
            &&& session.counted == 0
            &&& session.stats_seq == 0
            &&& session.max_test_duration == max_test_duration
            &&& session.control_timeout == control_timeout
        }),
{
}

/// The handshake ends with the sixteenth byte of the command, when the client is gone, or when it
/// has been silent for too long. With that byte the test starts: a first byte of 0 starts a UDP
/// test, which receives and, if the second byte is 2 or 3, sends; a first byte of 1 starts a TCP
/// test, which reads and writes; all other bytes of the command are free. Bytes that are no
/// command end the session.
pub proof fn law_phase_of_handshake(session: SessionState, event: Event)
    requires
        session.phase == Phase::Handshake,
        session.received.len() < 16,
    ensures
        event matches Event::Read { chunk, now } ==> {
            let bytes = session.received + chunk;
            let after = session.after(event);
            &&& chunk.len() == 0 ==> after.phase == Phase::Closed
            &&& chunk.len() > 0 && bytes.len() < 16 ==> after.phase == Phase::Handshake
            &&& chunk.len() > 0 && bytes.len() == 16 ==> {
                if bytes[1] < 1 || bytes[1] > 3 || bytes[0] > 1 {
                    after.phase == Phase::Closed
                } else if bytes[0] == 0 {
                    after.phase == (Phase::Udp {
                        receiving: true,
                        sending: bytes[1] == 2 || bytes[1] == 3,
                    })
                } else {
                    after.phase == (Phase::Tcp { reading: true, writing: true })
                }
            }
        },
        event is HungUp || event is Aborted ==> session.after(event).phase == Phase::Closed,
        event matches Event::Clock { now } ==> session.after(event).phase == if session.control_timeout
            <= 0 || now - session.last_heard >= session.control_timeout {
            Phase::Closed
        } else {
            Phase::Handshake
        },
        event is StatsTick || event is StatsWriteFailed || event is Datagram || event is ReceiveFailed
            || event is SendFailed ==> session.after(event).phase == Phase::Handshake,
{
    if let Event::Read { chunk, now } = event {
        if session.received.len() + chunk.len() == 16 {
            crate::protocol::law_command_bytes(session.received + chunk);
        }
    }
}

/// A TCP test reads until the client hangs up and writes until statistics cannot be written. It is
/// over when it does neither, when it is aborted, or when at some time the client has been silent
/// or the test has run for too long; by nothing else.
pub proof fn law_phase_of_tcp_test(
    session: SessionState,
    reading: bool,
    writing: bool,
    event: Event,
)
    requires
        session.phase == (Phase::Tcp { reading, writing }),
        reading || writing,
    ensures
        ({
            let out_of_time = event matches Event::Clock { now } && (session.control_timeout <= 0
                || now - session.last_heard >= session.control_timeout || session.max_test_duration
                <= 0 || now - session.started >= session.max_test_duration);
            let hung_up = event is HungUp || (event matches Event::Read { chunk, .. } && chunk.len()
                == 0);
            let reads = reading && !hung_up;
            let writes = writing && !(event is StatsWriteFailed);
            session.after(event).phase == if event is Aborted || out_of_time || (!reads && !writes) {
                Phase::Closed
            } else {
                Phase::Tcp { reading: reads, writing: writes }
            }
        }),
{
}

/// A UDP test receives until that fails and sends until that fails. It is over when the client hangs
/// up, when statistics cannot be written, when it is aborted, or when at some time the client has
/// been silent or the test has run for too long; by nothing else.
pub proof fn law_phase_of_udp_test(
    session: SessionState,
    receiving: bool,
    sending: bool,
    event: Event,
)
    requires
        session.phase == (Phase::Udp { receiving, sending }),
    ensures
        ({
            let out_of_time = event matches Event::Clock { now } && (session.control_timeout <= 0
                || now - session.last_heard >= session.control_timeout || session.max_test_duration
                <= 0 || now - session.started >= session.max_test_duration);
            let hung_up = event is HungUp || (event matches Event::Read { chunk, .. } && chunk.len()
                == 0);
            session.after(event).phase == if hung_up || event is StatsWriteFailed || event is Aborted
                || out_of_time {
                Phase::Closed
            } else {
                Phase::Udp {
                    receiving: receiving && !(event is ReceiveFailed),
                    sending: sending && !(event is SendFailed),
                }
            }
        }),
{
}

/// The client is heard when bytes arrive over TCP, and by nothing else; a TCP test that no longer
/// reads does not hear it.
pub proof fn law_what_is_heard(session: SessionState, event: Event)
    ensures
        session.after(event).last_heard == if event matches Event::Read { chunk, now } && chunk.len()
            > 0 && (session.phase is Handshake || session.phase is Udp || (
        session.phase matches Phase::Tcp { reading, .. } && reading)) {
            event->Read_now
        } else {
            session.last_heard
        },
{
}

/// What a TCP test reads is counted by its length and what a UDP test receives by its length and 28
/// bytes of headers, in a counter of 64 bits. The counter starts anew with each statistics message,
/// of which one is made when a test that writes statistics has run for a second more than it has
/// made messages. Nothing else changes the counter.
pub proof fn law_what_is_counted(session: SessionState, event: Event)
    requires
        session.stats_seq >= 0,
    ensures
        session.after(event).counted == match event {
            Event::Read { chunk, .. } => if chunk.len() > 0 && (
            session.phase matches Phase::Tcp { reading, .. } && reading) {
                (session.counted + chunk.len()) % 0x1_0000_0000_0000_0000
            } else {
                session.counted
            },
            Event::Datagram { len } => if session.phase matches Phase::Udp { receiving, .. }
                && receiving {
                (session.counted + len + 28) % 0x1_0000_0000_0000_0000
            } else {
                session.counted
            },
            Event::StatsTick { now } => if (session.phase is Udp || (
            session.phase matches Phase::Tcp { writing, .. } && writing)) && now - session.started
                >= (session.stats_seq + 1) * 1_000_000_000 {
                0
            } else {
                session.counted
            },
            _ => session.counted,
        },
{
}

/// Statistics messages are numbered one by one. One is made when a test that writes statistics has
/// run for a second more than it has made messages, however many these are, and at no other time.
pub proof fn law_what_is_numbered(session: SessionState, event: Event)
    requires
        session.stats_seq >= 0,
    ensures
        session.after(event).stats_seq == if event matches Event::StatsTick { now } && (
        session.phase is Udp || (session.phase matches Phase::Tcp { writing, .. } && writing)) && now
            - session.started >= (session.stats_seq + 1) * 1_000_000_000 {
            session.stats_seq + 1
        } else {
            session.stats_seq
        },
{
}

/// The command gathers what arrives in the handshake. With its sixteenth byte, if it is one, it is
/// kept for good, and the test's time starts to run. Nothing else changes it, that time or the
/// limits.
pub proof fn law_what_is_kept(session: SessionState, event: Event)
    requires
        session.phase == Phase::Handshake ==> session.received.len() < 16,
        event matches Event::Read { chunk, .. } ==> (session.phase == Phase::Handshake
            ==> session.received.len() + chunk.len() <= 16),
    ensures
        ({
            let after = session.after(event);
            let gathers = session.phase == Phase::Handshake && (
            event matches Event::Read { chunk, .. } && chunk.len() > 0);
            let bytes = session.received + event->Read_chunk;
            let starts = gathers && bytes.len() == 16 && bytes[0] <= 1 && 1 <= bytes[1] <= 3;
            &&& after.received == if gathers {
                bytes
            } else {
                session.received
            }
            &&& after.started == if starts {
                event->Read_now
            } else {
                session.started
            }
            &&& !starts ==> after.command == session.command
            &&& starts ==> after.command == Command::decode(bytes) && after.command is Some
            &&& after.max_test_duration == session.max_test_duration
            &&& after.control_timeout == session.control_timeout
        }),
{
    if let Event::Read { chunk, now } = event {
        if session.received.len() + chunk.len() == 16 {
            crate::protocol::law_command_bytes(session.received + chunk);
        }
    }
}

/// Test data is sent in a UDP test that sends, and in a TCP test that writes and whose client
/// asked to receive; however long it has run and whatever else the client asked for.
pub proof fn law_when_data_is_sent(session: SessionState)
    requires
        session.well_formed(),
    ensures
        session.sends_data() <==> {
            ||| session.phase matches Phase::Udp { sending, .. } && sending
            ||| session.phase matches Phase::Tcp { writing, .. } && writing && (
            session.command.unwrap().direction == Direction::Receive
                || session.command.unwrap().direction == Direction::Both)
        },
{
}

/// Whether a test that has just started sends data depends on the second byte of its command alone.
pub proof fn law_direction_byte_decides(session: SessionState, chunk: Seq<u8>, now: int)
    requires
        session.phase == Phase::Handshake,
        chunk.len() > 0,
        session.received.len() + chunk.len() == 16,
        (session.received + chunk)[0] <= 1,
        1 <= (session.received + chunk)[1] <= 3,
    ensures
        session.after_read(chunk, now).sends_data() <==> (session.received + chunk)[1] == 2 || (
        session.received + chunk)[1] == 3,
{
    crate::protocol::law_command_bytes(session.received + chunk);
}

/// A statistics message is due, in any test that writes statistics, when it has run for a second
/// more than it has made messages, however many these are; and never otherwise.
pub proof fn law_when_statistics_are_due(session: SessionState, now: int)
    requires
        session.stats_seq >= 0,
    ensures
        session.stats_due(now) <==> (session.phase is Udp || (
        session.phase matches Phase::Tcp { writing, .. } && writing)) && now - session.started >= (
        session.stats_seq + 1) * 1_000_000_000,
{
}

/// A statistics message has the next number and reports what has been counted, as far as 32 bits
/// go; on the wire the number comes high byte first and the count low byte first.
pub proof fn law_what_is_reported(session: SessionState)
    requires
        0 <= session.stats_seq < u32::MAX,
        session.counted >= 0,
    ensures
        session.next_stats().seq == session.stats_seq + 1,
        session.next_stats().recv_bytes == session.counted % 0x1_0000_0000,
        ({
            let bytes = session.next_stats().encode();
            &&& bytes.len() == 12
            &&& bytes[0] == 0x07
            &&& 0x100_0000 * bytes[1] + 0x1_0000 * bytes[2] + 0x100 * bytes[3] + bytes[4]
                == session.stats_seq + 1
            &&& bytes[8] + 0x100 * bytes[9] + 0x1_0000 * bytes[10] + 0x100_0000 * bytes[11]
                == session.counted % 0x1_0000_0000
        }),
{
    crate::protocol::law_stats_bytes(session.next_stats());
}

/// A session's time is up when its client has been silent for the timeout, or its test has run for
/// the longest duration, and not before; a session that is over has no time that could be up.
pub proof fn law_when_time_is_up(session: SessionState, now: int)
    requires
        session.control_timeout > 0,
        session.max_test_duration > 0,
    ensures
        session.expired(now) <==> !(session.phase is Closed) && (now - session.last_heard
            >= session.control_timeout || (!(session.phase is Handshake) && now - session.started
            >= session.max_test_duration)),
        session.after_clock(now).phase is Closed <==> session.phase is Closed || session.expired(now),
{
}

/// What is left of a session's time is what is left of the timeout or of the longest duration,
/// whichever is less.
pub proof fn law_how_much_time_is_left(session: SessionState, now: int)
    requires
        session.last_heard <= now <= session.last_heard + session.control_timeout,
        session.started <= now <= session.started + session.max_test_duration,
    ensures
        session.time_left(now) <= session.last_heard + session.control_timeout - now,
        session.phase is Tcp || session.phase is Udp ==> session.time_left(now) <= session.started
            + session.max_test_duration - now,
        session.time_left(now) == session.last_heard + session.control_timeout - now || ((
        session.phase is Tcp || session.phase is Udp) && session.time_left(now) == session.started
            + session.max_test_duration - now),
{
}

/// Until the next statistics message is due it takes until the test has run for a second more than
/// it has made messages.
pub proof fn law_how_long_until_statistics(session: SessionState, now: int)
    requires
        session.stats_seq >= 0,
        session.started <= now,
    ensures
        session.stats_wait(now) >= 0,
        now - session.started <= (session.stats_seq + 1) * 1_000_000_000 ==> now + session.stats_wait(
            now,
        ) - session.started == (session.stats_seq + 1) * 1_000_000_000,
        now - session.started > (session.stats_seq + 1) * 1_000_000_000 ==> session.stats_wait(now)
            == 0,
{
}

/// The sixteenth byte of a command is answered with a confirm message that depends on the command's
/// fourth byte alone: with a session token if that is more than one, else without.
pub proof fn law_answer_to_command(
    session: SessionState,
    chunk: Seq<u8>,
    now: int,
    reply: Reply,
)
    requires
        session.phase == Phase::Handshake,
        chunk.len() > 0,
        session.received.len() + chunk.len() == 16,
        session.answers(chunk, now, reply),
    ensures
        ({
            let bytes = session.received + chunk;
            if bytes[0] <= 1 && 1 <= bytes[1] <= 3 {
                &&& reply matches Reply::Start { command, confirm }
                &&& Command::decode(bytes) == Some(command)
                &&& confirm.token@ == if bytes[3] > 1 {
                    seq![0x01u8, 0x00u8, 0x01u8, 0x00u8]
                } else {
                    seq![0x01u8, 0x00u8, 0x00u8, 0x00u8]
                }
            } else {
                reply == Reply::Nothing
            }
        }),
{
    let bytes = session.received + chunk;
    crate::protocol::law_command_bytes(bytes);
    if let Some(command) = Command::decode(bytes) {
        crate::protocol::law_confirm_by_count(command);
    }
}

/// Apart from a complete command only statistics are answered: twelve bytes or more that start with
/// `07`, in a UDP test, are passed on as the number and the count in them.
pub proof fn law_answer_to_other_bytes(
    session: SessionState,
    chunk: Seq<u8>,
    now: int,
    reply: Reply,
)
    requires
        session.answers(chunk, now, reply),
        !(session.phase == Phase::Handshake && chunk.len() > 0 && session.received.len()
            + chunk.len() >= 16),
    ensures
        session.phase is Udp && chunk.len() >= 12 && chunk[0] == 0x07 ==> {
            &&& reply matches Reply::RemoteStats { stats }
            &&& stats.seq == 0x100_0000 * chunk[1] + 0x1_0000 * chunk[2] + 0x100 * chunk[3]
                + chunk[4]
            &&& stats.recv_bytes == chunk[8] + 0x100 * chunk[9] + 0x1_0000 * chunk[10] + 0x100_0000
                * chunk[11]
        },
        !(session.phase is Udp && chunk.len() >= 12 && chunk[0] == 0x07) ==> reply
            == Reply::Nothing,
{
    if chunk.len() >= 12 {
        crate::protocol::law_stats_fields(chunk.take(12));
    }
}

/// A UDP test goes on receiving and sending: as long as the client is there, statistics can be
/// written to it, nothing is aborted and no time is up, it receives unless that has failed and
/// sends data unless that has failed, whatever else happens and for however long.
pub proof fn law_udp_test_goes_on(
    session: SessionState,
    receiving: bool,
    sending: bool,
    events: Seq<Event>,
)
    requires
        session.phase == (Phase::Udp { receiving, sending }),
        session.control_timeout > 0,
        session.max_test_duration > 0,
        forall|i: int|
            0 <= i < events.len() ==> match #[trigger] events[i] {
                Event::Read { chunk, .. } => chunk.len() > 0,
                Event::Clock { now } => now - session.after_all(events.take(i)).last_heard
                    < session.control_timeout && now - session.started < session.max_test_duration,
                Event::HungUp | Event::StatsWriteFailed | Event::Aborted => false,
                _ => true,
            },
    ensures
        session.after_all(events).phase == (Phase::Udp {
            receiving: receiving && !events.contains(Event::ReceiveFailed),
            sending: sending && !events.contains(Event::SendFailed),
        }),
        session.after_all(events).sends_data() <==> sending && !events.contains(Event::SendFailed),
        session.after_all(events).started == session.started,
        session.after_all(events).command == session.command,
        session.after_all(events).control_timeout == session.control_timeout,
        session.after_all(events).max_test_duration == session.max_test_duration,
    decreases events.len(),
{
    if events.len() > 0 {
        let before = events.drop_last();
        lemma_prefix(events);
        assert forall|i: int| 0 <= i < before.len() implies match #[trigger] before[i] {
            Event::Read { chunk, .. } => chunk.len() > 0,
            Event::Clock { now } => now - session.after_all(before.take(i)).last_heard
                < session.control_timeout && now - session.started < session.max_test_duration,
            Event::HungUp | Event::StatsWriteFailed | Event::Aborted => false,
            _ => true,
        } by {
            assert(before[i] == events[i]);
            assert(before.take(i) =~= events.take(i));
        }
        law_udp_test_goes_on(session, receiving, sending, before);
        let state = session.after_all(before);
        assert(events.last() == events[events.len() - 1]);
        law_phase_of_udp_test(
            state,
            receiving && !before.contains(Event::ReceiveFailed),
            sending && !before.contains(Event::SendFailed),
            events.last(),
        );
    }
}

/// Whether the client hangs up, or reading from it fails, in the course of a history.
pub open spec fn hangs_up(events: Seq<Event>) -> bool {
    exists|i: int|
        0 <= i < events.len() && ((#[trigger] events[i]) is HungUp || (
        events[i] matches Event::Read { chunk, .. } && chunk.len() == 0))
}

/// A TCP test goes on reading and writing: as long as nothing is aborted and no time is up, it
/// reads unless the client has hung up and writes unless statistics could not be written, whatever
/// else happens and for however long; it sends data for as long as it writes, if the client asked
/// to receive.
pub proof fn law_tcp_test_goes_on(session: SessionState, events: Seq<Event>)
    requires
        session.well_formed(),
        session.phase == (Phase::Tcp { reading: true, writing: true }),
        session.control_timeout > 0,
        session.max_test_duration > 0,
        forall|i: int|
            0 <= i < events.len() ==> match #[trigger] events[i] {
                Event::Clock { now } => now - session.after_all(events.take(i)).last_heard
                    < session.control_timeout && now - session.started < session.max_test_duration,
                Event::Aborted => false,
                _ => true,
            },
    ensures
        ({
            let failed = events.contains(Event::StatsWriteFailed);
            let after = session.after_all(events);
            &&& after.phase == if hangs_up(events) && failed {
                Phase::Closed
            } else {
                Phase::Tcp { reading: !hangs_up(events), writing: !failed }
            }
            &&& after.sends_data() <==> !failed && (session.command.unwrap().direction
                == Direction::Receive || session.command.unwrap().direction == Direction::Both)
            &&& after.command == session.command
            &&& after.started == session.started
            &&& after.control_timeout == session.control_timeout
            &&& after.max_test_duration == session.max_test_duration
        }),
    decreases events.len(),
{
    if events.len() == 0 {
        assert(!hangs_up(events));
        assert(!events.contains(Event::StatsWriteFailed));
    } else {
        let before = events.drop_last();
        lemma_prefix(events);
        lemma_hangs_up(events);
        assert forall|i: int| 0 <= i < before.len() implies match #[trigger] before[i] {
            Event::Clock { now } => now - session.after_all(before.take(i)).last_heard
                < session.control_timeout && now - session.started < session.max_test_duration,
            Event::Aborted => false,
            _ => true,
        } by {
            assert(before[i] == events[i]);
            assert(before.take(i) =~= events.take(i));
        }
        law_tcp_test_goes_on(session, before);
        let state = session.after_all(before);
        let event = events[events.len() - 1];
        let failed = before.contains(Event::StatsWriteFailed);
        assert(session.after_all(events) == state.after(event));
        if hangs_up(before) && failed {
            assert(state.after(event) == state);
        } else {
            law_phase_of_tcp_test(state, !hangs_up(before), !failed, event);
            law_what_is_kept(state, event);
        }
    }
}

/// The client has hung up in a history if it had before the last event or does so with it.
proof fn lemma_hangs_up(events: Seq<Event>)
    requires
        events.len() > 0,
    ensures
        hangs_up(events) <==> hangs_up(events.drop_last()) || events.last() is HungUp || (
        events.last() matches Event::Read { chunk, .. } && chunk.len() == 0),
{
    let before = events.drop_last();
    let last = events.len() - 1;
    if hangs_up(before) {
        let i = choose|i: int|
            0 <= i < before.len() && ((#[trigger] before[i]) is HungUp || (
            before[i] matches Event::Read { chunk, .. } && chunk.len() == 0));
        assert(events[i] == before[i]);
    }
    if hangs_up(events) {
        let i = choose|i: int|
            0 <= i < events.len() && ((#[trigger] events[i]) is HungUp || (
            events[i] matches Event::Read { chunk, .. } && chunk.len() == 0));
        if i < last {
            assert(before[i] == events[i]);
        }
    }
    assert(events[last] == events.last());
}

/// A history without its last event, and what it holds.
proof fn lemma_prefix(events: Seq<Event>)
    requires
        events.len() > 0,
    ensures
        events.take(events.len() - 1) == events.drop_last(),
        forall|event: Event|
            events.contains(event) <==> #[trigger] events.drop_last().contains(event)
                || events.last() == event,
{
    let before = events.drop_last();
    assert(events.take(events.len() - 1) =~= before);
    assert forall|event: Event|
        events.contains(event) <==> #[trigger] before.contains(event) || events.last()
            == event by {
        if before.contains(event) {
            let i = choose|i: int| 0 <= i < before.len() && before[i] == event;
            assert(events[i] == event);
        }
        if events.last() == event {
            assert(events[events.len() - 1] == event);
        }
        if events.contains(event) {
            let i = choose|i: int| 0 <= i < events.len() && events[i] == event;
            if i < before.len() {
                assert(before[i] == event);
            }
        }
    }
}

} // verus!
