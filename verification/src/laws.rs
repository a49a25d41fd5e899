//! What holds of every session, whatever happens to it.

use crate::model;
use crate::model::{Event, Phase, Reply, SessionState, COMMAND_LEN, STATS_INTERVAL};
use crate::protocol::{Command, ConfirmMulti};
use vstd::prelude::*;

verus! {

/// A session is well-formed whatever has happened since its client connected.
pub proof fn law_well_formed_from_the_start(
    max_test_duration: int,
    control_timeout: int,
    opened: int,
    events: Seq<Event>,
)
    ensures
        SessionState::opened(max_test_duration, control_timeout, opened).after_all(
            events,
        ).well_formed(),
{
    law_always_well_formed(
        SessionState::opened(max_test_duration, control_timeout, opened),
        events,
    );
}

/// A well-formed session stays so.
pub proof fn law_always_well_formed(session: SessionState, events: Seq<Event>)
    requires
        session.well_formed(),
    ensures
        session.after_all(events).well_formed(),
    decreases events.len(),
{
    if events.len() > 0 {
        law_always_well_formed(session, events.drop_last());
    }
}

/// A session that is over stays over: nothing changes it, and it sends neither statistics nor
/// test data.
pub proof fn law_closed_is_final(session: SessionState, events: Seq<Event>)
    requires
        session.phase is Closed,
    ensures
        session.after_all(events) == session,
        session.stats_sent(events).len() == 0,
        !session.after_all(events).sends_data(),
    decreases events.len(),
{
    if events.len() > 0 {
        law_closed_is_final(session, events.drop_last());
    }
}

/// Once all its bytes are there a command is answered: one that can be understood with its confirm
/// message and the start of its test, any other with nothing at all but the end of the session.
pub proof fn law_command_is_answered(
    max_test_duration: int,
    control_timeout: int,
    opened: int,
    bytes: Seq<u8>,
    now: int,
    reply: Reply,
)
    requires
        bytes.len() == COMMAND_LEN,
        SessionState::opened(max_test_duration, control_timeout, opened).answers(bytes, now, reply),
    ensures
        ({
            let after = SessionState::opened(
                max_test_duration,
                control_timeout,
                opened,
            ).after_read(bytes, now);
            match Command::decode(bytes) {
                Some(command) => {
                    &&& after.phase == SessionState::first_phase(command)
                    &&& after.command == Some(command)
                    &&& after.started == now
                    &&& after.sends_data() == command.wants_data()
                    &&& reply matches Reply::Start { command: asked, confirm }
                    &&& asked == command
                    &&& confirm.token@ == ConfirmMulti::reply(command)
                },
                None => after.phase is Closed && reply is Nothing,
            }
        }),
{
    assert(Seq::<u8>::empty() + bytes =~= bytes);
}

/// It does not matter in what pieces a command arrives.
pub proof fn law_command_in_pieces(
    session: SessionState,
    first: Seq<u8>,
    second: Seq<u8>,
    earlier: int,
    later: int,
    reply: Reply,
)
    requires
        session.phase is Handshake,
        first.len() > 0,
        second.len() > 0,
        session.received.len() + first.len() + second.len() <= COMMAND_LEN,
    ensures
        session.after_read(first, earlier).phase is Handshake,
        session.answers(first, earlier, reply) ==> reply is Nothing,
        session.after_read(first, earlier).after_read(second, later) == session.after_read(
            first + second,
            later,
        ),
        session.after_read(first, earlier).answers(second, later, reply) <==> session.answers(
            first + second,
            later,
            reply,
        ),
{
    assert(session.received + (first + second) =~= session.received + first + second);
}

/// A client that goes away before its command is complete gets no test.
pub proof fn law_truncated_command_ends_session(session: SessionState)
    requires
        session.phase is Handshake,
    ensures
        session.after_hung_up().phase is Closed,
{
}

/// A running test keeps its command and its starting time, and no session changes its limits.
pub proof fn law_test_keeps_its_terms(session: SessionState, events: Seq<Event>)
    ensures
        session.after_all(events).max_test_duration == session.max_test_duration,
        session.after_all(events).control_timeout == session.control_timeout,
        session.testing() ==> {
            let after = session.after_all(events);
            &&& after.testing() || after.phase is Closed
            &&& after.command == session.command
            &&& after.started == session.started
        },
    decreases events.len(),
{
    if events.len() > 0 {
        law_test_keeps_its_terms(session, events.drop_last());
    }
}

/// Whatever happens in the course of a test, once its time is up the session is over.
pub proof fn law_test_ends_by_deadline(session: SessionState, events: Seq<Event>, now: int)
    requires
        session.testing(),
        now >= session.started + session.max_test_duration,
    ensures
        session.after_all(events.push(Event::Clock { now })).phase is Closed,
{
    law_test_keeps_its_terms(session, events);
    assert(events.push(Event::Clock { now }).drop_last() =~= events);
}

/// Whatever else happens, a client that has sent nothing over TCP for too long is dropped.
pub proof fn law_silent_client_is_dropped(session: SessionState, events: Seq<Event>, now: int)
    requires
        forall|i: int| 0 <= i < events.len() ==> !(#[trigger] events[i]).is_heard(),
        now >= session.last_heard + session.control_timeout,
    ensures
        session.after_all(events.push(Event::Clock { now })).phase is Closed,
{
    law_test_keeps_its_terms(session, events);
    lemma_silence_lasts(session, events);
    assert(events.push(Event::Clock { now }).drop_last() =~= events);
}

/// As long as nothing arrives over TCP the client has not been heard.
proof fn lemma_silence_lasts(session: SessionState, events: Seq<Event>)
    requires
        forall|i: int| 0 <= i < events.len() ==> !(#[trigger] events[i]).is_heard(),
    ensures
        session.after_all(events).last_heard == session.last_heard,
    decreases events.len(),
{
    if events.len() > 0 {
        assert(!events[events.len() - 1].is_heard());
        assert forall|i: int| 0 <= i < events.drop_last().len() implies !(
        #[trigger] events.drop_last()[i]).is_heard() by {
            assert(events.drop_last()[i] == events[i]);
        }
        lemma_silence_lasts(session, events.drop_last());
    }
}

/// The clock ends a session when the time that was left has passed, and no sooner.
pub proof fn law_time_left_is_exact(session: SessionState, now: int, later: int)
    requires
        !(session.phase is Closed),
        session.last_heard <= now,
        session.started <= now,
        0 <= later,
    ensures
        session.after_clock(now + later).phase is Closed <==> later >= session.time_left(now),
        later < session.time_left(now) ==> session.after_clock(now + later) == session,
{
}

/// A client that sends something over TCP in time is not dropped for its silence: it has the
/// whole timeout before it again.
pub proof fn law_heard_client_has_time(session: SessionState, chunk: Seq<u8>, now: int)
    requires
        chunk.len() > 0,
        session.phase is Udp || (session.phase matches Phase::Tcp { reading, .. } && reading),
        session.started <= now < session.started + session.max_test_duration,
        session.control_timeout > 0,
    ensures
        !session.after_read(chunk, now).expired(now),
        session.after_read(chunk, now).time_left(now) == session.control_timeout
            || session.after_read(chunk, now).time_left(now) == session.started
            + session.max_test_duration - now,
{
}

/// Statistics messages are numbered one after the other, the first of a session with one.
pub proof fn law_stats_numbered(session: SessionState, events: Seq<Event>, k: int)
    requires
        session.well_formed(),
        0 <= k < session.stats_sent(events).len(),
        session.stats_seq + session.stats_sent(events).len() <= u32::MAX,
    ensures
        session.stats_sent(events)[k].seq == session.stats_seq + 1 + k,
    decreases events.len(),
{
    if events.len() > 0 {
        let before = events.drop_last();
        law_stats_count(session, before);
        if k < session.stats_sent(before).len() {
            law_stats_numbered(session, before, k);
        }
    }
}

/// A session counts the statistics messages that it makes.
pub proof fn law_stats_count(session: SessionState, events: Seq<Event>)
    ensures
        session.after_all(events).stats_seq == session.stats_seq + session.stats_sent(events).len(),
    decreases events.len(),
{
    if events.len() > 0 {
        law_stats_count(session, events.drop_last());
    }
}

/// Statistics do not come too often: by any time, a session has made at most one message for each
/// interval that its test has run.
pub proof fn law_stats_are_paced(session: SessionState, events: Seq<Event>, now: int)
    requires
        session.well_formed(),
        session.stats_seq * STATS_INTERVAL <= session.running_time(now),
        forall|i: int|
            0 <= i < events.len() ==> ((#[trigger] events[i]) matches Event::StatsTick { now: then }
                ==> then <= now),
    ensures
        session.after_all(events).stats_seq * STATS_INTERVAL <= session.after_all(
            events,
        ).running_time(now),
    decreases events.len(),
{
    if events.len() > 0 {
        let before = events.drop_last();
        assert forall|i: int| 0 <= i < before.len() implies ((
        #[trigger] before[i]) matches Event::StatsTick { now: then } ==> then <= now) by {
            assert(before[i] == events[i]);
        }
        law_stats_are_paced(session, before, now);
        law_always_well_formed(session, before);
        assert(events[events.len() - 1] == events.last());
    }
}

/// Statistics keep up: once none is due, a test that writes them has made exactly one message for
/// each whole second that it has run, however many these are.
pub proof fn law_stats_keep_up(
    max_test_duration: int,
    control_timeout: int,
    opened: int,
    events: Seq<Event>,
    now: int,
)
    requires
        forall|i: int|
            0 <= i < events.len() ==> ((#[trigger] events[i]) matches Event::StatsTick { now: then }
                ==> then <= now),
        ({
            let session = SessionState::opened(
                max_test_duration,
                control_timeout,
                opened,
            ).after_all(events);
            &&& session.phase is Udp || (session.phase matches Phase::Tcp { writing, .. }
                && writing)
            &&& !session.stats_due(now)
        }),
    ensures
        ({
            let session = SessionState::opened(
                max_test_duration,
                control_timeout,
                opened,
            ).after_all(events);
            session.stats_seq == if now > session.started {
                (now - session.started) / 1_000_000_000
            } else {
                0
            }
        }),
{
    law_stats_are_paced(
        SessionState::opened(max_test_duration, control_timeout, opened),
        events,
        now,
    );
}

/// The next statistics message is due when the time until then has passed, and no sooner.
pub proof fn law_stats_wait_is_exact(session: SessionState, now: int, later: int)
    requires
        session.reports(),
        session.started <= now,
        0 <= later,
    ensures
        session.stats_due(now + later) <==> later >= session.stats_wait(now),
{
}

/// Every byte received is reported once: what the statistics messages report and what is still
/// to be reported add up to what was received. They do so up to multiples of 2^32, as that is
/// where the count in a message wraps.
pub proof fn law_bytes_are_accounted_for(session: SessionState, events: Seq<Event>)
    requires
        session.well_formed(),
    ensures
        (model::total_reported(session.stats_sent(events)) + session.after_all(events).counted)
            % 0x1_0000_0000 == (session.counted + session.total_bytes_in(events)) % 0x1_0000_0000,
    decreases events.len(),
{
    if events.len() > 0 {
        let before = events.drop_last();
        law_bytes_are_accounted_for(session, before);
        law_always_well_formed(session, before);
        let state = session.after_all(before);
        let sent = session.stats_sent(before);
        lemma_event_bytes(state, events.last());
        let reported = if events.last() matches Event::StatsTick { now } && state.stats_due(now) {
            assert(sent.push(state.next_stats()).drop_last() =~= sent);
            state.next_stats().recv_bytes as int
        } else {
            0
        };
        assert(model::total_reported(session.stats_sent(events))
            == model::total_reported(sent) + reported);
        lemma_congruence(
            model::total_reported(sent),
            state.counted,
            session.counted + session.total_bytes_in(before),
            reported,
            state.after(events.last()).counted,
            state.bytes_in(events.last()),
        );
    }
}

/// What one event adds to the count, and what it takes from it as reported.
proof fn lemma_event_bytes(state: SessionState, event: Event)
    requires
        state.well_formed(),
    ensures
        ({
            let reported = if event matches Event::StatsTick { now } && state.stats_due(now) {
                state.next_stats().recv_bytes as int
            } else {
                0
            };
            (reported + state.after(event).counted) % 0x1_0000_0000 == (state.counted
                + state.bytes_in(event)) % 0x1_0000_0000
        }),
{
    let total = state.counted + state.bytes_in(event);
    assert(total % 0x1_0000_0000_0000_0000 % 0x1_0000_0000 == total % 0x1_0000_0000);
    match event {
        Event::Read { chunk, now } => {
            if state.phase matches Phase::Tcp { reading, .. } && reading && chunk.len() > 0 {
                assert(state.after(event).counted == total % 0x1_0000_0000_0000_0000);
            } else {
                assert(state.after(event).counted == state.counted);
            }
        },
        Event::Datagram { len } => {
            if state.phase matches Phase::Udp { receiving, .. } && receiving {
                assert(state.after(event).counted == total % 0x1_0000_0000_0000_0000);
            } else {
                assert(state.after(event).counted == state.counted);
            }
        },
        Event::StatsTick { now } => {
            if state.stats_due(now) {
                assert(state.next_stats().recv_bytes == state.counted % 0x1_0000_0000);
            }
        },
        _ => {
            assert(state.after(event).counted == state.counted);
        },
    }
}

/// Two congruences add up.
proof fn lemma_congruence(sum: int, count: int, total: int, part: int, rest: int, more: int)
    requires
        (sum + count) % 0x1_0000_0000 == total % 0x1_0000_0000,
        (part + rest) % 0x1_0000_0000 == (count + more) % 0x1_0000_0000,
    ensures
        (sum + part + rest) % 0x1_0000_0000 == (total + more) % 0x1_0000_0000,
{
}

/// Nothing is reported that was not received: what the statistics messages report and what is still
/// to be reported never exceed what was received.
pub proof fn law_no_byte_is_invented(session: SessionState, events: Seq<Event>)
    requires
        session.well_formed(),
    ensures
        model::total_reported(session.stats_sent(events)) + session.after_all(events).counted
            <= session.counted + session.total_bytes_in(events),
    decreases events.len(),
{
    if events.len() > 0 {
        let before = events.drop_last();
        law_no_byte_is_invented(session, before);
        law_always_well_formed(session, before);
        let state = session.after_all(before);
        let sent = session.stats_sent(before);
        if events.last() matches Event::StatsTick { now } && state.stats_due(now) {
            assert(sent.push(state.next_stats()).drop_last() =~= sent);
            assert(state.next_stats().recv_bytes <= state.counted);
        } else {
            assert(session.stats_sent(events) == sent);
            assert(state.after(events.last()).counted <= state.counted + state.bytes_in(
                events.last(),
            ));
        }
    }
}

/// Between two statistics messages the second reports what arrived since the first, so far as its
/// count goes.
pub proof fn law_interval_is_reported(session: SessionState, events: Seq<Event>)
    requires
        session.well_formed(),
        session.counted == 0,
        session.stats_sent(events).len() == 0,
        session.after_all(events).reports(),
    ensures
        session.after_all(events).next_stats().recv_bytes == session.total_bytes_in(events)
            % 0x1_0000_0000,
{
    law_bytes_are_accounted_for(session, events);
    law_always_well_formed(session, events);
}

/// The server sends test data only to a client that asked to receive it.
pub proof fn law_data_only_if_asked(session: SessionState, events: Seq<Event>)
    requires
        session.well_formed(),
        session.after_all(events).sends_data(),
    ensures
        session.after_all(events).command matches Some(command) && command.wants_data(),
{
    law_always_well_formed(session, events);
}

/// A UDP test stops for good when the client hangs up or statistics can no longer be written to
/// it: from then on nothing is sent.
pub proof fn law_udp_stops_without_client(session: SessionState, event: Event, events: Seq<Event>)
    requires
        session.phase is Udp,
        event is HungUp || event is StatsWriteFailed,
    ensures
        session.after(event).phase is Closed,
        session.after(event).after_all(events).phase is Closed,
        !session.after(event).after_all(events).sends_data(),
        session.after(event).stats_sent(events).len() == 0,
{
    law_closed_is_final(session.after(event), events);
}

} // verus!
