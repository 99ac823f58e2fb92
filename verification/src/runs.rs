//! What holds of every run of a connection, from its acceptance on.
use crate::addr::AddrView;
use crate::client;
use crate::client::{ActionView, EventView, StateView};
use crate::error;
use crate::laws;
use crate::v5;
use crate::wire;
use vstd::prelude::*;

verus! {

/// The state of a connection after a run of events.
pub open spec fn state_after(events: Seq<EventView>) -> StateView
    decreases events.len(),
{
    if events.len() == 0 {
        StateView::Idle
    } else {
        client::next(state_after(events.drop_last()), events.last()).0
    }
}

/// The action that the last event of a run led to.
pub open spec fn action_after(events: Seq<EventView>) -> ActionView
    recommends
        events.len() > 0,
{
    client::next(state_after(events.drop_last()), events.last()).1
}

/// Whether each event of a run is one that the connection waited for.
pub open spec fn possible(events: Seq<EventView>) -> bool
    decreases events.len(),
{
    events.len() > 0 ==> possible(events.drop_last()) && client::expected(
        state_after(events.drop_last()),
        events.last(),
    )
}

/// All that was read from the client in a run.
pub open spec fn received(events: Seq<EventView>) -> Seq<u8>
    decreases events.len(),
{
    if events.len() == 0 {
        Seq::empty()
    } else {
        received(events.drop_last()) + match events.last() {
            EventView::Read(buf) => buf,
            _ => Seq::empty(),
        }
    }
}

/// All that was handed out to be written to the client in a run.
pub open spec fn written(events: Seq<EventView>) -> Seq<u8>
    decreases events.len(),
{
    if events.len() == 0 {
        Seq::empty()
    } else {
        written(events.drop_last()) + match action_after(events) {
            ActionView::Write(bytes) => bytes,
            _ => Seq::empty(),
        }
    }
}

/// The answer that a method was chosen.
pub open spec fn acknowledgement() -> Seq<u8> {
    seq![v5::VERSION, v5::METH_NO_AUTH]
}

/// A run comes to its end after at most 16 events.
pub proof fn lemma_runs_end(events: Seq<EventView>)
    requires
        possible(events),
    ensures
        events.len() + laws::rank(state_after(events)) <= 16,
    decreases events.len(),
{
    if events.len() > 0 {
        lemma_runs_end(events.drop_last());
        laws::lemma_progress(state_after(events.drop_last()), events.last());
    }
}

/// What has been written when a connection is in state `s`.
spec fn written_in(s: StateView, bytes: Seq<u8>) -> bool {
    match s {
        StateView::Idle
        | StateView::Version
        | StateView::Timer
        | StateView::MethodCount
        | StateView::Methods(_) => bytes == Seq::<u8>::empty(),
        StateView::Replying(failure) => exists|code: u8, bound: AddrView|
            bytes == acknowledgement() + #[trigger] wire::reply_bytes(code, bound) && (failure is None
                <==> code == v5::REP_SUCCEEDED),
        StateView::Relaying => exists|bound: AddrView|
            bytes == acknowledgement() + #[trigger] wire::reply_bytes(v5::REP_SUCCEEDED, bound),
        StateView::Done => {
            ||| bytes == Seq::<u8>::empty()
            ||| bytes == acknowledgement()
            ||| exists|code: u8, bound: AddrView|
                bytes == acknowledgement() + #[trigger] wire::reply_bytes(code, bound)
        },
        _ => bytes == acknowledgement(),
    }
}

proof fn lemma_written_in(events: Seq<EventView>)
    requires
        possible(events),
    ensures
        written_in(state_after(events), written(events)),
    decreases events.len(),
{
    if events.len() > 0 {
        let before = events.drop_last();
        lemma_written_in(before);
        let s = state_after(before);
        let bytes = match action_after(events) {
            ActionView::Write(bytes) => bytes,
            _ => Seq::empty(),
        };
        if !(action_after(events) is Write) {
            assert(written(events) =~= written(before));
        }
        match s {
            StateView::Methods(_) => {
                assert(written(before) + bytes =~= bytes);
            },
            StateView::Connecting(target) => {
                match events.last() {
                    EventView::Connected(local) => {
                        let outcome = Ok(local);
                        let reply = wire::reply_bytes(
                            client::code_of(outcome),
                            client::bound_of(target, outcome),
                        );
                        assert(written(events) == acknowledgement() + reply);
                    },
                    EventView::ConnectFailed(e) => {
                        let outcome = Err(e);
                        let reply = wire::reply_bytes(
                            client::code_of(outcome),
                            client::bound_of(target, outcome),
                        );
                        assert(written(events) == acknowledgement() + reply);
                    },
                    _ => {},
                }
            },
            _ => {},
        }
    }
}

/// A client is sent nothing, or that its methods were accepted, or that and
/// then one reply. So a client that is turned away before its destination is
/// known gets no reply.
pub proof fn lemma_what_is_written(events: Seq<EventView>)
    requires
        possible(events),
    ensures
        ({
            ||| written(events) == Seq::<u8>::empty()
            ||| written(events) == acknowledgement()
            ||| exists|code: u8, bound: AddrView|
                written(events) == acknowledgement() + #[trigger] wire::reply_bytes(code, bound)
        }),
{
    lemma_written_in(events);
}

/// Bytes are relayed only once the connection to the destination was made, in
/// time, and the client was told so, with the address that it is bound to.
pub proof fn lemma_relay_only_after_success(events: Seq<EventView>)
    requires
        possible(events),
        events.len() > 0,
        action_after(events) is Relay,
    ensures
        events.len() >= 3,
        ({
            let connected = events.drop_last();
            let connecting = connected.drop_last();
            let target = action_after(connecting)->Connect_0;
            &&& action_after(connecting) is Connect
            &&& connected.last() is Connected
            &&& events.last() is Written
            &&& written(events) == acknowledgement() + wire::reply_bytes(
                v5::REP_SUCCEEDED,
                client::bound_of(target, Ok(connected.last()->Connected_0)),
            )
        }),
{
    let connected = events.drop_last();
    let connecting = connected.drop_last();
    reveal_with_fuel(possible, 4);
    assert(state_after(connected) == StateView::Replying(None));
    assert(connected.len() > 0);
    let s = state_after(connecting);
    assert(state_after(connected) == client::next(s, connected.last()).0);
    assert(s is Connecting && connected.last() is Connected);
    assert(connecting.len() > 0);
    let before = state_after(connecting.drop_last());
    assert(s == client::next(before, connecting.last()).0);
    lemma_written_in(connecting);
    assert(written(events) =~= written(connected));
}

/// A connection that finishes has been relayed, and the amounts are those of
/// the relay.
pub proof fn lemma_finish_tells_what_was_relayed(events: Seq<EventView>)
    requires
        possible(events),
        events.len() > 0,
        action_after(events) is Finish,
    ensures
        events.len() >= 2,
        events.last() == EventView::Relayed(
            action_after(events)->Finish_0,
            action_after(events)->Finish_1,
        ),
        action_after(events.drop_last()) is Relay,
{
    let relaying = events.drop_last();
    reveal_with_fuel(possible, 3);
    assert(state_after(relaying) is Relaying);
    assert(relaying.len() > 0);
    let s = state_after(relaying.drop_last());
    assert(state_after(relaying) == client::next(s, relaying.last()).0);
}

/// The timer covers the handshake: it was started in every run that is past
/// the version byte and has neither come to the relay nor ended.
pub proof fn lemma_timer_was_started(events: Seq<EventView>)
    requires
        possible(events),
        state_after(events).timed(),
    ensures
        events.contains(EventView::TimerStarted),
    decreases events.len(),
{
    let before = events.drop_last();
    if events.last() is TimerStarted {
        assert(events[events.len() - 1] == EventView::TimerStarted);
    } else {
        lemma_timer_was_started(before);
        let i = choose|i: int| 0 <= i < before.len() && before[i] == EventView::TimerStarted;
        assert(events[i] == EventView::TimerStarted);
    }
}

/// Whenever the timer fires before the handshake is done, the connection is
/// given up, and nothing more is written.
pub proof fn lemma_timeout_ends_handshake(events: Seq<EventView>)
    requires
        possible(events),
        state_after(events).timed(),
    ensures
        ({
            let fired = events.push(EventView::TimedOut);
            &&& possible(fired)
            &&& action_after(fired) == ActionView::Fail(
                error::other_error("timeout during handshake"@),
            )
            &&& state_after(fired) is Done
            &&& written(fired) == written(events)
        }),
{
    let fired = events.push(EventView::TimedOut);
    assert(fired.drop_last() =~= events);
    assert(written(fired) =~= written(events));
}

} // verus!
