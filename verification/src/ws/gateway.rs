//! The WebSocket session loop's decisions: what to do with each signal from
//! the bus and each message from the client.

use vstd::prelude::*;

verus! {

/// What the session loop woke up for.
pub enum GatewayEvent {
    /// A signal arrived from the bus, written as JSON.
    Signal(String),
    /// A signal arrived that could not be written as JSON.
    SignalUnencodable,
    /// The session fell behind and missed signals.
    Lagged,
    /// The bus closed.
    BusClosed,
    /// Sending to the client failed.
    SendFailed,
    /// The client closed the socket.
    ClientClose,
    /// The client pinged.
    ClientPing,
    /// Any other client message, a read error, or the end of the socket.
    ClientOther,
}

/// What the session loop does next.
pub enum GatewayAction {
    /// Send this text to the client and go on.
    Forward(String),
    /// Go on waiting.
    Continue,
    /// End the session.
    Stop,
}

/// `a` is the loop's step on `event`: a signal is forwarded as written, what
/// cannot be written or was missed is skipped, a ping is answered by waiting on,
/// and anything else ends the session.
pub open spec fn step_action(event: GatewayEvent, a: GatewayAction) -> bool {
    match event {
        GatewayEvent::Signal(json) => a == GatewayAction::Forward(json),
        GatewayEvent::SignalUnencodable | GatewayEvent::Lagged | GatewayEvent::ClientPing => a is Continue,
        _ => a is Stop,
    }
}

/// Decide the loop's next step on `event`, as `step_action` says.
pub fn gateway_step(event: GatewayEvent) -> (a: GatewayAction)
    ensures
        step_action(event, a),
{
    match event {
        GatewayEvent::Signal(json) => GatewayAction::Forward(json),
        GatewayEvent::SignalUnencodable => GatewayAction::Continue,
        GatewayEvent::Lagged => GatewayAction::Continue,
        GatewayEvent::ClientPing => GatewayAction::Continue,
        _ => GatewayAction::Stop,
    }
}

/// Whether the session goes on after `event`.
pub open spec fn keeps_open(event: GatewayEvent) -> bool {
    ||| event is Signal
    ||| event is SignalUnencodable
    ||| event is Lagged
    ||| event is ClientPing
}

/// The events up to the first one that ends the session.
pub open spec fn open_prefix(events: Seq<GatewayEvent>) -> Seq<GatewayEvent>
    decreases events.len(),
{
    if events.len() == 0 || !keeps_open(events[0]) {
        Seq::empty()
    } else {
        seq![events[0]] + open_prefix(events.drop_first())
    }
}

/// The texts of the signals among `events`, in order.
pub open spec fn signal_texts(events: Seq<GatewayEvent>) -> Seq<Seq<char>>
    decreases events.len(),
{
    if events.len() == 0 {
        Seq::empty()
    } else {
        match events[0] {
            GatewayEvent::Signal(json) => seq![json@] + signal_texts(events.drop_first()),
            _ => signal_texts(events.drop_first()),
        }
    }
}

/// The texts the loop sends for its steps, in order, until it stops.
pub open spec fn sent_texts(actions: Seq<GatewayAction>) -> Seq<Seq<char>>
    decreases actions.len(),
{
    if actions.len() == 0 {
        Seq::empty()
    } else {
        match actions[0] {
            GatewayAction::Forward(text) => seq![text@] + sent_texts(actions.drop_first()),
            GatewayAction::Continue => sent_texts(actions.drop_first()),
            GatewayAction::Stop => Seq::empty(),
        }
    }
}

/// A session sends the client exactly the signals it received, as written and
/// in order, up to the first event that ends it (a close, any other client
/// message, a failed send, or the end of the bus); skipped signals and pings
/// send nothing. While nothing ends it, that is every signal.
pub proof fn lemma_session_forwards_signals(events: Seq<GatewayEvent>, actions: Seq<GatewayAction>)
    requires
        events.len() == actions.len(),
        forall|i: int| 0 <= i < events.len() ==> step_action(#[trigger] events[i], actions[i]),
    ensures
        sent_texts(actions) == signal_texts(open_prefix(events)),
        (forall|i: int| 0 <= i < events.len() ==> keeps_open(#[trigger] events[i])) ==> open_prefix(events)
            == events,
    decreases events.len(),
{
    if events.len() > 0 {
        assert(step_action(events[0], actions[0]));
        let rest_e = events.drop_first();
        let rest_a = actions.drop_first();
        assert forall|i: int| 0 <= i < rest_e.len() implies step_action(#[trigger] rest_e[i], rest_a[i]) by {
            assert(rest_e[i] == events[i + 1]);
            assert(step_action(events[i + 1], actions[i + 1]));
        }
        lemma_session_forwards_signals(rest_e, rest_a);
        if keeps_open(events[0]) {
            let p = seq![events[0]] + open_prefix(rest_e);
            assert(p[0] == events[0]);
            assert(p.drop_first() =~= open_prefix(rest_e));
        }
        if forall|i: int| 0 <= i < events.len() ==> keeps_open(#[trigger] events[i]) {
            assert(keeps_open(events[0]));
            assert forall|i: int| 0 <= i < rest_e.len() implies keeps_open(#[trigger] rest_e[i]) by {
                assert(rest_e[i] == events[i + 1]);
            }
            assert(seq![events[0]] + rest_e =~= events);
        }
    }
}

} // verus!
