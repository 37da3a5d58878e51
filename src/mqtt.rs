//! The decisions of the link task, which bridges the bus and the broker.
use vstd::prelude::*;
use crate::event::{Event, MqttMessageEvent};
use crate::schema::{Status, response_json, encode_response};

verus! {

/// How many reconnect attempts are made after the connection is lost.
pub const RECONNECT_ATTEMPTS: u32 = 300;

/// The wait before each reconnect attempt, in milliseconds.
pub const RECONNECT_INTERVAL_MS: u64 = 1000;

/// What the link does with an event from the bus.
pub enum LinkAction {
    /// Leave the loop at once.
    Stop,
    /// Publish the message to the broker.
    Publish(MqttMessageEvent),
    Ignore,
}

pub fn link_action(event: Event) -> (r: LinkAction)
    ensures
        event is Exit <==> r is Stop,
        event matches Event::MqttMessageSend(m) ==> (r matches LinkAction::Publish(p)
            && p.topic@ == m.topic@ && p.message@ == m.message@),
        !(event is Exit) && !(event is MqttMessageSend) ==> r is Ignore,
{
    match event {
        Event::Exit => LinkAction::Stop,
        Event::MqttMessageSend(m) => LinkAction::Publish(m),
        _ => LinkAction::Ignore,
    }
}

/// Where the link stands.
#[derive(Clone, Copy, Debug, PartialEq, Eq, Structural)]
pub enum LinkState {
    Connecting,
    Connected,
    /// The connection was lost; `failed` attempts to restore it have failed.
    Reconnecting { failed: u32 },
    Terminated,
}

/// What the transport reports to the link.
#[derive(Clone, Copy, Debug, PartialEq, Eq, Structural)]
pub enum LinkEvent {
    ConnectSucceeded,
    ConnectFailed,
    ConnectionLost,
    Exit,
}

/// What the link task does next.
#[derive(Clone, Copy, Debug, PartialEq, Eq, Structural)]
pub enum LinkCommand {
    /// Subscribe to the command topic and announce that the station is online.
    Subscribe,
    /// Try to connect again after this many milliseconds.
    RetryAfter(u64),
    /// The first connection failed: the station does not start.
    Abort,
    /// Every reconnect attempt failed: publish `Exit` so the station stops.
    Shutdown,
    /// Leave the loop.
    Stop,
    Nothing,
}

/// The link's next state and command after a report from the transport.
pub open spec fn link_next(s: LinkState, e: LinkEvent) -> (LinkState, LinkCommand) {
    match (s, e) {
        (LinkState::Terminated, _) => (LinkState::Terminated, LinkCommand::Nothing),
        (_, LinkEvent::Exit) => (LinkState::Terminated, LinkCommand::Stop),
        (LinkState::Connecting, LinkEvent::ConnectSucceeded) => (LinkState::Connected, LinkCommand::Subscribe),
        (LinkState::Connecting, LinkEvent::ConnectFailed) => (LinkState::Terminated, LinkCommand::Abort),
        (LinkState::Connected, LinkEvent::ConnectionLost) => (
            LinkState::Reconnecting { failed: 0 },
            LinkCommand::RetryAfter(RECONNECT_INTERVAL_MS),
        ),
        (LinkState::Reconnecting { failed: _ }, LinkEvent::ConnectSucceeded) => (
            LinkState::Connected,
            LinkCommand::Subscribe,
        ),
        (LinkState::Reconnecting { failed }, LinkEvent::ConnectFailed) => if failed + 1 < RECONNECT_ATTEMPTS {
            (LinkState::Reconnecting { failed: (failed + 1) as u32 }, LinkCommand::RetryAfter(RECONNECT_INTERVAL_MS))
        } else {
            (LinkState::Terminated, LinkCommand::Shutdown)
        },
        _ => (s, LinkCommand::Nothing),
    }
}

pub fn link_step(s: LinkState, e: LinkEvent) -> (r: (LinkState, LinkCommand))
    ensures
        r == link_next(s, e),
{
    match (s, e) {
        (LinkState::Terminated, _) => (LinkState::Terminated, LinkCommand::Nothing),
        (_, LinkEvent::Exit) => (LinkState::Terminated, LinkCommand::Stop),
        (LinkState::Connecting, LinkEvent::ConnectSucceeded) => (LinkState::Connected, LinkCommand::Subscribe),
        (LinkState::Connecting, LinkEvent::ConnectFailed) => (LinkState::Terminated, LinkCommand::Abort),
        (LinkState::Connected, LinkEvent::ConnectionLost) => (
            LinkState::Reconnecting { failed: 0 },
            LinkCommand::RetryAfter(RECONNECT_INTERVAL_MS),
        ),
        (LinkState::Reconnecting { failed: _ }, LinkEvent::ConnectSucceeded) => (
            LinkState::Connected,
            LinkCommand::Subscribe,
        ),
        (LinkState::Reconnecting { failed }, LinkEvent::ConnectFailed) => if failed < RECONNECT_ATTEMPTS - 1 {
            (LinkState::Reconnecting { failed: failed + 1 }, LinkCommand::RetryAfter(RECONNECT_INTERVAL_MS))
        } else {
            (LinkState::Terminated, LinkCommand::Shutdown)
        },
        _ => (s, LinkCommand::Nothing),
    }
}

/// The state after a run of failed reconnect attempts, from `Reconnecting { failed: k }`.
pub open spec fn after_failures(k: u32, n: nat) -> LinkState
    decreases n,
{
    if n == 0 {
        LinkState::Reconnecting { failed: k }
    } else {
        link_next(after_failures(k, (n - 1) as nat), LinkEvent::ConnectFailed).0
    }
}

/// A lost link is retried a bounded number of times, one attempt per interval:
/// every failure short of the last asks for another attempt, and the last one
/// shuts the station down instead of leaving it disconnected.
pub proof fn lemma_reconnect_bounded(n: nat)
    ensures
        n < RECONNECT_ATTEMPTS ==> after_failures(0, n) == (LinkState::Reconnecting { failed: n as u32 }),
        n + 1 < RECONNECT_ATTEMPTS ==> link_next(after_failures(0, n), LinkEvent::ConnectFailed).1
            == LinkCommand::RetryAfter(RECONNECT_INTERVAL_MS),
        n + 1 == RECONNECT_ATTEMPTS ==> link_next(after_failures(0, n), LinkEvent::ConnectFailed)
            == (LinkState::Terminated, LinkCommand::Shutdown),
    decreases n,
{
    if n > 0 {
        lemma_reconnect_bounded((n - 1) as nat);
    }
}

/// Announced when the link comes up.
pub fn online_message() -> (r: String)
    ensures
        r@ == "Station controller is now online"@,
{
    String::from_str("Station controller is now online")
}

/// The status message that the broker publishes for a station that went away
/// without closing its link: nothing known, and the reason.
pub fn will_payload(stamp: &str) -> (r: String)
    ensures
        r@ == response_json(Status::unknown(), Some("Station controller has gone offline"@), stamp@),
{
    let status = Status { tx_power_enabled: None, tx_power_active: None, ptt_enabled: None, ptt_active: None };
    let msg = Some(String::from_str("Station controller has gone offline"));
    encode_response(&status, &msg, stamp)
}

} // verus!
