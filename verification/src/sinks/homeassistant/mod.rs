pub mod discovery;

use vstd::prelude::*;

use crate::scheduler::{next_backoff, spec_next_backoff};

verus! {

/// Request-channel capacity of the MQTT client. It must exceed the connect
/// burst (one discovery message per metric + availability + state) so that
/// publishing on connection never blocks before the event loop drains it.
pub const REQUEST_CAP: usize = 256;

/// Longest pause, in seconds, between reconnection attempts.
pub const MAX_RECONNECT_BACKOFF_S: u64 = 60;

/// The connect burst fits in the request channel.
pub proof fn law_connect_burst_fits()
    ensures
        crate::catalog::catalog_len() + 2 < REQUEST_CAP,
{
}

/// What the MQTT event loop reported.
#[derive(Debug, Clone, Copy, PartialEq, Eq, Structural)]
pub enum MqttEvent {
    /// The broker acknowledged a (re)connection.
    ConnAck,
    /// Any other packet or event.
    Other,
    /// The event loop failed (the client reconnects on the next poll).
    Error,
}

/// What the sink does next.
#[derive(Debug, Clone, Copy, PartialEq, Eq, Structural)]
pub enum HaAction {
    /// Publish every discovery config, `online`, then the current state.
    Announce,
    /// Keep polling.
    Continue,
    /// Sleep this many seconds before polling again.
    Sleep(u64),
}

/// The connection loop's decision on one event, with the reconnection delay
/// it keeps: a connection announces the sensors and resets the delay to 1 s;
/// an error sleeps the current delay and doubles it, capped at 60 s.
pub fn ha_step(backoff: u64, event: MqttEvent) -> (res: (HaAction, u64))
    requires
        event == MqttEvent::Error ==> backoff <= u64::MAX / 2,
    ensures
        event == MqttEvent::ConnAck ==> res == (HaAction::Announce, 1u64),
        event == MqttEvent::Other ==> res == (HaAction::Continue, backoff),
        event == MqttEvent::Error ==> res == (
            HaAction::Sleep(backoff),
            spec_next_backoff(backoff, MAX_RECONNECT_BACKOFF_S),
        ),
{
    match event {
        MqttEvent::ConnAck => (HaAction::Announce, 1),
        MqttEvent::Other => (HaAction::Continue, backoff),
        MqttEvent::Error => (HaAction::Sleep(backoff), next_backoff(backoff, MAX_RECONNECT_BACKOFF_S)),
    }
}

/// On an event-loop error the sink sleeps the current delay, then doubles
/// it up to one minute; a connection resets it to 1 s; other events keep it.
pub proof fn law_reconnect_retry(backoff: u64)
    requires
        1 <= backoff <= u64::MAX / 2,
    ensures
        spec_next_backoff(backoff, MAX_RECONNECT_BACKOFF_S) <= 60,
        2 * backoff <= 60 ==> spec_next_backoff(backoff, MAX_RECONNECT_BACKOFF_S) == 2 * backoff,
        2 * backoff >= 60 ==> spec_next_backoff(backoff, MAX_RECONNECT_BACKOFF_S) == 60,
{
}

} // verus!
