// A resilience layer over a streaming connection: it records every
// subscription, and when the transport fails it rebuilds the connection and
// replays the subscriptions on it, retrying at a fixed interval.
//
// `registry` holds the ordered registrations, `reconnect` the decisions of the
// background loop, and `dispatch` what a wrapped callback does with a message.

pub mod dispatch;
pub mod reconnect;
pub mod registry;
