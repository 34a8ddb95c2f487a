use vstd::prelude::*;

verus! {

/// How a message handed to a subscription callback is classified.
#[derive(Clone, Copy, Debug, PartialEq, Eq, Structural)]
pub enum MessageKind {
    /// A response from the stream.
    Data,
    /// An application-level error: forwarded, never a cause to reconnect.
    ApplicationError,
    /// The transport is closed and the connection must be rebuilt.
    FatalSocketError,
}

/// What the wrapped callback does with one message.
#[derive(Clone, Copy, Debug, PartialEq, Eq, Structural)]
pub struct Dispatch {
    /// Hand the message, unchanged, to the caller's callback.
    pub forward: bool,
    /// Send a trigger to the reconnect loop.
    pub trigger: bool,
}

/// Whether a message of this kind sends a trigger to the reconnect loop.
pub open spec fn triggers(kind: MessageKind) -> bool {
    kind == MessageKind::FatalSocketError
}

/// Every message is forwarded once; only a fatal socket error also triggers
/// a reconnect.
pub fn dispatch(kind: MessageKind) -> (r: Dispatch)
    ensures
        r.forward,
        r.trigger == triggers(kind),
{
    match kind {
        MessageKind::FatalSocketError => Dispatch { forward: true, trigger: true },
        _ => Dispatch { forward: true, trigger: false },
    }
}

} // verus!
