//! Native event records and where each of them goes.
use vstd::prelude::*;

verus! {

/// The message a window receives while it is being created.
pub const WM_CREATE: u32 = 0x0001;

/// The message that asks a window to show itself.
pub const WM_SHOWWINDOW: u32 = 0x0018;

/// What the message source answers once it is gone.
pub const SOURCE_GONE: i32 = -1;

/// A native event: its kind and two machine-word parameters.
#[derive(Clone, Copy, Debug, PartialEq, Eq, Structural)]
pub struct Message {
    pub kind: u32,
    pub wparam: usize,
    pub lparam: isize,
}

/// What the dispatch callback does with a message.
#[derive(Clone, Copy, Debug, PartialEq, Eq, Structural)]
pub enum Dispatch {
    /// Post `message` back onto the window's queue and answer `result`.
    Post { message: Message, result: isize },
    /// Hand the message to the event handler and answer what it returns.
    Forward(Message),
    /// Leave the message to the system's default processing.
    DefaultProcessing(Message),
}

/// The request to show a window, posted once its procedure is wired up.
pub open spec fn show_message() -> Message {
    Message { kind: WM_SHOWWINDOW, wparam: 0, lparam: 0 }
}

/// Where a message goes, given whether its window has an owner yet.
///
/// A creation message makes the window post itself a request to be shown.
/// Any other message goes to the event handler unchanged if the window has
/// an owner, and to default processing if it has none.
pub open spec fn routed(associated: bool, message: Message) -> Dispatch {
    if message.kind == WM_CREATE {
        Dispatch::Post { message: show_message(), result: 0 }
    } else if associated {
        Dispatch::Forward(message)
    } else {
        Dispatch::DefaultProcessing(message)
    }
}

/// Decides where a message goes, given whether its window has an owner yet.
pub fn route(associated: bool, message: Message) -> (d: Dispatch)
    ensures
        d == routed(associated, message),
{
    if message.kind == WM_CREATE {
        Dispatch::Post {
            message: Message { kind: WM_SHOWWINDOW, wparam: 0, lparam: 0 },
            result: 0,
        }
    } else if associated {
        Dispatch::Forward(message)
    } else {
        Dispatch::DefaultProcessing(message)
    }
}

/// One turn of the message pump.
#[derive(Clone, Copy, Debug, PartialEq, Eq, Structural)]
pub enum PumpStep {
    /// Translate the message, hand it to the event handler, and go on.
    Deliver(Message),
    /// The message source is gone: leave the pump.
    Shutdown,
}

/// What the pump does with the answer of one blocking retrieval.
pub open spec fn pumped(status: i32, message: Message) -> PumpStep {
    if status == SOURCE_GONE {
        PumpStep::Shutdown
    } else {
        PumpStep::Deliver(message)
    }
}

/// Every message that is not a creation message reaches the handler with the
/// kind and parameters it arrived with once the window has an owner, and
/// reaches default processing, equally unchanged, before that.
pub proof fn lemma_dispatch_round_trip(message: Message)
    requires
        message.kind != WM_CREATE,
    ensures
        routed(false, message) == Dispatch::DefaultProcessing(message),
        routed(true, message) == Dispatch::Forward(message),
{
}

} // verus!
