//! Events delivered to widgets, and the responses widgets give.

use vstd::prelude::*;

pub mod response;

pub use response::Response;

verus! {

/// A high-level input action, addressed to one widget.
#[derive(Clone, Copy, Debug, PartialEq, Eq, Structural)]
pub enum Action {
    /// The widget was activated (for a text entry: the enter key).
    Activate,
    /// A button was clicked.
    ButtonClick,
}

/// An input event travelling through the widget tree.
#[derive(Clone, Copy, Debug, PartialEq, Eq, Structural)]
pub enum Event {
    /// A high-level action.
    Action(Action),
}

/// The message type of a widget that sends no message: a type without a
/// value.
pub enum VoidMsg {
    Never(core::convert::Infallible),
}

/// The response of a handler that has nothing to say.
#[derive(Clone, Copy, Debug, PartialEq, Eq, Structural)]
pub struct NoResponse;

/// Declines `action`: the response type's rendering of "no response".
pub fn ignore<R: From<NoResponse>>(action: Action) -> (r: R)
    ensures
        call_ensures(R::from, (NoResponse,), r),
{
    R::from(NoResponse)
}

} // verus!
