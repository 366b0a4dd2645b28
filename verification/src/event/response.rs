//! The response type of event handlers.

use vstd::prelude::*;
use vstd::std_specs::convert::FromSpecImpl;
use super::{Action, Event};

verus! {

/// What a handler answers to an event: nothing, the event handed back
/// unhandled, or a message of the widget's own type `M`.
#[derive(Clone, Debug)]
#[must_use]
pub enum Response<M> {
    /// No action
    Nothing,
    /// Unhandled input events get returned back up the widget tree
    Unhandled(Event),
    /// Custom message type
    Msg(M),
}

impl<M> Response<M> {
    /// True if variant is `Nothing`
    #[inline]
    pub fn is_none(&self) -> (b: bool)
        ensures
            b == (*self is Nothing),
    {
        match self {
            Response::Nothing => true,
            _ => false,
        }
    }

    /// Produce the `Unhandled` variant from an [`Action`]
    #[inline]
    pub fn unhandled_action(action: Action) -> (r: Self)
        ensures
            r == Response::<M>::Unhandled(Event::Action(action)),
    {
        Response::Unhandled(Event::Action(action))
    }

    /// Map from one `Response` type to another, converting the message
    /// with `M::from`.
    #[inline]
    pub fn from<N>(r: Response<N>) -> (out: Self) where M: From<N>
        ensures
            r is Nothing ==> out is Nothing,
            r matches Response::Unhandled(e) ==> out == Response::<M>::Unhandled(e),
            r matches Response::Msg(n) ==> out is Msg && call_ensures(M::from, (n,), out->Msg_0),
    {
        match Response::<M>::try_from(r) {
            Ok(out) => out,
            Err(msg) => Response::Msg(M::from(msg)),
        }
    }

    /// Map one `Response` type into another, converting the message with
    /// `N::from`.
    #[inline]
    pub fn into<N>(self) -> (out: Response<N>) where N: From<M>
        ensures
            self is Nothing ==> out is Nothing,
            self matches Response::Unhandled(e) ==> out == Response::<N>::Unhandled(e),
            self matches Response::Msg(m) ==> out is Msg && call_ensures(N::from, (m,), out->Msg_0),
    {
        Response::from(self)
    }

    /// Try mapping from one `Response` type to another, failing on `Msg`
    /// variant and returning the payload.
    #[inline]
    pub fn try_from<N>(r: Response<N>) -> (out: Result<Self, N>)
        ensures
            out == match r {
                Response::Nothing => Ok::<Self, N>(Response::Nothing),
                Response::Unhandled(e) => Ok(Response::Unhandled(e)),
                Response::Msg(n) => Err(n),
            },
    {
        match r {
            Response::Nothing => Ok(Response::Nothing),
            Response::Unhandled(e) => Ok(Response::Unhandled(e)),
            Response::Msg(m) => Err(m),
        }
    }

    /// Try mapping one `Response` type into another, failing on `Msg`
    /// variant and returning the payload.
    #[inline]
    pub fn try_into<N>(self) -> (out: Result<Response<N>, M>)
        ensures
            out == match self {
                Response::Nothing => Ok::<Response<N>, M>(Response::Nothing),
                Response::Unhandled(e) => Ok(Response::Unhandled(e)),
                Response::Msg(m) => Err(m),
            },
    {
        Response::try_from(self)
    }
}

impl<M> From<M> for Response<M> {
    fn from(msg: M) -> (r: Self) {
        Response::Msg(msg)
    }
}

impl<M> FromSpecImpl<M> for Response<M> {
    open spec fn obeys_from_spec() -> bool {
        true
    }

    open spec fn from_spec(msg: M) -> Self {
        Response::Msg(msg)
    }
}

} // verus!
