//! Control widgets accept simple input

use vstd::prelude::*;
use crate::event::{ignore, Action, NoResponse};
use crate::widget::{Class, CoreData};

pub mod button;

verus! {

/// A push button with a text label. `H` is the handler called on a click.
#[derive(Clone)]
pub struct TextButton<H> {
    core: CoreData,
    msg: &'static str,
    handler: H,
}

impl<H> TextButton<H> {
    /// The label.
    pub closed spec fn msg(&self) -> &'static str {
        self.msg
    }

    /// The handler called on a click.
    pub closed spec fn handler(&self) -> H {
        self.handler
    }

    /// The widget's common data.
    pub closed spec fn core_data(&self) -> CoreData {
        self.core
    }

    /// The number by which the toolkit addresses this widget.
    pub fn number(&self) -> (n: u32)
        ensures
            n == self.core_data().number,
    {
        self.core.number
    }

    /// The widget's kind.
    pub fn class(&self) -> (c: Class)
        ensures
            c == Class::Button,
    {
        Class::Button
    }

    /// The label.
    pub fn label(&self) -> (l: Option<&str>)
        ensures
            l == Some(self.msg()),
    {
        Some(self.msg)
    }

    /// The number of child widgets: a button has none.
    pub fn len(&self) -> (n: usize)
        ensures
            n == 0,
    {
        0
    }
}

impl<R, H: Fn() -> R> TextButton<H> {
    /// A button labelled `msg` that calls `handler` when it is clicked.
    pub fn new(msg: &'static str, handler: H) -> (b: Self)
        ensures
            b.msg() == msg,
            b.handler() == handler,
            b.core_data() == CoreData::initial(),
    {
        TextButton { core: CoreData::default(), msg, handler }
    }
}

impl<R: From<NoResponse>, H: Fn() -> R> TextButton<H> {
    /// Handles `action`, addressed to the widget with number `num`.
    ///
    /// A click on this button calls the handler and returns its response.
    /// Anything else, and anything addressed to another widget, is declined
    /// with the response type's "no response".
    pub fn handle_action(&mut self, action: Action, num: u32) -> (r: R)
        requires
            num == old(self).core_data().number && action == Action::ButtonClick ==> call_requires(
                old(self).handler(),
                (),
            ),
        ensures
            *final(self) == *old(self),
            num == old(self).core_data().number && action == Action::ButtonClick ==> call_ensures(
                old(self).handler(),
                (),
                r,
            ),
            !(num == old(self).core_data().number && action == Action::ButtonClick)
                ==> call_ensures(R::from, (NoResponse,), r),
    {
        if num != self.number() {
            return ignore(action);
        }
        match action {
            Action::ButtonClick => (self.handler)(),
            a => ignore(a),
        }
    }
}

} // verus!
