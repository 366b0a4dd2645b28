//! Dialog boxes
//!
//! Dialog boxes are pre-configured windows, usually allowing some
//! customisation.

use vstd::prelude::*;
use super::{CoreData, Label, TkAction};
use crate::control::TextButton;
use crate::event::{Response, VoidMsg};

verus! {

/// The message of a dialog box's button.
#[derive(Clone, Copy, Debug, PartialEq, Eq, Structural)]
pub enum DialogButton {
    Close,
}

/// When a window's callback is to be triggered.
#[derive(Clone, Copy, Debug, PartialEq, Eq, Structural)]
pub enum Callback {
    /// When the window opens
    Start,
    /// When the window opens, and from then on with the given period, in
    /// ticks of the clock
    Repeat(u64),
}

/// A simple message box: a title, a message and a button that closes it.
pub struct MessageBox<H> {
    core: CoreData,
    title: String,
    label: Label,
    button: TextButton<H>,
}

impl MessageBox<()> {
    /// A message box with the given title and message and a button
    /// labelled "Ok".
    pub fn new(title: &str, message: &str) -> (mb: MessageBox<impl Fn() -> DialogButton>)
        ensures
            mb.title_view() == title@,
            mb.message_view() == message@,
            mb.button_label() == "Ok",
            mb.core_data() == CoreData::initial(),
    {
        let close = || -> (b: DialogButton)
            ensures
                b == DialogButton::Close,
            { DialogButton::Close };
        MessageBox {
            core: CoreData::default(),
            title: title.to_string(),
            label: Label::new(message),
            button: TextButton::new("Ok", close),
        }
    }
}

impl<H> MessageBox<H> {
    /// The title of the window.
    pub closed spec fn title_view(&self) -> Seq<char> {
        self.title@
    }

    /// The message shown.
    pub closed spec fn message_view(&self) -> Seq<char> {
        self.label@
    }

    /// The label of the button.
    pub closed spec fn button_label(&self) -> &'static str {
        self.button.msg()
    }

    /// The widget's common data.
    pub closed spec fn core_data(&self) -> CoreData {
        self.core
    }

    /// Handles the message of the button: the window is to close. The
    /// response says that nothing is left to handle; the action is what the
    /// toolkit is asked to do.
    pub fn handle_button(&mut self, msg: DialogButton) -> (r: (Response<VoidMsg>, TkAction))
        ensures
            *final(self) == *old(self),
            r.0 is Nothing,
            r.1 == TkAction::Close,
    {
        match msg {
            DialogButton::Close => (Response::Nothing, TkAction::Close),
        }
    }

    /// The title of the window.
    pub fn title(&self) -> (t: &str)
        ensures
            t@ == self.title_view(),
    {
        self.title.as_str()
    }

    /// The message shown.
    pub fn message(&self) -> (t: &str)
        ensures
            t@ == self.message_view(),
    {
        self.label.get_text()
    }

    /// The callbacks of the window, each with its number: a message box has
    /// none.
    pub fn callbacks(&self) -> (list: Vec<(usize, Callback)>)
        ensures
            list@.len() == 0,
    {
        Vec::new()
    }

    /// Triggers the callback with the given number: a message box has none,
    /// so nothing happens.
    pub fn trigger_callback(&mut self, index: usize)
        ensures
            *final(self) == *old(self),
    {
    }
}

} // verus!
