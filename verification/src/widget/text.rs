//! Text widgets

use vstd::prelude::*;
use vstd::std_specs::convert::FromSpecImpl;
use super::{Class, CoreData, TkAction};
use crate::event::{Action, Response};

verus! {

/// A simple text label
#[derive(Clone, Debug)]
pub struct Label {
    core: CoreData,
    text: String,
}

impl Label {
    /// The text shown.
    pub closed spec fn view(&self) -> Seq<char> {
        self.text@
    }

    /// The widget's common data.
    pub closed spec fn core_data(&self) -> CoreData {
        self.core
    }

    /// Construct a new instance showing `text`
    pub fn new(text: &str) -> (l: Label)
        ensures
            l@ == text@,
            l.core_data() == CoreData::initial(),
    {
        Label { core: CoreData::default(), text: text.to_string() }
    }

    /// The widget's kind.
    pub fn class(&self) -> (c: Class)
        ensures
            c == Class::Label,
    {
        Class::Label
    }

    /// The text shown.
    pub fn get_text(&self) -> (s: &str)
        ensures
            s@ == self@,
    {
        self.text.as_str()
    }

    /// Replaces the text. The label then has to be drawn again, which the
    /// returned action asks of the toolkit.
    pub fn set_string(&mut self, text: String) -> (action: TkAction)
        ensures
            final(self)@ == text@,
            final(self).core_data() == old(self).core_data(),
            action == TkAction::Redraw,
    {
        self.text = text;
        TkAction::Redraw
    }
}

impl From<String> for Label {
    /// A label showing `text`
    fn from(text: String) -> (l: Label)
        ensures
            l@ == text@,
            l.core_data() == CoreData::initial(),
    {
        Label { core: CoreData::default(), text }
    }
}

impl FromSpecImpl<String> for Label {
    open spec fn obeys_from_spec() -> bool {
        true
    }

    closed spec fn from_spec(text: String) -> Label {
        Label { core: CoreData::initial(), text }
    }
}

/// An editable, single-line text box.
///
/// `H` is the handler called on activation; `()` stands for none.
#[derive(Clone)]
pub struct Entry<H> {
    core: CoreData,
    editable: bool,
    text: String,
    on_activate: H,
}

impl Entry<()> {
    /// Construct an `Entry` with the given inital `text`.
    pub fn new(text: String) -> (e: Self)
        ensures
            e@ == text@,
            e.spec_editable(),
            e.core_data() == CoreData::initial(),
    {
        Entry { core: CoreData::default(), editable: true, text, on_activate: () }
    }

    /// Set the event handler to be called on activation.
    ///
    /// The closure `f` is called when the `Entry` is activated (when the
    /// "enter" key is pressed). Its result is returned from the event handler.
    ///
    /// Technically, this consumes `self` and reconstructs another `Entry`
    /// with a different parameterisation.
    pub fn on_activate<R, H: Fn() -> R>(self, f: H) -> (e: Entry<H>)
        ensures
            e@ == self@,
            e.spec_editable() == self.spec_editable(),
            e.core_data() == self.core_data(),
            e.handler() == f,
    {
        Entry { core: self.core, editable: self.editable, text: self.text, on_activate: f }
    }

    /// Handles `action`. Without a handler an activation is accepted and
    /// has no effect; any other action is handed back.
    pub fn handle_action(&mut self, action: Action) -> (r: Response<()>)
        ensures
            *final(self) == *old(self),
            r == if action == Action::Activate {
                Response::<()>::Nothing
            } else {
                Response::<()>::Unhandled(crate::event::Event::Action(action))
            },
    {
        match action {
            Action::Activate => Response::Nothing,
            a => Response::unhandled_action(a),
        }
    }
}

impl<H> Entry<H> {
    /// The text held.
    pub closed spec fn view(&self) -> Seq<char> {
        self.text@
    }

    /// Whether the user may edit the text.
    pub closed spec fn spec_editable(&self) -> bool {
        self.editable
    }

    /// The widget's common data.
    pub closed spec fn core_data(&self) -> CoreData {
        self.core
    }

    /// The handler called on activation.
    pub closed spec fn handler(&self) -> H {
        self.on_activate
    }

    /// Set whether this `Entry` is editable.
    pub fn editable(self, editable: bool) -> (e: Self)
        ensures
            e.spec_editable() == editable,
            e@ == self@,
            e.core_data() == self.core_data(),
            e.handler() == self.handler(),
    {
        Entry { core: self.core, editable, text: self.text, on_activate: self.on_activate }
    }

    /// The widget's kind.
    pub fn class(&self) -> (c: Class)
        ensures
            c == Class::Entry,
    {
        Class::Entry
    }

    /// The text held.
    pub fn get_text(&self) -> (s: &str)
        ensures
            s@ == self@,
    {
        self.text.as_str()
    }

    /// Replaces the text. The entry then has to be drawn again, which the
    /// returned action asks of the toolkit.
    pub fn set_string(&mut self, text: String) -> (action: TkAction)
        ensures
            final(self)@ == text@,
            final(self).spec_editable() == old(self).spec_editable(),
            final(self).core_data() == old(self).core_data(),
            final(self).handler() == old(self).handler(),
            action == TkAction::Redraw,
    {
        self.text = text;
        TkAction::Redraw
    }

    /// Whether the user may edit the text.
    pub fn is_editable(&self) -> (b: bool)
        ensures
            b == self.spec_editable(),
    {
        self.editable
    }

    /// Set whether the user may edit the text.
    pub fn set_editable(&mut self, editable: bool)
        ensures
            final(self).spec_editable() == editable,
            final(self)@ == old(self)@,
            final(self).core_data() == old(self).core_data(),
            final(self).handler() == old(self).handler(),
    {
        self.editable = editable;
    }
}

impl<M, H: Fn() -> M> Entry<H> {
    /// Handles `action`. An activation calls the handler and answers with
    /// its message; any other action is handed back.
    pub fn handle_action(&mut self, action: Action) -> (r: Response<M>)
        requires
            action == Action::Activate ==> call_requires(old(self).handler(), ()),
        ensures
            *final(self) == *old(self),
            action == Action::Activate ==> r is Msg && call_ensures(
                old(self).handler(),
                (),
                r->Msg_0,
            ),
            action != Action::Activate ==> r == Response::<M>::Unhandled(
                crate::event::Event::Action(action),
            ),
    {
        match action {
            Action::Activate => Response::Msg((self.on_activate)()),
            a => Response::unhandled_action(a),
        }
    }
}

} // verus!
