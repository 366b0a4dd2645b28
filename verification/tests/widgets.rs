use kas_wgpu::control::button::ok;
use kas_wgpu::control::TextButton;
use kas_wgpu::event::{ignore, Action, Event, NoResponse, Response};
use kas_wgpu::widget::dialog::DialogButton;
use kas_wgpu::widget::{Class, CoreData, Entry, Label, MessageBox, TkAction};
use kas_wgpu::ClosedError;

#[derive(Debug, PartialEq)]
enum Key {
    Nothing,
    Clear,
    Char(u8),
}

impl From<NoResponse> for Key {
    fn from(_: NoResponse) -> Self {
        Key::Nothing
    }
}

#[derive(Debug, PartialEq)]
struct Wide(u64);

impl From<u8> for Wide {
    fn from(n: u8) -> Self {
        Wide(n as u64 + 1000)
    }
}

fn is_unhandled<M>(r: &Response<M>, action: Action) -> bool {
    matches!(r, Response::Unhandled(Event::Action(a)) if *a == action)
}

#[test]
fn response_is_none() {
    assert!(Response::<u8>::Nothing.is_none());
    assert!(!Response::Msg(5u8).is_none());
    assert!(!Response::<u8>::unhandled_action(Action::Activate).is_none());
}

#[test]
fn response_unhandled_action_wraps_the_action() {
    let r: Response<u8> = Response::unhandled_action(Action::ButtonClick);
    assert!(is_unhandled(&r, Action::ButtonClick));
    assert!(!is_unhandled(&r, Action::Activate));
}

#[test]
fn response_from_converts_the_message() {
    let r: Response<Wide> = Response::from(Response::Msg(7u8));
    assert!(matches!(r, Response::Msg(Wide(1007))));
    let r: Response<Wide> = Response::from(Response::<u8>::Nothing);
    assert!(r.is_none());
    let r: Response<Wide> = Response::from(Response::<u8>::unhandled_action(Action::Activate));
    assert!(is_unhandled(&r, Action::Activate));
}

#[test]
fn response_into_converts_the_message() {
    let r: Response<Wide> = Response::Msg(7u8).into();
    assert!(matches!(r, Response::Msg(Wide(1007))));
    let r: Response<Wide> = Response::<u8>::Nothing.into();
    assert!(r.is_none());
    let r: Response<Wide> = Response::<u8>::unhandled_action(Action::ButtonClick).into();
    assert!(is_unhandled(&r, Action::ButtonClick));
}

#[test]
fn response_try_from_fails_on_a_message() {
    let r: Result<Response<String>, u8> = Response::try_from(Response::Msg(7u8));
    assert!(matches!(r, Err(7)));
    let r: Result<Response<String>, u8> = Response::try_from(Response::Nothing);
    assert!(matches!(r, Ok(Response::Nothing)));
    let r: Result<Response<String>, u8> =
        Response::try_from(Response::unhandled_action(Action::Activate));
    assert!(matches!(r, Ok(Response::Unhandled(Event::Action(Action::Activate)))));
}

#[test]
fn response_try_into_fails_on_a_message() {
    let r: Result<Response<String>, u8> = Response::Msg(7u8).try_into();
    assert!(matches!(r, Err(7)));
    let r: Result<Response<String>, u8> = Response::<u8>::Nothing.try_into();
    assert!(matches!(r, Ok(Response::Nothing)));
    let r: Result<Response<String>, u8> =
        Response::<u8>::unhandled_action(Action::ButtonClick).try_into();
    assert!(matches!(r, Ok(Response::Unhandled(Event::Action(Action::ButtonClick)))));
}

#[test]
fn response_from_a_message() {
    let r: Response<u8> = From::from(9u8);
    assert!(matches!(r, Response::Msg(9)));
}

#[test]
fn ignore_gives_no_response() {
    let k: Key = ignore(Action::Activate);
    assert_eq!(k, Key::Nothing);
}

#[test]
fn text_button_new_and_label() {
    let b = TextButton::new("clear", || Key::Clear);
    assert_eq!(b.label(), Some("clear"));
    assert_eq!(b.class(), Class::Button);
    assert_eq!(b.len(), 0);
    assert_eq!(b.number(), 0);
}

#[test]
fn text_button_click_calls_the_handler() {
    let mut b = TextButton::new("7", || Key::Char(55));
    let n = b.number();
    assert_eq!(b.handle_action(Action::ButtonClick, n), Key::Char(55));
    assert_eq!(b.handle_action(Action::ButtonClick, n), Key::Char(55));
    // another action, or another widget's number, is declined
    assert_eq!(b.handle_action(Action::Activate, n), Key::Nothing);
    assert_eq!(b.handle_action(Action::ButtonClick, n + 1), Key::Nothing);
    assert_eq!(b.label(), Some("7"));
}

#[test]
fn ok_button_is_labelled_ok() {
    let mut b = ok(|| Key::Clear);
    assert_eq!(b.label(), Some("Ok"));
    assert_eq!(b.handle_action(Action::ButtonClick, 0), Key::Clear);
}

#[test]
fn label_holds_its_text() {
    let mut l = Label::new("0");
    assert_eq!(l.get_text(), "0");
    assert_eq!(l.class(), Class::Label);
    assert_eq!(l.set_string("17".to_string()), TkAction::Redraw);
    assert_eq!(l.get_text(), "17");
    let l = Label::new("");
    assert_eq!(l.get_text(), "");
}

#[test]
fn entry_new_is_editable() {
    let e = Entry::new("abc".to_string());
    assert_eq!(e.get_text(), "abc");
    assert!(e.is_editable());
    assert_eq!(e.class(), Class::Entry);
}

#[test]
fn entry_editable_sets_the_flag() {
    let e = Entry::new("abc".to_string()).editable(false);
    assert!(!e.is_editable());
    assert_eq!(e.get_text(), "abc");
    let mut e = e.editable(true);
    assert!(e.is_editable());
    e.set_editable(false);
    assert!(!e.is_editable());
    assert_eq!(e.set_string("xyz".to_string()), TkAction::Redraw);
    assert_eq!(e.get_text(), "xyz");
    assert!(!e.is_editable());
}

#[test]
fn entry_without_handler_accepts_activation() {
    let mut e = Entry::new("abc".to_string());
    assert!(e.handle_action(Action::Activate).is_none());
    let r = e.handle_action(Action::ButtonClick);
    assert!(is_unhandled(&r, Action::ButtonClick));
    assert_eq!(e.get_text(), "abc");
}

#[test]
fn entry_on_activate_calls_the_handler() {
    let mut e = Entry::new("abc".to_string()).editable(false).on_activate(|| Key::Char(13));
    assert_eq!(e.get_text(), "abc");
    assert!(!e.is_editable());
    assert!(matches!(e.handle_action(Action::Activate), Response::Msg(Key::Char(13))));
    let r = e.handle_action(Action::ButtonClick);
    assert!(is_unhandled(&r, Action::ButtonClick));
}

#[test]
fn toolkit_action_max_takes_the_weightier() {
    let all = [
        TkAction::Nothing,
        TkAction::Redraw,
        TkAction::Reconfigure,
        TkAction::Close,
        TkAction::CloseAll,
    ];
    for (i, a) in all.iter().enumerate() {
        for (j, b) in all.iter().enumerate() {
            let expected = if i >= j { *a } else { *b };
            assert_eq!(a.max(*b), expected);
        }
    }
}

#[test]
fn core_data_default_is_unconfigured() {
    let c = CoreData::default();
    assert_eq!(c.number, 0);
    assert_eq!(c.rect.size.0, 0);
    assert_eq!(c.rect.pos.1, 0);
}

#[test]
fn closed_error_is_a_unit() {
    let e: Result<(), ClosedError> = Err(ClosedError);
    assert_eq!(e, Err(ClosedError));
}

#[test]
fn message_box_closes_on_its_button() {
    let mut mb = MessageBox::new("Warning", "Disk full");
    assert_eq!(mb.title(), "Warning");
    assert_eq!(mb.message(), "Disk full");
    assert!(mb.callbacks().is_empty());
    mb.trigger_callback(0);
    let (response, action) = mb.handle_button(DialogButton::Close);
    assert!(response.is_none());
    assert_eq!(action, TkAction::Close);
    assert_eq!(mb.title(), "Warning");
}

#[test]
fn label_from_a_string() {
    let l = Label::from("0".to_string());
    assert_eq!(l.get_text(), "0");
    assert_eq!(l.class(), Class::Label);
}
