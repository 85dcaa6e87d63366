//! The input event translator: reads the front-end's JSON messages as input
//! events and turns each event into the control primitive that the session
//! engine takes.
//!
//! A message is one JSON object with a string member `type` that names the
//! event, and the members that the event needs:
//!
//! | `type`      | members                       |
//! |-------------|-------------------------------|
//! | `mousemove` | `x`, `y`                      |
//! | `mousedown` | `btn`, `x`, `y`               |
//! | `mouseup`   | `btn`, `x`, `y`               |
//! | `wheel`     | `delta_x`, `delta_y`          |
//! | `keydown`   | `key`                         |
//! | `keyup`     | `key`                         |
//!
//! Coordinates and deltas are integers of 32 bits with a sign; `btn` and `key`
//! are strings. Members beyond these are passed over. Of a member that a
//! message writes more than once, the one written last counts.

use crate::json::{
    find_i32, find_text, i32_member, json_object_members, members_view, read_object, text_member,
    JsonMember, JsonValue,
};
use crate::text::{lowercased, parse_i32, spec_parse_i32, str_equals, to_lowercase};
use vstd::prelude::*;
use vstd::string::*;

verus! {

/// Code of the left button in a pointer mask.
pub const BUTTON_LEFT: i32 = 1;

/// Code of the right button in a pointer mask.
pub const BUTTON_RIGHT: i32 = 2;

/// Code of the middle button in a pointer mask.
pub const BUTTON_MIDDLE: i32 = 4;

/// Action code of a pointer move.
pub const ACTION_MOVE: i32 = 0;

/// Action code of a button press.
pub const ACTION_DOWN: i32 = 1;

/// Action code of a button release.
pub const ACTION_UP: i32 = 2;

/// Action code of a wheel turn.
pub const ACTION_WHEEL: i32 = 3;

/// A pointer button as the front-end names it.
#[derive(Debug, Clone, Copy, PartialEq, Eq)]
pub enum MouseButton {
    Left,
    Right,
    Middle,
    /// Any name but `left`, `right` and `middle`.
    Unknown,
}

/// One event of the front-end's pointer or keyboard.
#[derive(Debug, PartialEq, Eq)]
pub enum InputEvent {
    PointerMove { x: i32, y: i32 },
    PointerDown { button: MouseButton, x: i32, y: i32 },
    PointerUp { button: MouseButton, x: i32, y: i32 },
    ScrollWheel { dx: i32, dy: i32 },
    KeyDown { key: String },
    KeyUp { key: String },
}

/// What an [`InputEvent`] holds, as mathematical values.
pub enum InputEventView {
    PointerMove { x: i32, y: i32 },
    PointerDown { button: MouseButton, x: i32, y: i32 },
    PointerUp { button: MouseButton, x: i32, y: i32 },
    ScrollWheel { dx: i32, dy: i32 },
    KeyDown { key: Seq<char> },
    KeyUp { key: Seq<char> },
}

impl View for InputEvent {
    type V = InputEventView;

    open spec fn view(&self) -> InputEventView {
        match *self {
            InputEvent::PointerMove { x, y } => InputEventView::PointerMove { x, y },
            InputEvent::PointerDown { button, x, y } => InputEventView::PointerDown {
                button,
                x,
                y,
            },
            InputEvent::PointerUp { button, x, y } => InputEventView::PointerUp { button, x, y },
            InputEvent::ScrollWheel { dx, dy } => InputEventView::ScrollWheel { dx, dy },
            InputEvent::KeyDown { key } => InputEventView::KeyDown { key: key@ },
            InputEvent::KeyUp { key } => InputEventView::KeyUp { key: key@ },
        }
    }
}

/// Why a message is no input event.
#[derive(Debug, Clone, Copy, PartialEq, Eq)]
pub enum ParseError {
    /// The text is not one JSON object: it is no JSON, or another JSON value
    /// than an object (`null`, a number, a string, an array), or an object
    /// with something after it.
    Malformed,
    /// The object has no string member `type`. An object without members is
    /// refused for this reason.
    MissingType,
    /// The member `type` names no known event.
    UnknownType,
    /// A member that the event needs is absent or of the wrong kind.
    InvalidField,
}

/// A named key of the remote-control protocol.
#[derive(Debug, Clone, Copy, PartialEq, Eq)]
pub enum ControlKey {
    Control,
    Shift,
    Alt,
    Meta,
    Return,
    Backspace,
    Tab,
    Escape,
    UpArrow,
    DownArrow,
    LeftArrow,
    RightArrow,
    Home,
    End,
    PageUp,
    PageDown,
    Insert,
    Delete,
    CapsLock,
    F1,
    F2,
    F3,
    F4,
    F5,
    F6,
    F7,
    F8,
    F9,
    F10,
    F11,
    F12,
}

/// What a key event carries: a named control key or a character code.
#[derive(Debug, Clone, Copy, PartialEq, Eq)]
pub enum KeyCode {
    Control(ControlKey),
    /// The code point of a character; never zero in a primitive that is sent.
    Chr(u32),
}

/// An action of the remote-control protocol.
#[derive(Debug, Clone, Copy, PartialEq, Eq)]
pub enum ControlPrimitive {
    /// A pointer update: the button code shifted left by three bits, joined
    /// with the action code, and the coordinates, or for a wheel the deltas.
    PointerUpdate { mask: i32, x: i32, y: i32 },
    /// A key going down (`press`) or up.
    KeyEvent { press: bool, code: KeyCode },
}

/// The button that a name stands for. Names are matched as they are written.
pub open spec fn spec_button(name: Seq<char>) -> MouseButton {
    if name == "left"@ {
        MouseButton::Left
    } else if name == "right"@ {
        MouseButton::Right
    } else if name == "middle"@ {
        MouseButton::Middle
    } else {
        MouseButton::Unknown
    }
}

/// The coordinates of a pointer event.
pub open spec fn spec_position(members: Seq<(Seq<char>, JsonValue)>) -> Option<(i32, i32)> {
    match (i32_member(members, "x"@), i32_member(members, "y"@)) {
        (Some(x), Some(y)) => Some((x, y)),
        _ => None,
    }
}

/// The event that a JSON object with these members stands for.
pub open spec fn spec_event(members: Seq<(Seq<char>, JsonValue)>) -> Result<
    InputEventView,
    ParseError,
> {
    match text_member(members, "type"@) {
        None => Err(ParseError::MissingType),
        Some(kind) => if kind == "mousemove"@ {
            match spec_position(members) {
                Some((x, y)) => Ok(InputEventView::PointerMove { x, y }),
                None => Err(ParseError::InvalidField),
            }
        } else if kind == "mousedown"@ {
            match (text_member(members, "btn"@), spec_position(members)) {
                (Some(name), Some((x, y))) => Ok(
                    InputEventView::PointerDown { button: spec_button(name), x, y },
                ),
                _ => Err(ParseError::InvalidField),
            }
        } else if kind == "mouseup"@ {
            match (text_member(members, "btn"@), spec_position(members)) {
                (Some(name), Some((x, y))) => Ok(
                    InputEventView::PointerUp { button: spec_button(name), x, y },
                ),
                _ => Err(ParseError::InvalidField),
            }
        } else if kind == "wheel"@ {
            match (i32_member(members, "delta_x"@), i32_member(members, "delta_y"@)) {
                (Some(dx), Some(dy)) => Ok(InputEventView::ScrollWheel { dx, dy }),
                _ => Err(ParseError::InvalidField),
            }
        } else if kind == "keydown"@ {
            match text_member(members, "key"@) {
                Some(key) => Ok(InputEventView::KeyDown { key }),
                None => Err(ParseError::InvalidField),
            }
        } else if kind == "keyup"@ {
            match text_member(members, "key"@) {
                Some(key) => Ok(InputEventView::KeyUp { key }),
                None => Err(ParseError::InvalidField),
            }
        } else {
            Err(ParseError::UnknownType)
        },
    }
}

/// The event that `text` stands for.
pub open spec fn spec_parse(text: Seq<char>) -> Result<InputEventView, ParseError> {
    match json_object_members(text) {
        None => Err(ParseError::Malformed),
        Some(members) => spec_event(members),
    }
}

/// The name by which a message announces `event` in its member `type`.
pub open spec fn event_type_name(event: InputEventView) -> Seq<char> {
    match event {
        InputEventView::PointerMove { .. } => "mousemove"@,
        InputEventView::PointerDown { .. } => "mousedown"@,
        InputEventView::PointerUp { .. } => "mouseup"@,
        InputEventView::ScrollWheel { .. } => "wheel"@,
        InputEventView::KeyDown { .. } => "keydown"@,
        InputEventView::KeyUp { .. } => "keyup"@,
    }
}

/// Every message is either read as an event of the kind that its member
/// `type` names, or refused with an error: reading is total, and no event
/// comes out under another name than the message gave.
pub proof fn lemma_parsed_event_matches_type(text: Seq<char>)
    ensures
        match spec_parse(text) {
            Ok(event) => json_object_members(text) matches Some(members) && text_member(
                members,
                "type"@,
            ) == Some(event_type_name(event)),
            Err(_) => true,
        },
{
}

/// The button that `name` stands for.
pub fn button_from_name(name: &str) -> (button: MouseButton)
    ensures
        button == spec_button(name@),
{
    if str_equals(name, "left") {
        MouseButton::Left
    } else if str_equals(name, "right") {
        MouseButton::Right
    } else if str_equals(name, "middle") {
        MouseButton::Middle
    } else {
        MouseButton::Unknown
    }
}

/// Reads the coordinates of a pointer event.
fn position_of(members: &Vec<JsonMember>) -> (position: Option<(i32, i32)>)
    ensures
        position == spec_position(members_view(members@)),
{
    match (find_i32(members, "x"), find_i32(members, "y")) {
        (Some(x), Some(y)) => Some((x, y)),
        _ => None,
    }
}

/// Reads the members of a JSON object as an input event.
pub fn event_from_members(members: &Vec<JsonMember>) -> (event: Result<InputEvent, ParseError>)
    ensures
        match event {
            Ok(e) => spec_event(members_view(members@)) == Ok::<InputEventView, ParseError>(e@),
            Err(error) => spec_event(members_view(members@)) == Err::<InputEventView, ParseError>(
                error,
            ),
        },
{
    let kind = match find_text(members, "type") {
        Some(kind) => kind,
        None => {
            return Err(ParseError::MissingType);
        },
    };
    if str_equals(kind, "mousemove") {
        match position_of(members) {
            Some((x, y)) => Ok(InputEvent::PointerMove { x, y }),
            None => Err(ParseError::InvalidField),
        }
    } else if str_equals(kind, "mousedown") {
        match (find_text(members, "btn"), position_of(members)) {
            (Some(name), Some((x, y))) => Ok(
                InputEvent::PointerDown { button: button_from_name(name), x, y },
            ),
            _ => Err(ParseError::InvalidField),
        }
    } else if str_equals(kind, "mouseup") {
        match (find_text(members, "btn"), position_of(members)) {
            (Some(name), Some((x, y))) => Ok(
                InputEvent::PointerUp { button: button_from_name(name), x, y },
            ),
            _ => Err(ParseError::InvalidField),
        }
    } else if str_equals(kind, "wheel") {
        match (find_i32(members, "delta_x"), find_i32(members, "delta_y")) {
            (Some(dx), Some(dy)) => Ok(InputEvent::ScrollWheel { dx, dy }),
            _ => Err(ParseError::InvalidField),
        }
    } else if str_equals(kind, "keydown") {
        match find_text(members, "key") {
            Some(key) => Ok(InputEvent::KeyDown { key: key.to_owned() }),
            None => Err(ParseError::InvalidField),
        }
    } else if str_equals(kind, "keyup") {
        match find_text(members, "key") {
            Some(key) => Ok(InputEvent::KeyUp { key: key.to_owned() }),
            None => Err(ParseError::InvalidField),
        }
    } else {
        Err(ParseError::UnknownType)
    }
}

/// Reads one text message of the front-end as an input event. Every text is
/// answered: with the event, or with the reason why it is none.
pub fn parse(text: &str) -> (event: Result<InputEvent, ParseError>)
    ensures
        match event {
            Ok(e) => spec_parse(text@) == Ok::<InputEventView, ParseError>(e@),
            Err(error) => spec_parse(text@) == Err::<InputEventView, ParseError>(error),
        },
        event matches Ok(e) ==> json_object_members(text@) matches Some(members) && text_member(
            members,
            "type"@,
        ) == Some(event_type_name(e@)),
{
    proof {
        lemma_parsed_event_matches_type(text@);
    }
    match read_object(text) {
        Some(members) => event_from_members(&members),
        None => Err(ParseError::Malformed),
    }
}

/// The control key that a lowercased key name stands for.
pub open spec fn named_control_key(lower: Seq<char>) -> Option<ControlKey> {
    if lower == "control"@ {
        Some(ControlKey::Control)
    } else if lower == "shift"@ {
        Some(ControlKey::Shift)
    } else if lower == "alt"@ {
        Some(ControlKey::Alt)
    } else if lower == "meta"@ {
        Some(ControlKey::Meta)
    } else if lower == "enter"@ {
        Some(ControlKey::Return)
    } else if lower == "backspace"@ {
        Some(ControlKey::Backspace)
    } else if lower == "tab"@ {
        Some(ControlKey::Tab)
    } else if lower == "escape"@ {
        Some(ControlKey::Escape)
    } else if lower == "arrowup"@ {
        Some(ControlKey::UpArrow)
    } else if lower == "arrowdown"@ {
        Some(ControlKey::DownArrow)
    } else if lower == "arrowleft"@ {
        Some(ControlKey::LeftArrow)
    } else if lower == "arrowright"@ {
        Some(ControlKey::RightArrow)
    } else if lower == "home"@ {
        Some(ControlKey::Home)
    } else if lower == "end"@ {
        Some(ControlKey::End)
    } else if lower == "pageup"@ {
        Some(ControlKey::PageUp)
    } else if lower == "pagedown"@ {
        Some(ControlKey::PageDown)
    } else if lower == "insert"@ {
        Some(ControlKey::Insert)
    } else if lower == "delete"@ {
        Some(ControlKey::Delete)
    } else if lower == "capslock"@ {
        Some(ControlKey::CapsLock)
    } else {
        None
    }
}

/// The function key of a number from 1 to 12.
pub open spec fn function_key_of(number: i32) -> Option<ControlKey> {
    if number == 1 {
        Some(ControlKey::F1)
    } else if number == 2 {
        Some(ControlKey::F2)
    } else if number == 3 {
        Some(ControlKey::F3)
    } else if number == 4 {
        Some(ControlKey::F4)
    } else if number == 5 {
        Some(ControlKey::F5)
    } else if number == 6 {
        Some(ControlKey::F6)
    } else if number == 7 {
        Some(ControlKey::F7)
    } else if number == 8 {
        Some(ControlKey::F8)
    } else if number == 9 {
        Some(ControlKey::F9)
    } else if number == 10 {
        Some(ControlKey::F10)
    } else if number == 11 {
        Some(ControlKey::F11)
    } else if number == 12 {
        Some(ControlKey::F12)
    } else {
        None
    }
}

/// The function key that a lowercased key name stands for: the letter `f`
/// followed by an integer from 1 to 12 in decimal digits. Since the name is
/// taken in lowercase, `F5` and `f5` name the same key.
pub open spec fn function_key(lower: Seq<char>) -> Option<ControlKey> {
    if lower.len() > 1 && lower[0] == 'f' {
        match spec_parse_i32(lower.subrange(1, lower.len() as int)) {
            Some(number) => function_key_of(number),
            None => None,
        }
    } else {
        None
    }
}

/// The key of the table of named keys that a lowercased key name stands for:
/// a control key by its name, or a function key by its number.
pub open spec fn table_key(lower: Seq<char>) -> Option<ControlKey> {
    match named_control_key(lower) {
        Some(named) => Some(named),
        None => function_key(lower),
    }
}

/// What a key event for the key `key` carries, where `lower` is the name in
/// lowercase, or `None` where there is nothing to send. The table of named
/// keys is asked first, with the name in lowercase; a name that is not in it
/// and is one character long stands for that character's code, unless that is
/// zero; every other name stands for nothing.
pub open spec fn spec_key_code(key: Seq<char>, lower: Seq<char>) -> Option<KeyCode> {
    match table_key(lower) {
        Some(named) => Some(KeyCode::Control(named)),
        None => if key.len() == 1 && key[0] != '\0' {
            Some(KeyCode::Chr(key[0] as u32))
        } else {
            None
        },
    }
}

/// The primitive of a key event, or `None` where the key maps to nothing.
pub open spec fn spec_key_primitive(key: Seq<char>, lower: Seq<char>, down: bool) -> Option<
    ControlPrimitive,
> {
    match spec_key_code(key, lower) {
        Some(code) => Some(ControlPrimitive::KeyEvent { press: down, code }),
        None => None,
    }
}

/// Key names are taken without regard to case: two names with the same
/// lowercase, such as `F5` and `f5` or `Enter` and `ENTER`, stand for the same
/// key of the table wherever the table has that lowercase.
pub proof fn lemma_table_keys_ignore_case(
    first: Seq<char>,
    second: Seq<char>,
    lower: Seq<char>,
    down: bool,
)
    requires
        table_key(lower) is Some,
    ensures
        spec_key_primitive(first, lower, down) == spec_key_primitive(second, lower, down),
        spec_key_primitive(first, lower, down) == Some(
            ControlPrimitive::KeyEvent { press: down, code: KeyCode::Control(table_key(lower)->0) },
        ),
{
}

/// The code of a button in a pointer mask; an unknown button has none.
pub open spec fn button_code(button: MouseButton) -> i32 {
    match button {
        MouseButton::Left => BUTTON_LEFT,
        MouseButton::Right => BUTTON_RIGHT,
        MouseButton::Middle => BUTTON_MIDDLE,
        MouseButton::Unknown => 0,
    }
}

/// The mask of a pointer update: the button's code in the bits from the
/// fourth up, the action in the three lowest.
pub open spec fn pointer_mask(code: i32, action: i32) -> i32 {
    (code << 3) | action
}

/// The key name of a key event; other events have none.
pub open spec fn event_key(event: InputEventView) -> Seq<char> {
    match event {
        InputEventView::KeyDown { key } => key,
        InputEventView::KeyUp { key } => key,
        _ => Seq::<char>::empty(),
    }
}

/// The primitive that `event` is translated to, where `lower` is the
/// lowercase of its key name, or `None` where nothing is to be sent.
pub open spec fn spec_translate(event: InputEventView, lower: Seq<char>) -> Option<
    ControlPrimitive,
> {
    match event {
        InputEventView::PointerMove { x, y } => Some(
            ControlPrimitive::PointerUpdate { mask: ACTION_MOVE, x, y },
        ),
        InputEventView::PointerDown { button, x, y } => Some(
            ControlPrimitive::PointerUpdate {
                mask: pointer_mask(button_code(button), ACTION_DOWN),
                x,
                y,
            },
        ),
        InputEventView::PointerUp { button, x, y } => Some(
            ControlPrimitive::PointerUpdate {
                mask: pointer_mask(button_code(button), ACTION_UP),
                x,
                y,
            },
        ),
        InputEventView::ScrollWheel { dx, dy } => Some(
            ControlPrimitive::PointerUpdate { mask: ACTION_WHEEL, x: dx, y: dy },
        ),
        InputEventView::KeyDown { key } => spec_key_primitive(key, lower, true),
        InputEventView::KeyUp { key } => spec_key_primitive(key, lower, false),
    }
}

/// Pressing the right button yields the right button's code shifted left by
/// three bits, joined with the action code of a press, and the coordinates
/// as they came.
pub proof fn lemma_right_button_down(x: i32, y: i32, lower: Seq<char>)
    ensures
        spec_translate(
            InputEventView::PointerDown { button: MouseButton::Right, x, y },
            lower,
        ) == Some(
            ControlPrimitive::PointerUpdate { mask: (BUTTON_RIGHT << 3) | ACTION_DOWN, x, y },
        ),
{
}

/// A pointer event of any button, the unknown one too, is translated to a
/// pointer update that carries its coordinates unchanged.
pub proof fn lemma_pointer_events_are_delivered(event: InputEventView, lower: Seq<char>)
    requires
        event is PointerMove || event is PointerDown || event is PointerUp
            || event is ScrollWheel,
    ensures
        spec_translate(event, lower) is Some,
        event matches InputEventView::PointerDown { button, x, y } ==> spec_translate(event, lower)
            == Some(
            ControlPrimitive::PointerUpdate {
                mask: pointer_mask(button_code(button), ACTION_DOWN),
                x,
                y,
            },
        ),
        event matches InputEventView::PointerUp { button, x, y } ==> spec_translate(event, lower)
            == Some(
            ControlPrimitive::PointerUpdate {
                mask: pointer_mask(button_code(button), ACTION_UP),
                x,
                y,
            },
        ),
{
}

/// The control key that the lowercased key name `lower` stands for.
pub fn control_key_by_name(lower: &str) -> (key: Option<ControlKey>)
    ensures
        key == named_control_key(lower@),
{
    if str_equals(lower, "control") {
        Some(ControlKey::Control)
    } else if str_equals(lower, "shift") {
        Some(ControlKey::Shift)
    } else if str_equals(lower, "alt") {
        Some(ControlKey::Alt)
    } else if str_equals(lower, "meta") {
        Some(ControlKey::Meta)
    } else if str_equals(lower, "enter") {
        Some(ControlKey::Return)
    } else if str_equals(lower, "backspace") {
        Some(ControlKey::Backspace)
    } else if str_equals(lower, "tab") {
        Some(ControlKey::Tab)
    } else if str_equals(lower, "escape") {
        Some(ControlKey::Escape)
    } else if str_equals(lower, "arrowup") {
        Some(ControlKey::UpArrow)
    } else if str_equals(lower, "arrowdown") {
        Some(ControlKey::DownArrow)
    } else if str_equals(lower, "arrowleft") {
        Some(ControlKey::LeftArrow)
    } else if str_equals(lower, "arrowright") {
        Some(ControlKey::RightArrow)
    } else if str_equals(lower, "home") {
        Some(ControlKey::Home)
    } else if str_equals(lower, "end") {
        Some(ControlKey::End)
    } else if str_equals(lower, "pageup") {
        Some(ControlKey::PageUp)
    } else if str_equals(lower, "pagedown") {
        Some(ControlKey::PageDown)
    } else if str_equals(lower, "insert") {
        Some(ControlKey::Insert)
    } else if str_equals(lower, "delete") {
        Some(ControlKey::Delete)
    } else if str_equals(lower, "capslock") {
        Some(ControlKey::CapsLock)
    } else {
        None
    }
}

/// The function key of `number`.
pub fn function_key_by_number(number: i32) -> (key: Option<ControlKey>)
    ensures
        key == function_key_of(number),
{
    match number {
        1 => Some(ControlKey::F1),
        2 => Some(ControlKey::F2),
        3 => Some(ControlKey::F3),
        4 => Some(ControlKey::F4),
        5 => Some(ControlKey::F5),
        6 => Some(ControlKey::F6),
        7 => Some(ControlKey::F7),
        8 => Some(ControlKey::F8),
        9 => Some(ControlKey::F9),
        10 => Some(ControlKey::F10),
        11 => Some(ControlKey::F11),
        12 => Some(ControlKey::F12),
        _ => None,
    }
}

/// The function key that the lowercased key name `lower` stands for.
pub fn function_key_by_name(lower: &str) -> (key: Option<ControlKey>)
    ensures
        key == function_key(lower@),
{
    let length: usize = lower.unicode_len();
    if length > 1 && lower.get_char(0) == 'f' {
        match parse_i32(lower.substring_char(1, length)) {
            Some(number) => function_key_by_number(number),
            None => None,
        }
    } else {
        None
    }
}

/// Builds the key event for the key named `key`, whose lowercase is `lower`,
/// or says with `None` that there is nothing to send.
pub fn key_event(key: &str, lower: &str, down: bool) -> (primitive: Option<ControlPrimitive>)
    ensures
        primitive == spec_key_primitive(key@, lower@, down),
{
    if let Some(named) = control_key_by_name(lower) {
        return Some(ControlPrimitive::KeyEvent { press: down, code: KeyCode::Control(named) });
    }
    if let Some(function) = function_key_by_name(lower) {
        return Some(ControlPrimitive::KeyEvent { press: down, code: KeyCode::Control(function) });
    }
    if key.unicode_len() == 1 {
        let c: char = key.get_char(0);
        if c != '\0' {
            return Some(ControlPrimitive::KeyEvent { press: down, code: KeyCode::Chr(c as u32) });
        }
    }
    None
}

/// Translates a key going down or up: the name is lowercased and looked up.
/// `None` says that the key maps to nothing and no event is to be sent.
pub fn send_key(key: &str, down: bool) -> (primitive: Option<ControlPrimitive>)
    ensures
        primitive == spec_key_primitive(key@, lowercased(key@), down),
{
    let lower = to_lowercase(key);
    key_event(key, lower.as_str(), down)
}

/// The code of `button` in a pointer mask.
pub fn code_of_button(button: MouseButton) -> (code: i32)
    ensures
        code == button_code(button),
{
    match button {
        MouseButton::Left => BUTTON_LEFT,
        MouseButton::Right => BUTTON_RIGHT,
        MouseButton::Middle => BUTTON_MIDDLE,
        MouseButton::Unknown => 0,
    }
}

/// Translates an input event to the control primitive that is sent for it.
/// Pointer events always yield one; a key event yields one unless the key
/// maps to nothing.
pub fn translate(event: &InputEvent) -> (primitive: Option<ControlPrimitive>)
    ensures
        primitive == spec_translate(event@, lowercased(event_key(event@))),
{
    match event {
        InputEvent::PointerMove { x, y } => Some(
            ControlPrimitive::PointerUpdate { mask: ACTION_MOVE, x: *x, y: *y },
        ),
        InputEvent::PointerDown { button, x, y } => {
            let code = code_of_button(*button);
            Some(ControlPrimitive::PointerUpdate { mask: (code << 3) | ACTION_DOWN, x: *x, y: *y })
        },
        InputEvent::PointerUp { button, x, y } => {
            let code = code_of_button(*button);
            Some(ControlPrimitive::PointerUpdate { mask: (code << 3) | ACTION_UP, x: *x, y: *y })
        },
        InputEvent::ScrollWheel { dx, dy } => Some(
            ControlPrimitive::PointerUpdate { mask: ACTION_WHEEL, x: *dx, y: *dy },
        ),
        InputEvent::KeyDown { key } => send_key(key.as_str(), true),
        InputEvent::KeyUp { key } => send_key(key.as_str(), false),
    }
}

} // verus!
