//! Mapping of keyboard key codes to the characters they type.
//!
//! The mapping is an explicit table: punctuation and whitespace keys first,
//! then the letters `A`-`Z` (always typed in upper case), then the digits of
//! the number row and of the numeric keypad. Every other key types nothing.

use vstd::prelude::*;

use crate::resources::ChannelResource;
use crate::tasks::{PublishTask, TaskKind, TaskRegistry};
use crate::text::{erased, inserted, InputBox};

verus! {

/// The closed set of keys that the input source reports.
#[derive(Clone, Copy, Debug, PartialEq, Eq, Structural)]
pub enum KeyCode {
    Key1,
    Key2,
    Key3,
    Key4,
    Key5,
    Key6,
    Key7,
    Key8,
    Key9,
    Key0,
    A,
    B,
    C,
    D,
    E,
    F,
    G,
    H,
    I,
    J,
    K,
    L,
    M,
    N,
    O,
    P,
    Q,
    R,
    S,
    T,
    U,
    V,
    W,
    X,
    Y,
    Z,
    Escape,
    F1,
    F2,
    F3,
    F4,
    F5,
    F6,
    F7,
    F8,
    F9,
    F10,
    F11,
    F12,
    F13,
    F14,
    F15,
    F16,
    F17,
    F18,
    F19,
    F20,
    F21,
    F22,
    F23,
    F24,
    Snapshot,
    Scroll,
    Pause,
    Insert,
    Home,
    Delete,
    End,
    PageDown,
    PageUp,
    Left,
    Up,
    Right,
    Down,
    Back,
    Return,
    Space,
    Compose,
    Caret,
    Numlock,
    Numpad0,
    Numpad1,
    Numpad2,
    Numpad3,
    Numpad4,
    Numpad5,
    Numpad6,
    Numpad7,
    Numpad8,
    Numpad9,
    AbntC1,
    AbntC2,
    NumpadAdd,
    Apostrophe,
    Apps,
    Asterisk,
    Plus,
    At,
    Ax,
    Backslash,
    Calculator,
    Capital,
    Colon,
    Comma,
    Convert,
    NumpadDecimal,
    NumpadDivide,
    Equals,
    Grave,
    Kana,
    Kanji,
    LAlt,
    LBracket,
    LControl,
    LShift,
    LWin,
    Mail,
    MediaSelect,
    MediaStop,
    Minus,
    NumpadMultiply,
    Mute,
    MyComputer,
    NavigateForward,
    NavigateBackward,
    NextTrack,
    NoConvert,
    NumpadComma,
    NumpadEnter,
    NumpadEquals,
    Oem102,
    Period,
    PlayPause,
    Power,
    PrevTrack,
    RAlt,
    RBracket,
    RControl,
    RShift,
    RWin,
    Semicolon,
    Slash,
    Sleep,
    Stop,
    NumpadSubtract,
    Sysrq,
    Tab,
    Underline,
    Unlabeled,
    VolumeDown,
    VolumeUp,
    Wake,
    WebBack,
    WebFavorites,
    WebForward,
    WebHome,
    WebRefresh,
    WebSearch,
    WebStop,
    Yen,
    Copy,
    Paste,
    Cut,
}

/// The punctuation and whitespace table.
pub open spec fn special_character(key: KeyCode) -> Option<char> {
    match key {
        KeyCode::Space => Some(' '),
        KeyCode::Comma => Some(','),
        KeyCode::Period => Some('.'),
        KeyCode::Slash => Some('/'),
        KeyCode::Semicolon => Some(';'),
        KeyCode::Apostrophe => Some('\''),
        KeyCode::Backslash => Some('\\'),
        KeyCode::LBracket => Some('['),
        KeyCode::RBracket => Some(']'),
        KeyCode::Grave => Some('`'),
        KeyCode::Minus => Some('-'),
        KeyCode::Equals => Some('='),
        _ => None,
    }
}

/// The letter keys, typed in upper case.
pub open spec fn letter(key: KeyCode) -> Option<char> {
    match key {
        KeyCode::A => Some('A'),
        KeyCode::B => Some('B'),
        KeyCode::C => Some('C'),
        KeyCode::D => Some('D'),
        KeyCode::E => Some('E'),
        KeyCode::F => Some('F'),
        KeyCode::G => Some('G'),
        KeyCode::H => Some('H'),
        KeyCode::I => Some('I'),
        KeyCode::J => Some('J'),
        KeyCode::K => Some('K'),
        KeyCode::L => Some('L'),
        KeyCode::M => Some('M'),
        KeyCode::N => Some('N'),
        KeyCode::O => Some('O'),
        KeyCode::P => Some('P'),
        KeyCode::Q => Some('Q'),
        KeyCode::R => Some('R'),
        KeyCode::S => Some('S'),
        KeyCode::T => Some('T'),
        KeyCode::U => Some('U'),
        KeyCode::V => Some('V'),
        KeyCode::W => Some('W'),
        KeyCode::X => Some('X'),
        KeyCode::Y => Some('Y'),
        KeyCode::Z => Some('Z'),
        _ => None,
    }
}

/// The digit keys of the number row.
pub open spec fn row_digit(key: KeyCode) -> Option<char> {
    match key {
        KeyCode::Key0 => Some('0'),
        KeyCode::Key1 => Some('1'),
        KeyCode::Key2 => Some('2'),
        KeyCode::Key3 => Some('3'),
        KeyCode::Key4 => Some('4'),
        KeyCode::Key5 => Some('5'),
        KeyCode::Key6 => Some('6'),
        KeyCode::Key7 => Some('7'),
        KeyCode::Key8 => Some('8'),
        KeyCode::Key9 => Some('9'),
        _ => None,
    }
}

/// The digit keys of the numeric keypad.
pub open spec fn numpad_digit(key: KeyCode) -> Option<char> {
    match key {
        KeyCode::Numpad0 => Some('0'),
        KeyCode::Numpad1 => Some('1'),
        KeyCode::Numpad2 => Some('2'),
        KeyCode::Numpad3 => Some('3'),
        KeyCode::Numpad4 => Some('4'),
        KeyCode::Numpad5 => Some('5'),
        KeyCode::Numpad6 => Some('6'),
        KeyCode::Numpad7 => Some('7'),
        KeyCode::Numpad8 => Some('8'),
        KeyCode::Numpad9 => Some('9'),
        _ => None,
    }
}

/// A digit of either the number row or the keypad.
pub open spec fn digit(key: KeyCode) -> Option<char> {
    if row_digit(key) is Some {
        row_digit(key)
    } else {
        numpad_digit(key)
    }
}

/// The character that a key types: the first table that knows the key wins.
pub open spec fn key_character(key: KeyCode) -> Option<char> {
    if special_character(key) is Some {
        special_character(key)
    } else if letter(key) is Some {
        letter(key)
    } else {
        digit(key)
    }
}

/// Looks a key up in the punctuation and whitespace table.
pub fn special_characters_filter(key_code: &KeyCode) -> (r: Option<char>)
    ensures
        r == special_character(*key_code),
{
    match key_code {
        KeyCode::Space => Some(' '),
        KeyCode::Comma => Some(','),
        KeyCode::Period => Some('.'),
        KeyCode::Slash => Some('/'),
        KeyCode::Semicolon => Some(';'),
        KeyCode::Apostrophe => Some('\''),
        KeyCode::Backslash => Some('\\'),
        KeyCode::LBracket => Some('['),
        KeyCode::RBracket => Some(']'),
        KeyCode::Grave => Some('`'),
        KeyCode::Minus => Some('-'),
        KeyCode::Equals => Some('='),
        _ => None,
    }
}

/// The upper-case letter of a letter key.
pub fn letter_filter(key_code: &KeyCode) -> (r: Option<char>)
    ensures
        r == letter(*key_code),
        r is Some ==> 'A' <= r->0 <= 'Z',
{
    match key_code {
        KeyCode::A => Some('A'),
        KeyCode::B => Some('B'),
        KeyCode::C => Some('C'),
        KeyCode::D => Some('D'),
        KeyCode::E => Some('E'),
        KeyCode::F => Some('F'),
        KeyCode::G => Some('G'),
        KeyCode::H => Some('H'),
        KeyCode::I => Some('I'),
        KeyCode::J => Some('J'),
        KeyCode::K => Some('K'),
        KeyCode::L => Some('L'),
        KeyCode::M => Some('M'),
        KeyCode::N => Some('N'),
        KeyCode::O => Some('O'),
        KeyCode::P => Some('P'),
        KeyCode::Q => Some('Q'),
        KeyCode::R => Some('R'),
        KeyCode::S => Some('S'),
        KeyCode::T => Some('T'),
        KeyCode::U => Some('U'),
        KeyCode::V => Some('V'),
        KeyCode::W => Some('W'),
        KeyCode::X => Some('X'),
        KeyCode::Y => Some('Y'),
        KeyCode::Z => Some('Z'),
        _ => None,
    }
}

/// The digit of a number-row key or of a keypad key.
pub fn digits_filter(key_code: &KeyCode) -> (r: Option<char>)
    ensures
        r == digit(*key_code),
        r is Some ==> '0' <= r->0 <= '9',
{
    match key_code {
        KeyCode::Key0 | KeyCode::Numpad0 => Some('0'),
        KeyCode::Key1 | KeyCode::Numpad1 => Some('1'),
        KeyCode::Key2 | KeyCode::Numpad2 => Some('2'),
        KeyCode::Key3 | KeyCode::Numpad3 => Some('3'),
        KeyCode::Key4 | KeyCode::Numpad4 => Some('4'),
        KeyCode::Key5 | KeyCode::Numpad5 => Some('5'),
        KeyCode::Key6 | KeyCode::Numpad6 => Some('6'),
        KeyCode::Key7 | KeyCode::Numpad7 => Some('7'),
        KeyCode::Key8 | KeyCode::Numpad8 => Some('8'),
        KeyCode::Key9 | KeyCode::Numpad9 => Some('9'),
        _ => None,
    }
}

/// The character that a key types, if any.
///
/// Every key of the punctuation table types exactly its listed character,
/// and a key that is in none of the tables types nothing.
pub fn characters_filter(key_code: KeyCode) -> (r: Option<char>)
    ensures
        r == key_character(key_code),
        special_character(key_code) is Some ==> r == special_character(key_code),
        letter(key_code) is Some ==> r == letter(key_code),
        digit(key_code) is Some ==> r == digit(key_code),
        special_character(key_code) is None && letter(key_code) is None && digit(key_code) is None
            ==> r is None,
{
    match special_characters_filter(&key_code) {
        Some(c) => Some(c),
        None => match letter_filter(&key_code) {
            Some(c) => Some(c),
            None => digits_filter(&key_code),
        },
    }
}

/// One key event of the input source.
pub struct KeyboardInput {
    /// The key, when the source could name it.
    pub key_code: Option<KeyCode>,
    /// A press; `false` for a release.
    pub pressed: bool,
}

/// Text, caret and the messages committed so far, after one more event.
///
/// Releases and unnamed keys change nothing. `Return` commits a non-empty
/// text, clearing the entry, and does nothing on an empty one. `Back`
/// deletes before the caret. Any other key types its character, if it has one.
pub open spec fn after_key(
    state: (Seq<char>, nat, Seq<Seq<char>>),
    event: KeyboardInput,
) -> (Seq<char>, nat, Seq<Seq<char>>) {
    let (text, cursor, sent) = state;
    if !event.pressed || event.key_code is None {
        state
    } else {
        match event.key_code->0 {
            KeyCode::Return => if text.len() == 0 {
                state
            } else {
                (Seq::<char>::empty(), 0, sent.push(text))
            },
            KeyCode::Back => (erased(text, cursor).0, erased(text, cursor).1, sent),
            k => match key_character(k) {
                Some(c) => (inserted(text, cursor, c).0, inserted(text, cursor, c).1, sent),
                None => state,
            },
        }
    }
}

/// Text, caret and committed messages after a sequence of events, applied in order.
pub open spec fn after_keys(
    text: Seq<char>,
    cursor: nat,
    events: Seq<KeyboardInput>,
) -> (Seq<char>, nat, Seq<Seq<char>>)
    decreases events.len(),
{
    if events.len() == 0 {
        (text, cursor, Seq::<Seq<char>>::empty())
    } else {
        after_key(after_keys(text, cursor, events.drop_last()), events.last())
    }
}

/// The registry gained, in order and under consecutive handles, one publish
/// operation for each of `messages`, on `channel`.
pub open spec fn enqueued_publishes(
    before: &TaskRegistry,
    after: &TaskRegistry,
    messages: Seq<Seq<char>>,
    channel: Seq<char>,
) -> bool {
    let n = before.pending_view().len();
    &&& after.next_handle_view() == before.next_handle_view() + messages.len()
    &&& after.pending_view().len() == n + messages.len()
    &&& after.pending_view().take(n as int) == before.pending_view()
    &&& forall|k: int|
        0 <= k < messages.len() ==> {
            &&& (#[trigger] after.pending_view()[n + k]).handle == before.next_handle_view() + k
            &&& after.pending_view()[n + k].kind matches TaskKind::Publish(p) && p.message@
                == messages[k] && p.channel@ == channel
        }
}

/// Applies one frame's key events to the input box, in the order received.
///
/// Each committed text is enqueued as one publish operation on `channel`.
pub fn keyboard_handler(
    events: &Vec<KeyboardInput>,
    input: &mut InputBox,
    channel: &ChannelResource,
    registry: &mut TaskRegistry,
)
    requires
        old(input).wf(),
        old(registry).wf(),
        old(registry).has_room(events@.len()),
        old(input).text_view().len() + events@.len() + 1 < usize::MAX,
    ensures
        final(input).wf(),
        final(registry).wf(),
        ({
            let r = after_keys(old(input).text_view(), old(input).cursor_view(), events@);
            &&& final(input).text_view() == r.0
            &&& final(input).cursor_view() == r.1
            &&& enqueued_publishes(old(registry), final(registry), r.2, channel.0@)
        }),
{
    let ghost text0 = input.text_view();
    let ghost cursor0 = input.cursor_view();
    let ghost reg0 = *registry;
    let ghost n0 = reg0.pending_view().len();
    let mut i: usize = 0;
    assert(events@.take(0) =~= Seq::<KeyboardInput>::empty());
    assert(reg0.pending_view().take(n0 as int) =~= reg0.pending_view());
    while i < events.len()
        invariant
            i <= events@.len(),
            n0 == reg0.pending_view().len(),
            input.wf(),
            registry.wf(),
            input.text_view().len() <= text0.len() + i,
            text0.len() + events@.len() + 1 < usize::MAX,
            reg0.has_room(events@.len()),
            ({
                let r = after_keys(text0, cursor0, events@.take(i as int));
                &&& input.text_view() == r.0
                &&& input.cursor_view() == r.1
                &&& r.2.len() <= i
                &&& enqueued_publishes(&reg0, registry, r.2, channel.0@)
            }),
        decreases events@.len() - i,
    {
        let ghost before = after_keys(text0, cursor0, events@.take(i as int));
        let ghost reg1 = *registry;
        assert(events@.take(i + 1).drop_last() =~= events@.take(i as int));
        let event = &events[i];
        if event.pressed {
            match event.key_code {
                Some(KeyCode::Return) => {
                    if !input.is_empty() {
                        let message = input.take_text();
                        let h = registry.enqueue(
                            TaskKind::Publish(PublishTask { message, channel: channel.0.clone() }),
                        );
                        proof {
                            let sent = before.2.push(before.0);
                            assert(registry.pending_view() == reg1.pending_view().push(
                                registry.pending_view()[(n0 + before.2.len()) as int],
                            ));
                            assert(registry.pending_view().take(n0 as int) =~= reg1.pending_view().take(
                                n0 as int,
                            ));
                            assert forall|k: int| 0 <= k < sent.len() implies {
                                &&& (#[trigger] registry.pending_view()[n0 + k]).handle
                                    == reg0.next_handle_view() + k
                                &&& registry.pending_view()[n0 + k].kind matches TaskKind::Publish(p)
                                    && p.message@ == sent[k] && p.channel@ == channel.0@
                            } by {
                                if k < before.2.len() {
                                    assert(registry.pending_view()[n0 + k] == reg1.pending_view()[n0
                                        + k]);
                                }
                            }
                        }
                    }
                },
                Some(KeyCode::Back) => {
                    input.backspace();
                },
                Some(k) => {
                    match characters_filter(k) {
                        Some(c) => {
                            input.insert(c);
                        },
                        None => {},
                    }
                },
                None => {},
            }
        }
        i = i + 1;
    }
    assert(events@.take(i as int) =~= events@);
}

} // verus!
