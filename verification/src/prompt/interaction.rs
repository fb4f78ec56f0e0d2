//! What a prompt is told about the keyboard and what it reports back.

use vstd::prelude::*;

verus! {

/// A key as the terminal layer reports it.
#[verifier::external_type_specification]
#[verifier::external_body]
pub struct ExKey(console::Key);

/// Something that happened while the prompt was shown.
pub enum Event {
    /// A key was pressed.
    Key(console::Key),
}

/// Where a prompt stands after an event.
pub enum State<T> {
    /// The prompt goes on reading keys.
    Active,
    /// The prompt ends without a value.
    Cancel,
    /// The prompt ends with a value.
    Submit(T),
    /// The input was refused with a message; the prompt goes on reading keys.
    Error(String),
}

/// A [`State`] with its message as plain text.
pub enum Outcome<T> {
    Active,
    Cancel,
    Submit(T),
    Error(Seq<char>),
}

impl<T> View for State<T> {
    type V = Outcome<T>;

    open spec fn view(&self) -> Outcome<T> {
        match *self {
            State::Active => Outcome::Active,
            State::Cancel => Outcome::Cancel,
            State::Submit(value) => Outcome::Submit(value),
            State::Error(message) => Outcome::Error(message@),
        }
    }
}

/// The keys that a text prompt tells apart.
#[derive(Clone, Copy, PartialEq, Eq, Debug, Structural)]
pub enum KeyPress {
    /// A character key.
    Char(char),
    Enter,
    Escape,
    Backspace,
    Tab,
    ArrowUp,
    ArrowDown,
    /// Any other key.
    Other,
}

/// Which of the keys that a text prompt tells apart `key` is.
pub uninterp spec fn key_press(key: console::Key) -> KeyPress;

/// Tells the variants of `console::Key` apart: each of `Char`, `Enter`,
/// `Escape`, `Backspace`, `Tab`, `ArrowUp` and `ArrowDown` becomes the
/// variant of the same name, a `Char` with its character, and every other
/// key `Other`.
#[verifier::external_body]
fn classify(key: &console::Key) -> (press: KeyPress)
    ensures
        press == key_press(*key),
{
    match key {
        console::Key::Char(chr) => KeyPress::Char(*chr),
        console::Key::Enter => KeyPress::Enter,
        console::Key::Escape => KeyPress::Escape,
        console::Key::Backspace => KeyPress::Backspace,
        console::Key::Tab => KeyPress::Tab,
        console::Key::ArrowUp => KeyPress::ArrowUp,
        console::Key::ArrowDown => KeyPress::ArrowDown,
        _ => KeyPress::Other,
    }
}

impl Event {
    /// The key of the event, as a text prompt tells keys apart.
    pub open spec fn press(self) -> KeyPress {
        key_press(self->Key_0)
    }

    /// The key of the event, as a text prompt tells keys apart.
    pub fn key_press(&self) -> (press: KeyPress)
        ensures
            press == self.press(),
    {
        match self {
            Event::Key(key) => classify(key),
        }
    }
}

/// Whether `chr` is an ASCII control character: U+0000 to U+001F, or U+007F.
pub open spec fn is_control(chr: char) -> bool {
    chr as u32 <= 0x1f || chr as u32 == 0x7f
}

impl KeyPress {
    /// The character of a key that types one: a `Char` that is no control
    /// character.
    pub open spec fn typed(self) -> Option<char> {
        match self {
            KeyPress::Char(chr) if !is_control(chr) => Some(chr),
            _ => None,
        }
    }

    /// The character that the key types, if it types one.
    pub fn printable(&self) -> (chr: Option<char>)
        ensures
            chr == self.typed(),
    {
        match self {
            KeyPress::Char(chr) => {
                if *chr <= '\u{1f}' || *chr == '\u{7f}' {
                    None
                } else {
                    Some(*chr)
                }
            },
            _ => None,
        }
    }
}

} // verus!
