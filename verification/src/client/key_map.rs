use vstd::prelude::*;

verus! {

/// A key that the application reads: a character, or one of the keys that it
/// acts on; every other key is `Other`.
#[derive(Debug, Clone, Copy, PartialEq, Eq, Structural)]
pub enum KeyInput {
    Char(char),
    Esc,
    Backspace,
    Enter,
    Other,
}

/// What a key asks of the layout of the screen.
#[derive(Debug, Clone, Copy, PartialEq, Eq, Structural)]
pub enum UiKeyMap {
    FocusToCommandPane,
    ChangeFocusToLeft,
    ChangeFocusToRight,
    FocusBackFromCommandPane,
    UnDefined,
}

/// The request of a key: `:` goes to the command pane, `h` and `l` move left
/// and right, `Esc` leaves the command pane.
pub open spec fn key_request(key: KeyInput) -> UiKeyMap {
    match key {
        KeyInput::Char(':') => UiKeyMap::FocusToCommandPane,
        KeyInput::Char('h') => UiKeyMap::ChangeFocusToLeft,
        KeyInput::Char('l') => UiKeyMap::ChangeFocusToRight,
        KeyInput::Esc => UiKeyMap::FocusBackFromCommandPane,
        _ => UiKeyMap::UnDefined,
    }
}

impl UiKeyMap {
    /// The request of a key.
    pub fn key(key: KeyInput) -> (r: Self)
        ensures
            r == key_request(key),
    {
        match key {
            KeyInput::Char(':') => UiKeyMap::FocusToCommandPane,
            KeyInput::Char('h') => UiKeyMap::ChangeFocusToLeft,
            KeyInput::Char('l') => UiKeyMap::ChangeFocusToRight,
            KeyInput::Esc => UiKeyMap::FocusBackFromCommandPane,
            _ => UiKeyMap::UnDefined,
        }
    }
}

/// The keys that the screen knows: `:` asks for the command pane, `h` and
/// `l` for a move left and right, and `Esc` for going back; every other key
/// asks for nothing.
pub proof fn lemma_key_requests(key: KeyInput)
    ensures
        (key_request(key) == UiKeyMap::FocusToCommandPane) == (key == KeyInput::Char(':')),
        (key_request(key) == UiKeyMap::ChangeFocusToLeft) == (key == KeyInput::Char('h')),
        (key_request(key) == UiKeyMap::ChangeFocusToRight) == (key == KeyInput::Char('l')),
        (key_request(key) == UiKeyMap::FocusBackFromCommandPane) == (key == KeyInput::Esc),
{
}

} // verus!
