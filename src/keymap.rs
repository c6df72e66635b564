use vstd::prelude::*;

use crate::reducer::{DirectionKey, Msg};

verus! {

/// A key, as far as the interface tells keys apart.
#[derive(Debug, Clone, Copy, PartialEq, Eq, Structural)]
pub enum KeyCodeInput {
    Char(char),
    F(u8),
    Esc,
    Tab,
    Enter,
    Backspace,
    Up,
    Down,
    Left,
    Right,
    Other,
}

/// The modifiers held: exactly Control, exactly Alt, or anything else.
#[derive(Debug, Clone, Copy, PartialEq, Eq, Structural)]
pub enum KeyModifier {
    Control,
    Alt,
    Plain,
}

#[derive(Debug, Clone, Copy, PartialEq, Eq, Structural)]
pub struct KeyInput {
    pub code: KeyCodeInput,
    pub modifier: KeyModifier,
}

/// The message a key press stands for.
pub open spec fn key_message(key: KeyInput) -> Option<Msg> {
    match key.modifier {
        KeyModifier::Control => match key.code {
            KeyCodeInput::Char('p') => Some(Msg::TogglePalette),
            KeyCodeInput::Char('u') => Some(Msg::ClearInput),
            KeyCodeInput::Char('c') => Some(Msg::CancelQuery),
            _ => None,
        },
        KeyModifier::Alt => match key.code {
            KeyCodeInput::Char('k') => Some(Msg::Navigate(DirectionKey::Up)),
            KeyCodeInput::Char('j') => Some(Msg::Navigate(DirectionKey::Down)),
            KeyCodeInput::Char('h') => Some(Msg::Navigate(DirectionKey::Left)),
            KeyCodeInput::Char('l') => Some(Msg::Navigate(DirectionKey::Right)),
            _ => None,
        },
        KeyModifier::Plain => match key.code {
            KeyCodeInput::Char(c) => if c == '?' {
                Some(Msg::ToggleHelp)
            } else if '1' <= c && c <= '7' {
                Some(Msg::InvokeActionSlot(((c as u32) - ('1' as u32)) as usize))
            } else {
                Some(Msg::InputChar(c))
            },
            KeyCodeInput::Esc => Some(Msg::TogglePalette),
            KeyCodeInput::Tab => Some(Msg::NextPane),
            KeyCodeInput::F(5) => Some(Msg::Connect),
            KeyCodeInput::F(6) => Some(Msg::GoConnectionWizard),
            KeyCodeInput::F(10) => Some(Msg::Quit),
            KeyCodeInput::F(2) => Some(Msg::TogglePerfOverlay),
            KeyCodeInput::F(3) => Some(Msg::ToggleSafeMode),
            KeyCodeInput::Enter => Some(Msg::Submit),
            KeyCodeInput::Backspace => Some(Msg::Backspace),
            KeyCodeInput::Up => Some(Msg::Navigate(DirectionKey::Up)),
            KeyCodeInput::Down => Some(Msg::Navigate(DirectionKey::Down)),
            KeyCodeInput::Left => Some(Msg::Navigate(DirectionKey::Left)),
            KeyCodeInput::Right => Some(Msg::Navigate(DirectionKey::Right)),
            _ => None,
        },
    }
}

/// Translates a key press into a message.
pub fn map_key_event(key: KeyInput) -> (r: Option<Msg>)
    ensures
        r == key_message(key),
{
    match key.modifier {
        KeyModifier::Control => match key.code {
            KeyCodeInput::Char('p') => Some(Msg::TogglePalette),
            KeyCodeInput::Char('u') => Some(Msg::ClearInput),
            KeyCodeInput::Char('c') => Some(Msg::CancelQuery),
            _ => None,
        },
        KeyModifier::Alt => match key.code {
            KeyCodeInput::Char('k') => Some(Msg::Navigate(DirectionKey::Up)),
            KeyCodeInput::Char('j') => Some(Msg::Navigate(DirectionKey::Down)),
            KeyCodeInput::Char('h') => Some(Msg::Navigate(DirectionKey::Left)),
            KeyCodeInput::Char('l') => Some(Msg::Navigate(DirectionKey::Right)),
            _ => None,
        },
        KeyModifier::Plain => match key.code {
            KeyCodeInput::Char(c) => if c == '?' {
                Some(Msg::ToggleHelp)
            } else if '1' <= c && c <= '7' {
                Some(Msg::InvokeActionSlot(((c as u32) - ('1' as u32)) as usize))
            } else {
                Some(Msg::InputChar(c))
            },
            KeyCodeInput::Esc => Some(Msg::TogglePalette),
            KeyCodeInput::Tab => Some(Msg::NextPane),
            KeyCodeInput::F(5) => Some(Msg::Connect),
            KeyCodeInput::F(6) => Some(Msg::GoConnectionWizard),
            KeyCodeInput::F(10) => Some(Msg::Quit),
            KeyCodeInput::F(2) => Some(Msg::TogglePerfOverlay),
            KeyCodeInput::F(3) => Some(Msg::ToggleSafeMode),
            KeyCodeInput::Enter => Some(Msg::Submit),
            KeyCodeInput::Backspace => Some(Msg::Backspace),
            KeyCodeInput::Up => Some(Msg::Navigate(DirectionKey::Up)),
            KeyCodeInput::Down => Some(Msg::Navigate(DirectionKey::Down)),
            KeyCodeInput::Left => Some(Msg::Navigate(DirectionKey::Left)),
            KeyCodeInput::Right => Some(Msg::Navigate(DirectionKey::Right)),
            _ => None,
        },
    }
}

} // verus!
