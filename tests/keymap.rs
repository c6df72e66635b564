use myr::keymap::{map_key_event, KeyCodeInput, KeyInput, KeyModifier};
use myr::reducer::{DirectionKey, Msg};

fn key(code: KeyCodeInput, modifier: KeyModifier) -> Option<Msg> {
    map_key_event(KeyInput { code, modifier })
}

fn plain(code: KeyCodeInput) -> Option<Msg> {
    key(code, KeyModifier::Plain)
}

#[test]
fn keymap_supports_required_global_keys() {
    assert_eq!(plain(KeyCodeInput::F(10)), Some(Msg::Quit));
    assert_eq!(plain(KeyCodeInput::Char('q')), Some(Msg::InputChar('q')));
    for c in ['h', 'j', 'k', 'l'] {
        assert_eq!(plain(KeyCodeInput::Char(c)), Some(Msg::InputChar(c)));
    }
    assert_eq!(plain(KeyCodeInput::Tab), Some(Msg::NextPane));
    assert_eq!(key(KeyCodeInput::Char('p'), KeyModifier::Control), Some(Msg::TogglePalette));
    assert_eq!(plain(KeyCodeInput::F(5)), Some(Msg::Connect));
    assert_eq!(plain(KeyCodeInput::F(6)), Some(Msg::GoConnectionWizard));
    assert_eq!(key(KeyCodeInput::Char('s'), KeyModifier::Control), None);
    assert_eq!(key(KeyCodeInput::Char('u'), KeyModifier::Control), Some(Msg::ClearInput));
    assert_eq!(key(KeyCodeInput::Char('c'), KeyModifier::Control), Some(Msg::CancelQuery));
    assert_eq!(plain(KeyCodeInput::Enter), Some(Msg::Submit));
    assert_eq!(plain(KeyCodeInput::F(2)), Some(Msg::TogglePerfOverlay));
    assert_eq!(plain(KeyCodeInput::F(3)), Some(Msg::ToggleSafeMode));
    assert_eq!(key(KeyCodeInput::Char('h'), KeyModifier::Alt), Some(Msg::Navigate(DirectionKey::Left)));
    assert_eq!(key(KeyCodeInput::Char('j'), KeyModifier::Alt), Some(Msg::Navigate(DirectionKey::Down)));
    assert_eq!(key(KeyCodeInput::Char('k'), KeyModifier::Alt), Some(Msg::Navigate(DirectionKey::Up)));
    assert_eq!(key(KeyCodeInput::Char('l'), KeyModifier::Alt), Some(Msg::Navigate(DirectionKey::Right)));
}

#[test]
fn help_and_action_slot_keys_are_mapped() {
    assert_eq!(plain(KeyCodeInput::Char('?')), Some(Msg::ToggleHelp));
    assert_eq!(plain(KeyCodeInput::Char('1')), Some(Msg::InvokeActionSlot(0)));
    assert_eq!(plain(KeyCodeInput::Char('7')), Some(Msg::InvokeActionSlot(6)));
    assert_eq!(plain(KeyCodeInput::Char('8')), Some(Msg::InputChar('8')));
}

#[test]
fn unmapped_chars_can_be_used_as_palette_input() {
    assert_eq!(plain(KeyCodeInput::Char('x')), Some(Msg::InputChar('x')));
    assert_eq!(plain(KeyCodeInput::Other), None);
    assert_eq!(plain(KeyCodeInput::F(4)), None);
}
