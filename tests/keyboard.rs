use ratatui_render::mouse::{button_code, button_pressed, pointer_row, MouseButton, MouseEventKind, BTN_LEFT, BTN_MIDDLE, BTN_RIGHT};
use ratatui_render::keyboard::{KeyAction, KeyKind, KeyboardState, Modifier, MOD_ALT, MOD_CONTROL, MOD_SHIFT};

#[test]
fn press_then_next_press_releases_previous() {
    let mut k = KeyboardState::new();
    assert_eq!(k.update(0, KeyKind::Press, Some(38)), vec![KeyAction::Key { code: 38, pressed: true }]);
    assert_eq!(
        k.update(0, KeyKind::Press, Some(39)),
        vec![KeyAction::Key { code: 38, pressed: false }, KeyAction::Key { code: 39, pressed: true }]
    );
    assert_eq!(k.update(0, KeyKind::Repeat, Some(39)), vec![KeyAction::Key { code: 39, pressed: false }]);
    assert_eq!(k.update(0, KeyKind::Repeat, Some(39)), vec![]);
}

#[test]
fn modifier_changes_come_first_in_order() {
    let mut k = KeyboardState::new();
    let r = k.update(MOD_CONTROL | MOD_SHIFT, KeyKind::Press, None);
    assert_eq!(
        r,
        vec![
            KeyAction::Modifier { modifier: Modifier::Shift, pressed: true },
            KeyAction::Modifier { modifier: Modifier::Control, pressed: true },
        ]
    );
    let r = k.update(MOD_ALT | MOD_SHIFT, KeyKind::Press, Some(30));
    assert_eq!(
        r,
        vec![
            KeyAction::Modifier { modifier: Modifier::Control, pressed: false },
            KeyAction::Modifier { modifier: Modifier::Alt, pressed: true },
            KeyAction::Key { code: 30, pressed: true },
        ]
    );
    assert_eq!(k.modifiers, MOD_ALT | MOD_SHIFT);
    assert_eq!(k.held, Some(30));
    // bits of modifiers without keys are not reported
    assert_eq!(k.update(MOD_ALT | MOD_SHIFT | 0b1000, KeyKind::Release, Some(30)), vec![
        KeyAction::Key { code: 30, pressed: false },
        KeyAction::Key { code: 30, pressed: false },
    ]);
}

#[test]
fn mouse_buttons_and_rows() {
    assert_eq!(button_code(MouseEventKind::Down(MouseButton::Left)), Some(BTN_LEFT));
    assert_eq!(button_code(MouseEventKind::Up(MouseButton::Right)), Some(BTN_RIGHT));
    assert_eq!(button_code(MouseEventKind::Drag(MouseButton::Middle)), Some(BTN_MIDDLE));
    assert_eq!(button_code(MouseEventKind::ScrollUp), None);
    assert_eq!(BTN_LEFT, 0x110);
    assert_eq!(button_pressed(MouseEventKind::Drag(MouseButton::Left)), Some(true));
    assert_eq!(button_pressed(MouseEventKind::Up(MouseButton::Left)), Some(false));
    assert_eq!(button_pressed(MouseEventKind::Moved), None);
    assert_eq!(pointer_row(7), 14);
}
