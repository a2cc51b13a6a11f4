use starcolorkeyboard::keytarget::KeyTarget;
use starcolorkeyboard::starcolorkeyboard::dispatch::{registry_global, seat_devices, GlobalKind, SeatDevices};
use starcolorkeyboard::starcolorkeyboard::surface::layer_extent;
use starcolorkeyboard::starcolorkeyboard::modifiers::KeyModifierType;
use starcolorkeyboard::starcolorkeyboard::pangoui::{contain_mode, PangoUi};
use starcolorkeyboard::starcolorkeyboard::state::{
    handle_input, key_release, InputAction, InputEvent, InputState, PressedKey, WindowButton,
};

fn sized(width: i32, height: i32) -> PangoUi {
    let mut ui = PangoUi::default();
    ui.set_size((width, height));
    ui
}

#[test]
fn starcolor_size_round_trip() {
    let mut ui = PangoUi::default();
    assert_eq!(ui.get_size(), (0, 0));
    ui.set_size((1280, 300));
    assert_eq!(ui.get_size(), (1280, 300));
}

#[test]
fn starcolor_main_and_number_pad() {
    // rows: (300 - 40) / 3 = 86; x_1 = 1920 - 80 - 344 = 1496.
    let ui = sized(1920, 300);
    assert_eq!(ui.get_key((10, 10)), KeyTarget::MainKeyboard { step: 65 });
    assert_eq!(ui.get_key((1495, 10)), KeyTarget::MainKeyboard { step: 65 });
    assert_eq!(ui.get_key((1496, 10)), KeyTarget::SmallKeyboard { left: 1496, step: 86 });
    assert_eq!(ui.get_key((1754, 10)), KeyTarget::SmallKeyboard { left: 1496, step: 86 });
}

#[test]
fn starcolor_right_column() {
    let ui = sized(1920, 300);
    assert_eq!(ui.get_key((1800, 50)), KeyTarget::Key(12));
    assert_eq!(ui.get_key((1800, 130)), KeyTarget::Key(11));
    assert_eq!(ui.get_key((1800, 220)), KeyTarget::Key(13));
    assert_eq!(ui.get_key((1800, 300)), KeyTarget::NoKey);
    // (0 - 40) / 86 rounds toward zero to 0.
    assert_eq!(ui.get_key((1800, 0)), KeyTarget::Key(12));
    assert_eq!(ui.get_key((1840, 125)), KeyTarget::Key(12));
    assert_eq!(ui.get_key((1840, 130)), KeyTarget::Key(11));
}

#[test]
fn starcolor_window_buttons() {
    // x_5 = 1840: minimize for 1841..=1879, close from 1880, only above y = 80.
    let ui = sized(1920, 300);
    assert_eq!(ui.get_key((1850, 10)), KeyTarget::Minimize);
    assert_eq!(ui.get_key((1879, 79)), KeyTarget::Minimize);
    assert_eq!(ui.get_key((1880, 10)), KeyTarget::Close);
    assert_eq!(ui.get_key((1919, 0)), KeyTarget::Close);
    assert_eq!(ui.get_key((1900, 80)), KeyTarget::NoKey);
}

#[test]
fn starcolor_lookup_that_would_panic_is_refused() {
    // height 40: rows of 0 pixels; the right column is then empty, so
    // nothing divides by zero.
    let ui = sized(1920, 40);
    assert!(ui.can_get_key((10, 10)));
    assert!(ui.can_get_key((1900, 10)));
    assert!(ui.can_get_key((1840, 100)));
    assert_eq!(ui.get_key((1840, 100)), KeyTarget::SmallKeyboard { left: 1840, step: 0 });
    // pos_x - (width - 80) overflows.
    assert!(!sized(i32::MIN + 80, -3000).can_get_key((i32::MAX, 0)));
    assert!(sized(i32::MIN + 80, -3000).can_get_key((i32::MAX, 80)));
    assert!(!sized(1920, i32::MIN).can_get_key((0, 0)));
    assert!(!sized(i32::MIN, 300).can_get_key((0, 0)));
    let ok = sized(1920, 300);
    assert!(ok.can_get_key((1800, 100)));
    assert!(!ok.can_get_key((1800, i32::MIN)));
}

#[test]
fn contain_mode_checks_subset() {
    let shift_ctrl = KeyModifierType::shift().union(KeyModifierType::ctrl());
    assert!(contain_mode(shift_ctrl, KeyModifierType::shift()));
    assert!(contain_mode(shift_ctrl, KeyModifierType::ctrl()));
    assert!(!contain_mode(shift_ctrl, KeyModifierType::alt()));
    assert!(!contain_mode(KeyModifierType::no_mod(), KeyModifierType::shift()));
    assert!(contain_mode(KeyModifierType::no_mod(), KeyModifierType::no_mod()));
    assert!(contain_mode(KeyModifierType::alt_gr(), KeyModifierType::no_mod()));
}

#[test]
fn modifier_of_key_codes() {
    assert_eq!(KeyModifierType::from(58u32), KeyModifierType::caps_lock());
    assert_eq!(KeyModifierType::from(42u32), KeyModifierType::shift());
    assert_eq!(KeyModifierType::from(54u32), KeyModifierType::shift());
    assert_eq!(KeyModifierType::from(139u32), KeyModifierType::super_key());
    assert_eq!(KeyModifierType::from(29u32), KeyModifierType::ctrl());
    assert_eq!(KeyModifierType::from(97u32), KeyModifierType::ctrl());
    assert_eq!(KeyModifierType::from(56u32), KeyModifierType::alt());
    assert_eq!(KeyModifierType::from(100u32), KeyModifierType::alt());
    assert_eq!(KeyModifierType::from(30u32), KeyModifierType::no_mod());
    assert_eq!(KeyModifierType::from(42usize), KeyModifierType::shift());
    assert_eq!(KeyModifierType::from(1usize), KeyModifierType::no_mod());
    assert_eq!(KeyModifierType::shift().bits(), 1);
    assert_eq!(KeyModifierType::caps_lock().bits(), 2);
    assert_eq!(KeyModifierType::ctrl().bits(), 4);
    assert_eq!(KeyModifierType::alt().bits(), 8);
    assert_eq!(KeyModifierType::super_key().bits(), 64);
    assert_eq!(KeyModifierType::alt_gr().bits(), 128);
    assert_eq!(KeyModifierType::from_bits_retain(12).bits(), 12);
}

#[test]
fn modifier_of_wide_key_code_truncates() {
    let code: usize = (1usize << 32) + 42;
    assert_eq!(KeyModifierType::from(code), KeyModifierType::shift());
}

#[test]
fn key_release_toggles_modifiers() {
    let mut mode = KeyModifierType::no_mod();
    assert!(key_release(&mut mode, 42));
    assert_eq!(mode, KeyModifierType::shift());
    assert!(key_release(&mut mode, 29));
    assert_eq!(mode.bits(), 5);
    assert!(!key_release(&mut mode, 30));
    assert_eq!(mode.bits(), 5);
    assert!(key_release(&mut mode, 54));
    assert_eq!(mode, KeyModifierType::ctrl());
}

#[test]
fn release_twice_restores_modifiers() {
    let mut s = InputState::new();
    let e = InputEvent::PointerReleased(Some(PressedKey::Code(58)));
    assert_eq!(
        handle_input(&mut s, e),
        InputAction::ReleaseKey { key: 58, modifiers: Some(2) }
    );
    assert_eq!(
        handle_input(&mut s, e),
        InputAction::ReleaseKey { key: 58, modifiers: Some(0) }
    );
    assert_eq!(s, InputState::new());
}

#[test]
fn release_of_plain_key_sends_no_modifiers() {
    let mut s = InputState::new();
    let e = InputEvent::PointerReleased(Some(PressedKey::Code(30)));
    assert_eq!(handle_input(&mut s, e), InputAction::ReleaseKey { key: 30, modifiers: None });
    assert_eq!(s, InputState::new());
}

#[test]
fn presses_send_keys_without_changing_state() {
    let mut s = InputState::new();
    let k = Some(PressedKey::Code(30));
    assert_eq!(handle_input(&mut s, InputEvent::PointerPressed(k)), InputAction::PressKey(30));
    assert_eq!(handle_input(&mut s, InputEvent::TouchDown(k)), InputAction::PressKey(30));
    assert_eq!(handle_input(&mut s, InputEvent::TouchUp(k)), InputAction::PressKey(30));
    assert_eq!(
        handle_input(&mut s, InputEvent::PointerPressed(Some(PressedKey::Close))),
        InputAction::Nothing
    );
    assert_eq!(handle_input(&mut s, InputEvent::PointerPressed(None)), InputAction::Nothing);
    assert_eq!(s, InputState::new());
}

#[test]
fn minimize_toggles() {
    let mut s = InputState::new();
    let e = InputEvent::PointerReleased(Some(PressedKey::Minimize));
    assert_eq!(handle_input(&mut s, e), InputAction::ToggleMinimized);
    assert!(s.is_min);
    assert_eq!(handle_input(&mut s, e), InputAction::ToggleMinimized);
    assert!(!s.is_min);
    assert!(s.running);
}

#[test]
fn close_and_escape_stop_the_keyboard() {
    let mut s = InputState::new();
    assert_eq!(handle_input(&mut s, InputEvent::KeyboardKey(2)), InputAction::Nothing);
    assert!(s.running);
    assert_eq!(handle_input(&mut s, InputEvent::KeyboardKey(1)), InputAction::Nothing);
    assert!(!s.running);
    let mut t = InputState::new();
    handle_input(&mut t, InputEvent::PointerReleased(Some(PressedKey::Close)));
    assert!(!t.running);
    handle_input(&mut t, InputEvent::PointerReleased(Some(PressedKey::Minimize)));
    assert!(!t.running);
}

#[test]
fn registry_binds_known_globals() {
    assert_eq!(registry_global("wl_output", 4), Some((GlobalKind::Output, 4)));
    assert_eq!(registry_global("zwlr_layer_shell_v1", 5), Some((GlobalKind::LayerShell, 5)));
    assert_eq!(registry_global("wl_compositor", 6), Some((GlobalKind::Compositor, 6)));
    assert_eq!(registry_global("wl_shm", 2), Some((GlobalKind::Shm, 2)));
    assert_eq!(registry_global("wl_seat", 9), Some((GlobalKind::Seat, 9)));
    assert_eq!(registry_global("xdg_wm_base", 6), Some((GlobalKind::WmBase, 1)));
    assert_eq!(
        registry_global("zxdg_output_manager_v1", 3),
        Some((GlobalKind::XdgOutputManager, 3))
    );
    assert_eq!(
        registry_global("zwp_virtual_keyboard_manager_v1", 1),
        Some((GlobalKind::VirtualKeyboardManager, 1))
    );
    assert_eq!(registry_global("wl_data_device_manager", 3), None);
    assert_eq!(registry_global("", 1), None);
}

#[test]
fn touch_presses_window_buttons_by_their_key_codes() {
    let mut s = InputState::new();
    assert_eq!(
        handle_input(&mut s, InputEvent::TouchDown(Some(PressedKey::Minimize))),
        InputAction::PressButtonKey(WindowButton::Minimize)
    );
    assert_eq!(
        handle_input(&mut s, InputEvent::TouchUp(Some(PressedKey::Minimize))),
        InputAction::PressButtonKey(WindowButton::Minimize)
    );
    assert_eq!(
        handle_input(&mut s, InputEvent::TouchDown(Some(PressedKey::Close))),
        InputAction::PressButtonKey(WindowButton::Close)
    );
    assert_eq!(
        handle_input(&mut s, InputEvent::TouchUp(Some(PressedKey::Close))),
        InputAction::PressButtonKey(WindowButton::Close)
    );
    assert_eq!(handle_input(&mut s, InputEvent::TouchDown(None)), InputAction::Nothing);
    // A touch neither closes nor minimizes the keyboard.
    assert_eq!(s, InputState::new());
}

#[test]
fn seat_devices_follow_capability_bits() {
    assert_eq!(seat_devices(0), SeatDevices { keyboard: false, pointer: false, touch: false });
    assert_eq!(seat_devices(1), SeatDevices { keyboard: false, pointer: true, touch: false });
    assert_eq!(seat_devices(2), SeatDevices { keyboard: true, pointer: false, touch: false });
    assert_eq!(seat_devices(4), SeatDevices { keyboard: false, pointer: false, touch: true });
    assert_eq!(seat_devices(7), SeatDevices { keyboard: true, pointer: true, touch: true });
    assert_eq!(seat_devices(8), SeatDevices { keyboard: false, pointer: false, touch: false });
}

#[test]
fn layer_extent_of_minimized_and_full_keyboard() {
    assert_eq!(layer_extent(true, (40, 40), 300), (40, 40));
    assert_eq!(layer_extent(false, (40, 40), 300), (300, 300));
    assert_eq!(layer_extent(false, (40, 40), -1), (u32::MAX, -1));
}
