use vstd::prelude::*;
use crate::starcolorkeyboard::modifiers::{modifier_of_key, KeyModifierType, NO_MOD_BITS};
use crate::starcolorkeyboard::otherkeys::ESC;

verus! {

/// A key of the on-screen keyboard that a pointer or touch landed on.
#[derive(Debug, Clone, Copy, PartialEq, Eq, Structural)]
pub enum PressedKey {
    /// A key that is sent to the compositor under this code.
    Code(u32),
    /// The button that minimizes (or restores) the keyboard.
    Minimize,
    /// The button that closes the keyboard.
    Close,
}

/// A button of the keyboard that is not a key of the keymap.
#[derive(Debug, Clone, Copy, PartialEq, Eq, Structural)]
pub enum WindowButton {
    /// The button that minimizes (or restores) the keyboard.
    Minimize,
    /// The button that closes the keyboard.
    Close,
}

/// What the keyboard remembers between input events.
#[derive(Debug, Clone, Copy, PartialEq, Eq, Structural)]
pub struct InputState {
    /// Whether the keyboard keeps running.
    pub running: bool,
    /// The modifiers that are currently latched.
    pub keymode: KeyModifierType,
    /// Whether the keyboard is minimized.
    pub is_min: bool,
}

/// An input event, with the key it landed on already looked up.
#[derive(Debug, Clone, Copy, PartialEq, Eq, Structural)]
pub enum InputEvent {
    /// A key of a physical keyboard, by code.
    KeyboardKey(u32),
    /// A pointer button went down over a key, or over no key.
    PointerPressed(Option<PressedKey>),
    /// A pointer button went up over a key, or over no key.
    PointerReleased(Option<PressedKey>),
    /// A touch began over a key, or over no key.
    TouchDown(Option<PressedKey>),
    /// A touch ended over a key, or over no key.
    TouchUp(Option<PressedKey>),
}

/// What is to be sent to the compositor in answer to an input event.
#[derive(Debug, Clone, Copy, PartialEq, Eq, Structural)]
pub enum InputAction {
    /// Nothing.
    Nothing,
    /// Press the key with this code on the virtual keyboard.
    PressKey(u32),
    /// Release the key with this code on the virtual keyboard; when
    /// `modifiers` is present the latched modifiers changed to it, and the
    /// new modifier mask is to be sent and the keyboard redrawn.
    ReleaseKey { key: u32, modifiers: Option<u32> },
    /// Resize the keyboard surface for its new minimized state.
    ToggleMinimized,
    /// Press, on the virtual keyboard, the key code that the keyboard's key
    /// tables give this button.
    PressButtonKey(WindowButton),
}

impl InputState {
    /// A running keyboard, not minimized, with no modifier latched.
    pub fn new() -> (s: Self)
        ensures
            s.running,
            s.keymode@ == NO_MOD_BITS,
            !s.is_min,
    {
        InputState { running: true, keymode: KeyModifierType::no_mod(), is_min: false }
    }
}

/// Releasing the key with code `key` toggles the modifier that the key
/// stands for. Returns whether the latched modifiers changed.
pub fn key_release(keymode: &mut KeyModifierType, key: u32) -> (changed: bool)
    ensures
        final(keymode)@ == old(keymode)@ ^ modifier_of_key(key),
        changed == (final(keymode)@ != old(keymode)@),
{
    let mod_pre = *keymode;
    let keymod = KeyModifierType::from(key);
    *keymode = keymode.symmetric_difference(keymod);
    !(*keymode == mod_pre)
}

/// The state after an input event.
pub open spec fn next_state(s: InputState, e: InputEvent) -> InputState {
    match e {
        InputEvent::KeyboardKey(key) => {
            if key == ESC {
                InputState { running: false, ..s }
            } else {
                s
            }
        },
        InputEvent::PointerReleased(Some(PressedKey::Close)) => InputState { running: false, ..s },
        InputEvent::PointerReleased(Some(PressedKey::Minimize)) => InputState {
            is_min: !s.is_min,
            ..s
        },
        InputEvent::PointerReleased(Some(PressedKey::Code(key))) => InputState {
            keymode: KeyModifierType { bits: s.keymode@ ^ modifier_of_key(key) },
            ..s
        },
        _ => s,
    }
}

/// What is sent to the compositor in answer to an input event. A pointer
/// presses a key when its button goes down and releases it when the button
/// goes up; the minimize and close buttons act when the button goes up. A
/// touch presses the key where it begins and again where it ends, the
/// minimize and close buttons included, whose key codes it presses.
pub open spec fn input_action(s: InputState, e: InputEvent) -> InputAction {
    match e {
        InputEvent::PointerPressed(Some(PressedKey::Code(key))) => InputAction::PressKey(key),
        InputEvent::PointerReleased(Some(PressedKey::Minimize)) => InputAction::ToggleMinimized,
        InputEvent::PointerReleased(Some(PressedKey::Code(key))) => {
            let mode = s.keymode@ ^ modifier_of_key(key);
            InputAction::ReleaseKey {
                key,
                modifiers: if mode != s.keymode@ {
                    Some(mode)
                } else {
                    None
                },
            }
        },
        InputEvent::TouchDown(Some(key)) => touch_press(key),
        InputEvent::TouchUp(Some(key)) => touch_press(key),
        _ => InputAction::Nothing,
    }
}

/// What a touch on a key presses: the key's code, or the key code of the
/// minimize or close button.
pub open spec fn touch_press(key: PressedKey) -> InputAction {
    match key {
        PressedKey::Code(code) => InputAction::PressKey(code),
        PressedKey::Minimize => InputAction::PressButtonKey(WindowButton::Minimize),
        PressedKey::Close => InputAction::PressButtonKey(WindowButton::Close),
    }
}

fn touch_press_action(key: PressedKey) -> (action: InputAction)
    ensures
        action == touch_press(key),
{
    match key {
        PressedKey::Code(code) => InputAction::PressKey(code),
        PressedKey::Minimize => InputAction::PressButtonKey(WindowButton::Minimize),
        PressedKey::Close => InputAction::PressButtonKey(WindowButton::Close),
    }
}

/// Updates the state for an input event and says what to send to the
/// compositor.
pub fn handle_input(state: &mut InputState, event: InputEvent) -> (action: InputAction)
    ensures
        *final(state) == next_state(*old(state), event),
        action == input_action(*old(state), event),
{
    match event {
        InputEvent::KeyboardKey(key) => {
            if key == ESC {
                state.running = false;
            }
            InputAction::Nothing
        },
        InputEvent::PointerPressed(Some(PressedKey::Code(key))) => InputAction::PressKey(key),
        InputEvent::PointerReleased(Some(PressedKey::Close)) => {
            state.running = false;
            InputAction::Nothing
        },
        InputEvent::PointerReleased(Some(PressedKey::Minimize)) => {
            state.is_min = !state.is_min;
            InputAction::ToggleMinimized
        },
        InputEvent::PointerReleased(Some(PressedKey::Code(key))) => {
            if key_release(&mut state.keymode, key) {
                InputAction::ReleaseKey { key, modifiers: Some(state.keymode.bits()) }
            } else {
                InputAction::ReleaseKey { key, modifiers: None }
            }
        },
        InputEvent::TouchDown(Some(key)) => touch_press_action(key),
        InputEvent::TouchUp(Some(key)) => touch_press_action(key),
        _ => InputAction::Nothing,
    }
}

/// Releasing the same key twice leaves the latched modifiers as they were.
pub proof fn lemma_release_twice_restores(s: InputState, key: u32)
    ensures
        ({
            let e = InputEvent::PointerReleased(Some(PressedKey::Code(key)));
            next_state(next_state(s, e), e) == s
        }),
{
    let m = modifier_of_key(key);
    let k = s.keymode@;
    assert((k ^ m) ^ m == k) by (bit_vector);
}

/// Releasing a key sends a new modifier mask exactly when the key is a
/// modifier key.
pub proof fn lemma_release_reports_modifier_keys(s: InputState, key: u32)
    ensures
        ({
            let e = InputEvent::PointerReleased(Some(PressedKey::Code(key)));
            input_action(s, e) matches InputAction::ReleaseKey { key: k, modifiers } && k == key
                && (modifiers is Some <==> modifier_of_key(key) != NO_MOD_BITS)
        }),
{
    let m = modifier_of_key(key);
    let k = s.keymode@;
    assert((k ^ m != k) <==> m != 0) by (bit_vector);
}

/// Releasing the minimize button twice leaves the keyboard as minimized as
/// it was.
pub proof fn lemma_minimize_twice_restores(s: InputState)
    ensures
        ({
            let e = InputEvent::PointerReleased(Some(PressedKey::Minimize));
            next_state(next_state(s, e), e) == s
        }),
{
}

/// A keyboard that has stopped running stays stopped.
pub proof fn lemma_stopped_stays_stopped(s: InputState, e: InputEvent)
    requires
        !s.running,
    ensures
        !next_state(s, e).running,
{
}

/// Pressing (a pointer button going down, or a touch) changes no state.
pub proof fn lemma_presses_keep_state(s: InputState, key: Option<PressedKey>)
    ensures
        next_state(s, InputEvent::PointerPressed(key)) == s,
        next_state(s, InputEvent::TouchDown(key)) == s,
        next_state(s, InputEvent::TouchUp(key)) == s,
{
}

/// A key of a physical keyboard sends nothing and changes neither the
/// latched modifiers nor the minimized state; it stops the keyboard exactly
/// when it is Escape.
pub proof fn lemma_physical_keys_only_stop(s: InputState, key: u32)
    ensures
        next_state(s, InputEvent::KeyboardKey(key)).keymode == s.keymode,
        next_state(s, InputEvent::KeyboardKey(key)).is_min == s.is_min,
        next_state(s, InputEvent::KeyboardKey(key)).running == (s.running && key != ESC),
        input_action(s, InputEvent::KeyboardKey(key)) == InputAction::Nothing,
{
}

/// A pointer button going down presses the key under it, and nothing else:
/// over the minimize or close button, or over no key, it sends nothing.
pub proof fn lemma_pointer_press_sends_only_keys(s: InputState, key: Option<PressedKey>)
    ensures
        input_action(s, InputEvent::PointerPressed(key)) == (match key {
            Some(PressedKey::Code(code)) => InputAction::PressKey(code),
            _ => InputAction::Nothing,
        }),
        input_action(s, InputEvent::PointerPressed(Some(PressedKey::Minimize)))
            == InputAction::Nothing,
        input_action(s, InputEvent::PointerPressed(Some(PressedKey::Close)))
            == InputAction::Nothing,
{
}

/// Releasing a key over the keyboard releases that key, and the modifier
/// mask it sends, if any, is the whole latched set after the release; it
/// sends none exactly when the latched set stays as it was.
pub proof fn lemma_release_sends_whole_mask(s: InputState, key: u32)
    ensures
        ({
            let e = InputEvent::PointerReleased(Some(PressedKey::Code(key)));
            let t = next_state(s, e);
            &&& input_action(s, e) matches InputAction::ReleaseKey { key: k, modifiers }
            &&& k == key
            &&& match modifiers {
                Some(m) => m == t.keymode@ && t.keymode@ != s.keymode@,
                None => t.keymode == s.keymode,
            }
            &&& t.running == s.running
            &&& t.is_min == s.is_min
        }),
{
}

/// A touch presses whatever lies under it, key or button, where it begins
/// and again where it ends; a key is pressed under its own code.
pub proof fn lemma_touch_presses_every_key(s: InputState, key: PressedKey)
    ensures
        input_action(s, InputEvent::TouchDown(Some(key))) == touch_press(key),
        input_action(s, InputEvent::TouchUp(Some(key))) == touch_press(key),
        touch_press(key) != InputAction::Nothing,
        key matches PressedKey::Code(code) ==> touch_press(key) == InputAction::PressKey(code),
{
}

/// The keyboard stops exactly on Escape and on releasing the close button;
/// nothing else stops it.
pub proof fn lemma_stop_events(s: InputState, e: InputEvent)
    requires
        s.running,
    ensures
        !next_state(s, e).running <==> (e == InputEvent::KeyboardKey(ESC) || e
            == InputEvent::PointerReleased(Some(PressedKey::Close))),
{
}

} // verus!
