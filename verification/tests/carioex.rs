use starcolorkeyboard::carioex::keyboardlayouts::Layouts;
use starcolorkeyboard::carioex::pangoui::mainkeyboard::{main_keyboard_keys, unit_key_outline, DrawInfo, KeyOutline};
use starcolorkeyboard::carioex::pangoui::PangoUi;
use starcolorkeyboard::keytarget::KeyTarget;

#[test]
fn layout_name_is_us() {
    assert_eq!(Layouts::EnglishUs.to_layout_name(), "us");
    assert_eq!(Layouts::default().to_layout_name(), "us");
}

#[test]
fn carioex_size_round_trip() {
    let mut ui = PangoUi::default();
    assert_eq!(ui.get_size(), (0, 0));
    ui.set_size((1920, 300));
    assert_eq!(ui.get_size(), (1920, 300));
    ui.set_size((-5, 7));
    assert_eq!(ui.get_size(), (-5, 7));
}

fn sized(width: i32, height: i32) -> PangoUi {
    let mut ui = PangoUi::default();
    ui.set_size((width, height));
    ui
}

#[test]
fn carioex_main_keyboard_region() {
    let ui = sized(1920, 300);
    assert!(ui.can_get_key((10, 10)));
    assert_eq!(ui.get_key((10, 10)), KeyTarget::MainKeyboard { step: 75 });
    assert_eq!(ui.get_key((1519, 299)), KeyTarget::MainKeyboard { step: 75 });
}

#[test]
fn carioex_number_pad_region() {
    let ui = sized(1920, 300);
    assert_eq!(ui.get_key((1520, 10)), KeyTarget::SmallKeyboard { left: 1520, step: 100 });
    assert_eq!(ui.get_key((1820, 250)), KeyTarget::SmallKeyboard { left: 1520, step: 100 });
}

#[test]
fn carioex_right_column() {
    let ui = sized(1920, 300);
    assert_eq!(ui.get_key((1821, 150)), KeyTarget::Key(11));
    assert_eq!(ui.get_key((1900, 199)), KeyTarget::Key(11));
    assert_eq!(ui.get_key((1900, 50)), KeyTarget::NoKey);
    assert_eq!(ui.get_key((1900, 200)), KeyTarget::NoKey);
    // -150 / 100 rounds toward zero to -1.
    assert_eq!(ui.get_key((1900, -150)), KeyTarget::NoKey);
    // -199 / 100 rounds toward zero to -1, -99 / 100 to 0.
    assert_eq!(ui.get_key((1900, -99)), KeyTarget::NoKey);
}

#[test]
fn carioex_negative_height() {
    // height -300: rows of -100, main keyboard rows of -75.
    let ui = sized(100, -300);
    assert_eq!(ui.get_key((450, 0)), KeyTarget::MainKeyboard { step: -75 });
    // With negative rows the number pad is empty: right of the main keyboard
    // is the right column, whose middle row is y = -100 ..= -199.
    assert_eq!(ui.get_key((600, 0)), KeyTarget::NoKey);
    assert_eq!(ui.get_key((600, -100)), KeyTarget::Key(11));
}

#[test]
fn carioex_lookup_that_would_panic_is_refused() {
    // height 2: rows of 0 pixels, so the right column would divide by zero.
    let ui = sized(1920, 2);
    assert!(ui.can_get_key((10, 10)));
    assert_eq!(ui.get_key((10, 10)), KeyTarget::MainKeyboard { step: 0 });
    assert!(!ui.can_get_key((1921, 10)));
    assert!(ui.can_get_key((1920, 10)));
    // 4 * (i32::MAX / 3) overflows.
    let tall = sized(0, i32::MAX);
    assert!(!tall.can_get_key((0, 0)));
    // width - height / 3 overflows.
    let wide = sized(i32::MIN, 300);
    assert!(!wide.can_get_key((0, 0)));
}

#[test]
fn main_keyboard_top_row() {
    let keys = main_keyboard_keys(300, 27);
    let labels = ["Tab", "q", "w", "e", "r", "t", "y", "u", "i", "o", "p"];
    assert_eq!(keys.len(), 11);
    for (i, key) in keys.iter().enumerate() {
        assert_eq!(key.step, 75);
        assert_eq!(key.line, 0);
        assert_eq!(key.font_size, 27);
        assert_eq!(key.text, labels[i]);
        assert_eq!(key.width, if i == 0 { 2 } else { 1 });
        assert_eq!(key.start_pos, if i == 0 { 0 } else { i as i32 + 1 });
    }
}

#[test]
fn main_keyboard_row_is_contiguous() {
    let keys = main_keyboard_keys(301, 27);
    let outlines: Vec<KeyOutline> = keys.iter().map(unit_key_outline).collect();
    assert_eq!(outlines[0].left, 0);
    for i in 0..10 {
        assert_eq!(outlines[i].right, outlines[i + 1].left);
    }
    assert_eq!(outlines[10].right, 12 * 75);
    for o in &outlines {
        assert_eq!(o.top, 0);
        assert_eq!(o.bottom, 75);
    }
}

#[test]
fn unit_key_outline_values() {
    let q = DrawInfo { step: 75, width: 1, font_size: 27, line: 0, text: "q", start_pos: 2 };
    assert_eq!(
        unit_key_outline(&q),
        KeyOutline { left: 150, right: 225, top: 0, bottom: 75, label_x2: 321 }
    );
    let odd = DrawInfo { step: 25, width: 3, font_size: 10, line: 2, text: "x", start_pos: 1 };
    // label at 25 + 12.5 - 10 = 27.5
    assert_eq!(
        unit_key_outline(&odd),
        KeyOutline { left: 25, right: 100, top: 50, bottom: 75, label_x2: 55 }
    );
    let extreme = DrawInfo {
        step: i32::MIN,
        width: i32::MIN,
        font_size: i32::MIN,
        line: i32::MIN,
        text: "",
        start_pos: i32::MIN,
    };
    let o = unit_key_outline(&extreme);
    assert_eq!(o.right, 2 * (1i128 << 62));
    assert_eq!(o.bottom, (1i128 << 62) - (1i128 << 31));
}
