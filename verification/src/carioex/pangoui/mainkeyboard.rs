use vstd::prelude::*;
use crate::arith::{div_i32, div_toward_zero};

verus! {

/// One key of a drawn keyboard: the grid cell it occupies and its label.
/// Rows and columns are `step` pixels wide; the key starts at column
/// `start_pos` of row `line` and spans `width` columns.
#[derive(Debug, Clone, Copy)]
pub struct DrawInfo {
    pub step: i32,
    pub width: i32,
    pub font_size: i32,
    pub line: i32,
    pub text: &'static str,
    pub start_pos: i32,
}

/// Where a key is drawn, in surface pixels: its frame runs from `left` to
/// `right` and from `top` to `bottom`; its label is drawn at
/// (`label_x2 / 2`, `top`). The label position is kept doubled so that it
/// stays exact when `step` is odd.
#[derive(Debug, Clone, Copy, PartialEq, Eq, Structural)]
pub struct KeyOutline {
    pub left: i128,
    pub right: i128,
    pub top: i128,
    pub bottom: i128,
    pub label_x2: i128,
}

/// The left edge of a key.
pub open spec fn key_left(info: DrawInfo) -> int {
    info.step * info.start_pos
}

/// The right edge of a key.
pub open spec fn key_right(info: DrawInfo) -> int {
    info.step * info.width + key_left(info)
}

/// The top edge of a key.
pub open spec fn key_top(info: DrawInfo) -> int {
    info.step * info.line
}

/// The bottom edge of a key.
pub open spec fn key_bottom(info: DrawInfo) -> int {
    info.step * (info.line + 1)
}

/// Twice the horizontal position of a key's label: the label is shifted
/// right of the frame by half a column less the font size.
pub open spec fn key_label_x2(info: DrawInfo) -> int {
    2 * key_left(info) + info.step - 2 * info.font_size
}

/// The frame and label position of a key.
pub fn unit_key_outline(info: &DrawInfo) -> (outline: KeyOutline)
    requires
        info.line < i32::MAX,
    ensures
        outline.left == key_left(*info),
        outline.right == key_right(*info),
        outline.top == key_top(*info),
        outline.bottom == key_bottom(*info),
        outline.label_x2 == key_label_x2(*info),
{
    let step = info.step as i128;
    proof {
        assert(-0x8000_0000 <= info.step <= 0x7fff_ffff);
        assert(-0x4000_0000_0000_0000 <= step * (info.start_pos as i128) <= 0x4000_0000_0000_0000)
            by (nonlinear_arith)
            requires
                -0x8000_0000 <= step <= 0x7fff_ffff,
                -0x8000_0000 <= info.start_pos <= 0x7fff_ffff,
        ;
        assert(-0x4000_0000_0000_0000 <= step * (info.width as i128) <= 0x4000_0000_0000_0000)
            by (nonlinear_arith)
            requires
                -0x8000_0000 <= step <= 0x7fff_ffff,
                -0x8000_0000 <= info.width <= 0x7fff_ffff,
        ;
        assert(-0x4000_0000_0000_0000 <= step * (info.line as i128) <= 0x4000_0000_0000_0000)
            by (nonlinear_arith)
            requires
                -0x8000_0000 <= step <= 0x7fff_ffff,
                -0x8000_0000 <= info.line <= 0x7fff_ffff,
        ;
        assert(-0x4000_0000_0000_0000 <= step * (info.line as i128 + 1) <= 0x4000_0000_0000_0000)
            by (nonlinear_arith)
            requires
                -0x8000_0000 <= step <= 0x7fff_ffff,
                -0x8000_0000 <= info.line + 1 <= 0x7fff_ffff,
        ;
    }
    let left = step * (info.start_pos as i128);
    let right = step * (info.width as i128) + left;
    let top = step * (info.line as i128);
    let bottom = step * (info.line as i128 + 1);
    let label_x2 = 2 * left + step - 2 * (info.font_size as i128);
    KeyOutline { left, right, top, bottom, label_x2 }
}

/// The labels of the main keyboard's top row, left to right.
pub open spec fn main_row_labels() -> Seq<Seq<char>> {
    seq!["Tab"@, "q"@, "w"@, "e"@, "r"@, "t"@, "y"@, "u"@, "i"@, "o"@, "p"@]
}

/// The columns that key `i` of the main keyboard's top row spans: the Tab
/// key takes the first two columns, each letter one column after it.
pub open spec fn main_row_width(i: int) -> int {
    if i == 0 {
        2
    } else {
        1
    }
}

/// The column where key `i` of the main keyboard's top row starts.
pub open spec fn main_row_start(i: int) -> int {
    if i == 0 {
        0
    } else {
        i + 1
    }
}

/// Whether `keys` is the main keyboard's top row for a surface of the given
/// height (the main keyboard has four rows) drawn with the given font size.
pub open spec fn is_main_row(keys: Seq<DrawInfo>, height: int, font_size: int) -> bool {
    &&& keys.len() == 11
    &&& forall|i: int|
        #![trigger keys[i]]
        0 <= i < 11 ==> {
            &&& keys[i].step == div_toward_zero(height, 4)
            &&& keys[i].width == main_row_width(i)
            &&& keys[i].font_size == font_size
            &&& keys[i].line == 0
            &&& keys[i].text@ == main_row_labels()[i]
            &&& keys[i].start_pos == main_row_start(i)
        }
}

fn unit(step: i32, width: i32, font_size: i32, text: &'static str, start_pos: i32) -> (info:
    DrawInfo)
    ensures
        info == (DrawInfo { step, width, font_size, line: 0, text, start_pos }),
{
    DrawInfo { step, width, font_size, line: 0, text, start_pos }
}

/// The keys of the main keyboard, in drawing order.
pub fn main_keyboard_keys(height: i32, font_size: i32) -> (keys: Vec<DrawInfo>)
    ensures
        is_main_row(keys@, height as int, font_size as int),
{
    let step = div_i32(height, 4);
    let mut keys: Vec<DrawInfo> = Vec::new();
    keys.push(unit(step, 2, font_size, "Tab", 0));
    keys.push(unit(step, 1, font_size, "q", 2));
    keys.push(unit(step, 1, font_size, "w", 3));
    keys.push(unit(step, 1, font_size, "e", 4));
    keys.push(unit(step, 1, font_size, "r", 5));
    keys.push(unit(step, 1, font_size, "t", 6));
    keys.push(unit(step, 1, font_size, "y", 7));
    keys.push(unit(step, 1, font_size, "u", 8));
    keys.push(unit(step, 1, font_size, "i", 9));
    keys.push(unit(step, 1, font_size, "o", 10));
    keys.push(unit(step, 1, font_size, "p", 11));
    keys
}

/// The main keyboard's top row is one unbroken strip of keys: the first key
/// starts at the left edge of the surface, each key starts where the key
/// before it ends, the row ends after twelve columns, and every key spans the
/// first row exactly.
pub proof fn lemma_main_row_is_contiguous(keys: Seq<DrawInfo>, height: int, font_size: int)
    requires
        is_main_row(keys, height, font_size),
    ensures
        key_left(keys[0]) == 0,
        forall|i: int|
            0 <= i < 10 ==> key_right(#[trigger] keys[i]) == key_left(keys[i + 1]),
        key_right(keys[10]) == 12 * div_toward_zero(height, 4),
        forall|i: int|
            0 <= i < 11 ==> key_top(#[trigger] keys[i]) == 0 && key_bottom(keys[i])
                == div_toward_zero(height, 4),
{
    let step = div_toward_zero(height, 4);
    assert(keys[0].step == step);
    assert(keys[10].step == step);
    assert forall|i: int| 0 <= i < 10 implies key_right(#[trigger] keys[i]) == key_left(
        keys[i + 1],
    ) by {
        let k = keys[i];
        let n = keys[i + 1];
        assert(k.step == step && n.step == step);
        if i == 0 {
            assert(key_right(k) == step * 2 + step * 0);
            assert(key_left(n) == step * 2);
        } else {
            assert(key_right(k) == step * 1 + step * (i + 1));
            assert(key_left(n) == step * (i + 2));
            assert(step * 1 + step * (i + 1) == step * (i + 2)) by (nonlinear_arith);
        }
    }
    assert forall|i: int| 0 <= i < 11 implies key_top(#[trigger] keys[i]) == 0 && key_bottom(
        keys[i],
    ) == step by {
        assert(keys[i].step == step && keys[i].line == 0);
    }
}

} // verus!
