use vstd::prelude::*;

verus! {

/// The height of the keyboard surface, in surface pixels.
pub const KEYBOARD_HEIGHT: i32 = 300;

/// The size of the keyboard surface on the display with the given logical
/// size: as wide as the display, `KEYBOARD_HEIGHT` high.
pub open spec fn keyboard_size_for(display: (i32, i32)) -> (i32, i32) {
    (display.0, KEYBOARD_HEIGHT)
}

/// The keyboard size for the display at `index` of the known display sizes.
pub fn get_size_from_display(sizes: &Vec<(i32, i32)>, index: usize) -> (size: (i32, i32))
    requires
        index < sizes@.len(),
    ensures
        size == keyboard_size_for(sizes@[index as int]),
{
    (sizes[index].0, KEYBOARD_HEIGHT)
}

/// Whether `i` is the first position of `id` in `ids`.
pub open spec fn is_first_position(ids: Seq<u32>, id: u32, i: int) -> bool {
    &&& 0 <= i < ids.len()
    &&& ids[i] == id
    &&& forall|j: int| 0 <= j < i ==> ids[j] != id
}

/// The first position of `id` in `ids`, if it occurs there.
pub fn output_position(ids: &Vec<u32>, id: u32) -> (pos: Option<usize>)
    ensures
        match pos {
            Some(i) => is_first_position(ids@, id, i as int),
            None => !ids@.contains(id),
        },
{
    let mut i: usize = 0;
    while i < ids.len()
        invariant
            i <= ids@.len(),
            forall|j: int| 0 <= j < i ==> ids@[j] != id,
        decreases ids@.len() - i,
    {
        if ids[i] == id {
            return Some(i);
        }
        i = i + 1;
    }
    None
}

/// The known display sizes after an output reported the logical size `size`,
/// given the outputs asked for their size (`outputs`, by id) and the sizes
/// recorded so far, one per report. Until every output has reported once, a
/// report is appended; after that, it replaces the size of the first output
/// with its id, and is ignored if no output has that id.
pub open spec fn sizes_after_report(
    sizes: Seq<(i32, i32)>,
    outputs: Seq<u32>,
    output: u32,
    size: (i32, i32),
) -> Seq<(i32, i32)> {
    if sizes.len() != outputs.len() {
        sizes.push(size)
    } else if outputs.contains(output) {
        let i = choose|i: int| is_first_position(outputs, output, i);
        sizes.update(i, size)
    } else {
        sizes
    }
}

/// Whether a logical-size report resizes the keyboard: it does when it
/// replaces the size of the first display.
pub open spec fn report_resizes_keyboard(sizes: Seq<(i32, i32)>, outputs: Seq<u32>, output: u32) -> bool {
    sizes.len() == outputs.len() && outputs.len() > 0 && outputs[0] == output
}

/// Records the logical size that an output reported (see
/// `sizes_after_report`); returns whether the keyboard, which lives on the
/// first display, is to take the new width.
pub fn record_logical_size(
    sizes: &mut Vec<(i32, i32)>,
    outputs: &Vec<u32>,
    output: u32,
    size: (i32, i32),
) -> (resize: bool)
    ensures
        final(sizes)@ == sizes_after_report(old(sizes)@, outputs@, output, size),
        resize == report_resizes_keyboard(old(sizes)@, outputs@, output),
{
    if sizes.len() != outputs.len() {
        sizes.push(size);
        return false;
    }
    match output_position(outputs, output) {
        Some(index) => {
            proof {
                let i = choose|i: int| is_first_position(outputs@, output, i);
                assert(is_first_position(outputs@, output, index as int));
                if i < index {
                    assert(outputs@[i] != output);
                } else if index < i {
                    assert(outputs@[index as int] != output);
                }
                assert(i == index);
            }
            sizes.set(index, size);
            index == 0
        },
        None => {
            proof {
                if outputs@.len() > 0 && outputs@[0] == output {
                    assert(outputs@.contains(output));
                }
            }
            false
        },
    }
}

} // verus!
