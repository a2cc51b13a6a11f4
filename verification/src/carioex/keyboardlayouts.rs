use vstd::prelude::*;

verus! {

/// Keyboard layouts that the keymap can be compiled for.
#[derive(Debug)]
pub enum Layouts {
    EnglishUs,
}

impl Default for Layouts {
    fn default() -> (layout: Self)
        ensures
            layout == Layouts::EnglishUs,
    {
        Layouts::EnglishUs
    }
}

/// The xkb layout name of a layout.
pub open spec fn layout_name(layout: Layouts) -> Seq<char> {
    match layout {
        Layouts::EnglishUs => "us"@,
    }
}

impl Layouts {
    /// The xkb layout name under which this layout is known to xkbcommon.
    pub fn to_layout_name(&self) -> (name: &str)
        ensures
            name@ == layout_name(*self),
    {
        match self {
            Layouts::EnglishUs => "us",
        }
    }
}

} // verus!
