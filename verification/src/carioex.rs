pub mod keyboardlayouts;
pub mod pangoui;
