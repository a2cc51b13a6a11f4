pub mod dispatch;
pub mod modifiers;
pub mod otherkeys;
pub mod pangoui;
pub mod state;
pub mod surface;
