//! Layout and input logic of an on-screen keyboard for Wayland compositors:
//! key hit-testing, key geometry, modifier state and the decisions taken on
//! compositor events.

pub mod arith;
pub mod carioex;
pub mod keytarget;
pub mod outputs;
pub mod shm;
pub mod starcolorkeyboard;
