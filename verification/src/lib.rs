//! Controller core for a single playable character: input binding,
//! ability slots, cooldown and animation state.

pub mod actions;
pub mod animation;
pub mod character;
pub mod input;
pub mod mage;
pub mod projection;
pub mod slots;
pub mod state;
pub mod timer;
