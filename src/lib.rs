//! Backlight control for laptops: brightness policy, raw input decoding and
//! the idle/active/override state machine that decides every backlight write.

pub mod control;
pub mod input;
pub mod laws;
pub mod policy;
pub mod text;
pub mod types;
