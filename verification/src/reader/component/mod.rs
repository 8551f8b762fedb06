//! What the sections of a component hold.

pub mod exports;
pub mod items;
pub mod types;
