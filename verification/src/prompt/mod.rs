//! The building blocks shared by prompts.

pub mod cursor;
pub mod interaction;
