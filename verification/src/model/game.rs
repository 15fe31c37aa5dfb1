//! Games, categories, and information about attempts at them.
pub mod category;
