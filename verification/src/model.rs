//! The zombiesplit data model.
pub mod timing;
pub mod short;
pub mod run;
pub mod game;
pub mod session;
