//! zombiesplit: a speedrun split timer, as a verified library of its timing model,
//! its protocol transcoding, and its presenter state machines.
pub mod model;
pub mod text;
pub mod presenter;
pub mod net;
