//! zombiesplit client/server protocol: the message types, and their transcoding to and from the
//! model.
pub mod client;
pub mod dump;
pub mod proto;
pub mod server;
