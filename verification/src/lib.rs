//! Session core of a voice-room client.
//!
//! The crate holds the decisions of a room session as plain, synchronous
//! functions: which events the host sees and in what order, how captured audio
//! is cut into transport frames, and how participant metadata is read. The
//! network, the async runtime and the host engine live outside and feed this
//! core with what they observed.

pub mod audio;
pub mod event;
pub mod laws;
pub mod manager;
pub mod metadata;
pub mod model;
pub mod room;
