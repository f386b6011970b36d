//! Session layer of a shared audio library: friend-scoped visibility caches,
//! friend-graph bookkeeping, stored-record decoding and a single-slot playback
//! controller. Remote storage, audio output and file access are left to the
//! caller; this crate decides what to do with their results.

pub mod model;
pub mod codec;
pub mod credentials;
pub mod friends;
pub mod library;
pub mod playback;
pub mod records;
pub mod session;
pub mod visibility;
