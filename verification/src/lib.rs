//! Collaborative documents built on the yrs CRDT library: state vectors,
//! delete sets, snapshots, the synchronisation messages that carry them, and
//! texts and arrays edited inside transactions.
pub mod array;
pub mod doc;
pub mod error;
pub mod event;
pub mod map;
pub mod message;
pub mod prelim;
pub mod scan;
pub mod state;
pub mod text;
pub mod wire;
