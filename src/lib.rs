//! Pairs a desktop machine with a remote site and reports its liveness.
//!
//! The library holds the decisions: input validation, the REST endpoints,
//! the request bodies, how a pairing response is read, the stored record and
//! when a heartbeat is due. The caller performs the HTTP calls and the file
//! access and hands the outcomes back.

pub mod text;
pub mod json;
pub mod identity;
pub mod record;
pub mod client;
