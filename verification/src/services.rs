//! Shared types of the services around the capture core: the local
//! record store, process discovery, settings persistence, and the
//! background synchronization service. The services themselves are I/O
//! glue in the application layer; the types and the pure rules they rely
//! on live here.

pub mod db;
pub mod discovery;
pub mod storage;
pub mod sync;
