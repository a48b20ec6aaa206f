//! Verified core of the host-language bindings for a columnar data engine.
//!
//! The engine is reached through asynchronous calls that live outside this
//! crate.  What is decided before such a call is made and after it returns
//! stands here: how a loosely typed host value becomes an update payload or a
//! schema, which options go with a request, how engine failures are shown to
//! the host, and how engine events are routed back into host callbacks.

pub mod error;
pub mod column_type;
pub mod value;
pub mod update_data;
pub mod callback;
pub mod client;
pub mod table;
pub mod subscription;
