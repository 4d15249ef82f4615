//! Read-only introspection logic for one or more named key-value store
//! instances: connection resolution, bounded cursor-driven key enumeration,
//! and normalization of the five native value shapes into one structured
//! representation. All store round trips are performed by the caller; this
//! crate holds the decisions and the data handling, verified.

pub mod clients;
pub mod error;
pub mod hashfields;
pub mod keyinfo;
pub mod listrange;
pub mod members;
pub mod params;
pub mod scan;
pub mod server;
pub mod slowlog;
pub mod text;
pub mod value;
