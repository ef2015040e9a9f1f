//! A small relay library: it tracks the last-known network address of a
//! single dynamically-addressed backend host as a time-limited lease, and
//! builds the responses of the three HTTP endpoints a thin server exposes
//! around it (announce an address, forward to the backend, record a
//! measurement).

pub mod clock;
pub mod error;
pub mod lease;
pub mod response;
