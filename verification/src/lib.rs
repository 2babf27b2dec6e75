//! Key pairs, certificates and trust anchors for SSH on one host.
//!
//! The library decides; its caller touches the disk, the network and the
//! terminal. Each operation is a function from what the caller has observed
//! (a directory listing, an HTTP status, an exit code) to the steps to take
//! and the outcome to report.

pub mod certificate;
pub mod error;
pub mod history;
pub mod installer;
pub mod keystore;
pub mod listing;
pub mod names;
pub mod pairs;
pub mod terminal;
pub mod text;
pub mod trust;
