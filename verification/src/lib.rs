//! Core logic of a small "quick translate" desktop utility: request signing
//! for a cloud translation provider, dispatch planning for the configured
//! engine, payload construction, and response normalization.
//!
//! Everything here is pure with respect to the outside world: network I/O,
//! clipboard access and window management live in the surrounding
//! application, which feeds this library plain values and carries its
//! results back out.
pub mod crypto;
pub mod dispatch;
pub mod fence;
pub mod json_in;
pub mod json_out;
pub mod lang;
pub mod layout;
pub mod numfmt;
pub mod settings;
pub mod shortcut;
pub mod signer;
pub mod text;
