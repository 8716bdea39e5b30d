//! Fingerprint profiles, bootstrap-script generation and human-like input
//! planning for a remotely driven browser session.

pub mod profiles;
pub mod text;
pub mod script;
pub mod bezier;
mod chance;
pub mod page;
pub mod keyboard;
pub mod scroll;
pub mod stealth;
