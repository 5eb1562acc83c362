//! Decision logic of a battery-alert agent: when to raise an alert, which
//! tier to raise, how repeated alerts are suppressed, and how one popup
//! session resolves pointer input against a live battery reading.

pub mod error;
pub mod text;
pub mod reading;
pub mod source;
pub mod font;
pub mod policy;
pub mod popup;
pub mod laws;
