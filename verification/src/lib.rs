//! A verified core for a notification forwarder: it classifies a page of
//! raw notifications against a persisted watermark, formats each new one
//! into a (title, message, optional link) triple, and reports the new
//! watermark. Transport and persistence live outside this crate.

pub mod classify;
pub mod config;
pub mod notification;
pub mod parse;
pub mod text;
