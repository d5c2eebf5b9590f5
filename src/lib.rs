//! Verified core of a multi-session terminal and file-transfer gateway:
//! session registry, transfer coordination, recording, security gate,
//! client-link decisions and autocomplete.

pub mod errors;
pub mod ledger;
pub mod fingerprint;
pub mod security;
pub mod text;
pub mod transfer;
pub mod autocomplete;
pub mod session;
pub mod recording;
pub mod link;
pub mod monitor;
pub mod advice;
pub mod messages;
