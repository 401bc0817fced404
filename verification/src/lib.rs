//! Client-side logic of the Anki sync protocol and related services:
//! response decoding, upload checks, sync-status decisions, login
//! bookkeeping, media upload archives, and generated service interfaces.

pub mod error;
pub mod text;
pub mod ankiweb;
pub mod interface;
pub mod upload;
pub mod download;
pub mod gzip;
pub mod response;
pub mod status;
pub mod login;
pub mod media;
pub mod progress;
pub mod request;
