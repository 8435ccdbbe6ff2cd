//! A client-side engine for resumable file uploads over the tus 1.0.0
//! protocol: upload records and their state machine, the registry of
//! records, the transfer state machine of one worker and the admission
//! control over concurrently running workers.
pub mod clock;
pub mod config;
pub mod encoding;
pub mod entries;
pub mod error;
pub mod manager;
pub mod md5;
pub mod number;
pub mod protocol;
pub mod state;
pub mod text;
pub mod upload;
pub mod worker;
