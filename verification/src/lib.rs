//! Unattended ingestion of PDF documents: content-addressed identification,
//! text-layer inspection, recognition fallback, per-page language tagging and
//! the hand-off into durable storage, as a verified decision core.

pub mod config;
pub mod date;
pub mod digest;
pub mod text;
pub mod inspect;
pub mod pagefile;
pub mod language;
pub mod document;
pub mod ocr;
pub mod job;
pub mod protocol;
pub mod state;
pub mod laws;
pub mod coordinator;
