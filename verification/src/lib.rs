//! Verified core of atman: the wire framing and the sync conversation of the
//! peer protocol, document addressing and registration, the blob-ticket text
//! form, the secret-key hex form, and the decisions of the periodic sync and
//! of local node registration.

pub mod frame;
pub mod doc;
pub mod keyed;
pub mod sync;
pub mod protocol;
pub mod ticket;
pub mod config;
pub mod error;
pub mod discovery;
pub mod models;
pub mod periodic_sync;
pub mod text;
pub mod blobs;
pub mod binding;
pub mod uniffi_api;
pub mod network;
pub mod command;
pub mod node;
pub mod rest;
