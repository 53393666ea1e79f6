//! A notarized archive of digital product passport snapshots.
//!
//! The archive keeps notarized as-of snapshots of passport states, which it
//! serves byte-identically, with archival metadata (ISO 14721, simplified for
//! digital product passports) and an optional transparency-log anchor:
//!
//! - `model`: the snapshot record, its canonical statement, the served document
//!   and the journal line, and the rebuilding of the statement from a document;
//! - `store`: sequencing, journal replay, appends, snapshot-file checks and the
//!   as-of listing;
//! - `journal`: the lines of a journal, and which part of one is to be kept;
//! - `log_anchor`: what is sent to a transparency log, and what its reply means;
//! - `api`: what each request is answered;
//! - `laws`: what holds of the archive as a whole.
//!
//! The statement bytes come from a canonical writer that the caller passes in
//! (`canonical`), the signature from a notary, and the clock, the files and the
//! network are the caller's.

pub mod api;
pub mod canonical;
pub mod fields;
pub mod hash;
pub mod hex;
pub mod journal;
pub mod json;
pub mod keys;
pub mod laws;
pub mod log_anchor;
pub mod model;
pub mod params;
pub mod store;
pub mod text;
pub mod time;

pub use crate::api::Config;
pub use crate::hex::hex_decode;
pub use crate::hex::hex_encode;
pub use crate::log_anchor::LogAnchorConfig;
pub use crate::model::Anchoring;
pub use crate::model::AnchoringStatus;
pub use crate::model::SnapshotRecord;
pub use crate::store::SnapshotStore;
pub use crate::store::StoreError;
pub use crate::time::Timestamp;
