//! The archive's domain shapes: the snapshot record (the journal's storage
//! unit), the canonical statement bytes (what the notary signs and what the
//! transparency log anchors), the OAIS-style document (the archival
//! information package a client receives byte-identically), and the
//! verifier-side rebuild helpers.
//!
//! The served document is derived state, a pure function of the record, so
//! journal replay reproduces byte-identical bodies. The document embeds its own
//! notarization signature over the canonical statement bytes.

pub mod anchoring;
pub mod rebuild;
pub mod record;

pub use self::anchoring::anchor_summary_from_receipt;
pub use self::anchoring::AnchorSummary;
pub use self::anchoring::Anchoring;
pub use self::anchoring::AnchoringStatus;
pub use self::rebuild::core_bytes_from_document;
pub use self::rebuild::statement_bytes_from_document;
pub use self::record::snapshot_id_of;
pub use self::record::Notarization;
pub use self::record::SnapshotRecord;
pub use self::record::ADAPTER_NOTE;
pub use self::record::OAIS_PROFILE;
pub use self::record::SCHEMA;
pub use self::record::SERVICE_ID;
