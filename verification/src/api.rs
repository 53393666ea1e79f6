//! The service surface: what each request is answered.
//!
//! Reads are public; ingest and the audit log require a Bearer token when one is
//! configured. Every answer is as-of stamped; point-in-time answers are
//! immutable and cacheable, and snapshots are served with a strong `ETag`
//! derived from the body digest.

pub mod access;
pub mod config;
pub mod discovery;
pub mod ingest;
pub mod paths;
pub mod request;
pub mod response;

pub use self::access::admin_log;
pub use self::access::get_snapshot;
pub use self::access::list_snapshots;
pub use self::config::Config;
pub use self::config::DEFAULT_BIND;
pub use self::discovery::discovery;
pub use self::discovery::healthz;
pub use self::discovery::keyring;
pub use self::ingest::begin_create;
pub use self::ingest::complete_create;
pub use self::ingest::open_create;
pub use self::ingest::PendingSnapshot;
pub use self::request::opt_query;
pub use self::request::opt_str;
pub use self::request::opt_u64;
pub use self::request::parse_at;
pub use self::request::parse_body;
pub use self::request::parse_create_request;
pub use self::request::req_hash;
pub use self::request::req_str;
pub use self::request::validate_passport_id;
pub use self::request::CreateRequest;
pub use self::response::bad_request;
pub use self::response::build_response;
pub use self::response::cache_for;
pub use self::response::error_response;
pub use self::response::json_response;
pub use self::response::not_found;
pub use self::response::require_admin;
pub use self::response::store_error;
pub use self::response::ApiResponse;
pub use self::response::CachePolicy;
