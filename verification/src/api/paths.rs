//! The routed paths, declared once.

use vstd::prelude::*;

verus! {

pub const ROOT: &'static str = "/";

pub const HEALTHZ: &'static str = "/healthz";

pub const KEYRING: &'static str = "/keyring";

pub const SNAPSHOTS: &'static str = "/snapshots";

pub const SNAPSHOT: &'static str = "/snapshots/{id}";

pub const ADMIN_LOG: &'static str = "/admin/log";

/// The contract document itself (not an operation of the API).
pub const CONTRACT_YAML: &'static str = "/openapi.yaml";

} // verus!
