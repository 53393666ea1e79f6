//! The discovery, health and keyring documents.

use serde_json::Value;
use vstd::prelude::*;
use vstd::string::*;
use crate::api::response;
use crate::api::response::ApiResponse;
use crate::api::response::CachePolicy;
use crate::json;
use crate::json::JsonView;
use crate::model::record::ADAPTER_NOTE;
use crate::model::record::DOMAIN;
use crate::model::record::OAIS_PROFILE;
use crate::model::record::SCHEMA;
use crate::model::record::SERVICE_ID;
use crate::model::record::SUITE;
use crate::time;
use crate::time::Timestamp;

verus! {

/// What the sections of a document are in OAIS terms.
pub open spec fn document_sections_document() -> JsonView {
    JsonView::Obj(
        map![
            "oais.submission"@ => JsonView::Str("the SIP: submitter, submitted_at, and the submitted {passport_id, state_hash, log_head, state_size}"@),
            "oais.information_package"@ => JsonView::Str("the AIP content: passport state, log head, the as_of instant, the commitment and statement digests"@),
            "oais.provenance"@ => JsonView::Str("the PDI: notarization (key id, signature), anchoring outcome and the verbatim log receipt"@),
        ],
    )
}

/// How the OAIS roles map onto the service.
pub open spec fn oais_mapping_document() -> JsonView {
    JsonView::Obj(
        map![
            "producer"@ => JsonView::Str("the issuer submitting {passport_id, state_hash, log_head} (POST /snapshots body = the SIP)"@),
            "ingest"@ => JsonView::Str("POST /snapshots: validate, timestamp, notarize (sign), optionally anchor into the transparency log"@),
            "archival_storage"@ => JsonView::Str("the JSONL journal (source of truth) + one AIP file per snapshot under the snapshot directory"@),
            "data_management"@ => JsonView::Str("GET /snapshots?passport_id=&at= — the as-of catalogue"@),
            "access"@ => JsonView::Str("GET /snapshots/{id} — re-serves the AIP byte-identically (access never changes the AIP)"@),
            "administration"@ => JsonView::Str("GET /keyring, GET /admin/log, Bearer-guarded ingest"@),
            "document_sections"@ => document_sections_document(),
        ],
    )
}

/// `oais`: the profile and the mapping.
pub open spec fn oais_document() -> JsonView {
    JsonView::Obj(
        map![
            "profile"@ => JsonView::Str(OAIS_PROFILE@),
            "mapping"@ => oais_mapping_document(),
        ],
    )
}

/// `endpoints`: the entry points.
pub open spec fn endpoints_document() -> JsonView {
    JsonView::Obj(
        map![
            "discovery"@ => JsonView::Str("GET /"@),
            "health"@ => JsonView::Str("GET /healthz"@),
            "keyring"@ => JsonView::Str("GET /keyring"@),
            "ingest"@ => JsonView::Str("POST /snapshots"@),
            "snapshot"@ => JsonView::Str("GET /snapshots/{id}"@),
            "listing"@ => JsonView::Str("GET /snapshots?passport_id=&at="@),
            "admin_log"@ => JsonView::Str("GET /admin/log?limit=&offset="@),
        ],
    )
}

/// How a verifier rebuilds and checks a statement.
pub open spec fn statement_recipe_document() -> JsonView {
    JsonView::Arr(
        seq![
            JsonView::Str("core = CanonicalWriter: str(\"unidpp-archive\"), str(snapshot_id), u64(seq), str(oais.information_package.passport_id), hash(state_hash), hash(log_head), i64(as_of.secs)"@),
            JsonView::Str("if oais.provenance.anchoring.status == \"anchored\": append u32(1), str(anchoring.log_id), u64(anchoring.receipt_id), u64(anchoring.tree_size), hash(anchoring.root); else append u32(0)"@),
            JsonView::Str("verify: SignatureSlot{suite: ed25519, key_id: oais.provenance.signing.key_id, signature: hex(oais.provenance.signature)}.verify(SigningDomain::TreeHead, statement, public from /keyring)"@),
            JsonView::Str("commitment check: sha256(core) == oais.information_package.commitment (and == oais.provenance.receipt.commitment when anchored)"@),
        ],
    )
}

/// `notarization`: the suite and the statement recipe.
pub open spec fn notarization_document() -> JsonView {
    JsonView::Obj(
        map![
            "suite"@ => JsonView::Str(SUITE@),
            "domain"@ => JsonView::Str(DOMAIN@),
            "adapter_note"@ => JsonView::Str(ADAPTER_NOTE@),
            "keyring_endpoint"@ => JsonView::Str("/keyring"@),
            "statement_recipe"@ => statement_recipe_document(),
        ],
    )
}

/// `anchoring`: when and how a commitment is anchored.
pub open spec fn anchoring_document() -> JsonView {
    JsonView::Obj(
        map![
            "when"@ => JsonView::Str("UNIDPP_LOG_URL points at a reachable unidpp-log instance"@),
            "how"@ => JsonView::Str("POST {UNIDPP_LOG_URL}/commitments with {subject: urn:unidpp:archive:snapshot:<id>, commitment: sha256(core statement bytes)}"@),
            "journalled"@ => JsonView::Str("receipt id, log id, tree size, root, logged_at, and the verbatim receipt ride the snapshot's provenance and the audit journal"@),
            "fallback"@ => JsonView::Str("an unreachable or refusing log degrades to status=unanchored with the reason recorded; the snapshot remains notarized"@),
        ],
    )
}

/// `storage`: the journal and the snapshot store.
pub open spec fn storage_document() -> JsonView {
    JsonView::Obj(
        map![
            "journal"@ => JsonView::Str("append-only JSONL (UNIDPP_ARCHIVE_STATE_FILE); replay on start with sequence, digest and torn-tail checks"@),
            "snapshot_store"@ => JsonView::Str("one JSON file per snapshot (UNIDPP_ARCHIVE_SNAPSHOT_DIR); verified against the journal on start, re-materialized when missing, mismatch is a hard error"@),
            "re_serve"@ => JsonView::Str("GET /snapshots/{id} re-renders from the journaled record — byte-identical by construction, pinned by the strong ETag"@),
        ],
    )
}

/// `as_of`: the instant that the document is as of, and the conventions of
/// point-in-time queries.
pub open spec fn as_of_document(now: Timestamp) -> JsonView {
    JsonView::Obj(
        map![
            "instant"@ => JsonView::Str(time::stamp_text(now)),
            "query_parameter"@ => JsonView::Str("at (alias: asof)"@),
            "response_header"@ => JsonView::Str("x-as-of"@),
            "listing_rule"@ => JsonView::Str("a snapshot is listed at instant T when notarized_at <= T"@),
            "point_in_time_cache"@ => JsonView::Str("responses to ?at=... carry cache-control: public, max-age=86400, immutable"@),
        ],
    )
}

/// The discovery document: the service identity, the OAIS mapping, the
/// notarization recipe, the anchoring semantics, the storage layout and the
/// entry points.
pub open spec fn discovery_document(
    version: Seq<char>,
    build_id: Seq<char>,
    anchoring_enabled: bool,
    now: Timestamp,
) -> JsonView {
    JsonView::Obj(
        map![
            "service"@ => JsonView::Str(SERVICE_ID@),
            "version"@ => JsonView::Str(version),
            "build_id"@ => JsonView::Str(build_id),
            "description"@ => JsonView::Str("UniDPP Tier-C notarized archive: as-of snapshot packs with OAIS-style metadata, Ed25519 notarization, optional transparency-log anchoring, byte-identical re-serving."@),
            "schema"@ => JsonView::Str(SCHEMA@),
            "anchoring_enabled"@ => JsonView::Bool(anchoring_enabled),
            "oais"@ => oais_document(),
            "endpoints"@ => endpoints_document(),
            "notarization"@ => notarization_document(),
            "anchoring"@ => anchoring_document(),
            "storage"@ => storage_document(),
            "as_of"@ => as_of_document(now),
            "auth"@ => JsonView::Str("POST /snapshots and /admin/log require a Bearer token when UNIDPP_ARCHIVE_ADMIN_TOKEN is set"@),
        ],
    )
}

fn document_sections_value() -> (v: Value)
    ensures
        json::json_of(v) == document_sections_document(),
{
    let mut e = json::entries();
    json::put(&mut e, "oais.submission", json::text("the SIP: submitter, submitted_at, and the submitted {passport_id, state_hash, log_head, state_size}"));
    json::put(&mut e, "oais.information_package", json::text("the AIP content: passport state, log head, the as_of instant, the commitment and statement digests"));
    json::put(&mut e, "oais.provenance", json::text("the PDI: notarization (key id, signature), anchoring outcome and the verbatim log receipt"));
    json::object(e)
}

fn oais_mapping_value() -> (v: Value)
    ensures
        json::json_of(v) == oais_mapping_document(),
{
    let mut e = json::entries();
    json::put(&mut e, "producer", json::text("the issuer submitting {passport_id, state_hash, log_head} (POST /snapshots body = the SIP)"));
    json::put(&mut e, "ingest", json::text("POST /snapshots: validate, timestamp, notarize (sign), optionally anchor into the transparency log"));
    json::put(&mut e, "archival_storage", json::text("the JSONL journal (source of truth) + one AIP file per snapshot under the snapshot directory"));
    json::put(&mut e, "data_management", json::text("GET /snapshots?passport_id=&at= — the as-of catalogue"));
    json::put(&mut e, "access", json::text("GET /snapshots/{id} — re-serves the AIP byte-identically (access never changes the AIP)"));
    json::put(&mut e, "administration", json::text("GET /keyring, GET /admin/log, Bearer-guarded ingest"));
    json::put(&mut e, "document_sections", document_sections_value());
    json::object(e)
}

fn oais_value() -> (v: Value)
    ensures
        json::json_of(v) == oais_document(),
{
    let mut e = json::entries();
    json::put(&mut e, "profile", json::text(OAIS_PROFILE));
    json::put(&mut e, "mapping", oais_mapping_value());
    json::object(e)
}

fn endpoints_value() -> (v: Value)
    ensures
        json::json_of(v) == endpoints_document(),
{
    let mut e = json::entries();
    json::put(&mut e, "discovery", json::text("GET /"));
    json::put(&mut e, "health", json::text("GET /healthz"));
    json::put(&mut e, "keyring", json::text("GET /keyring"));
    json::put(&mut e, "ingest", json::text("POST /snapshots"));
    json::put(&mut e, "snapshot", json::text("GET /snapshots/{id}"));
    json::put(&mut e, "listing", json::text("GET /snapshots?passport_id=&at="));
    json::put(&mut e, "admin_log", json::text("GET /admin/log?limit=&offset="));
    json::object(e)
}

fn statement_recipe_value() -> (r: Value)
    ensures
        json::json_of(r) == statement_recipe_document(),
{
    let mut v: Vec<Value> = Vec::new();
    v.push(json::text("core = CanonicalWriter: str(\"unidpp-archive\"), str(snapshot_id), u64(seq), str(oais.information_package.passport_id), hash(state_hash), hash(log_head), i64(as_of.secs)"));
    v.push(json::text("if oais.provenance.anchoring.status == \"anchored\": append u32(1), str(anchoring.log_id), u64(anchoring.receipt_id), u64(anchoring.tree_size), hash(anchoring.root); else append u32(0)"));
    v.push(json::text("verify: SignatureSlot{suite: ed25519, key_id: oais.provenance.signing.key_id, signature: hex(oais.provenance.signature)}.verify(SigningDomain::TreeHead, statement, public from /keyring)"));
    v.push(json::text("commitment check: sha256(core) == oais.information_package.commitment (and == oais.provenance.receipt.commitment when anchored)"));
    proof {
        assert(JsonView::Arr(json::contents(v@))->Arr_0 =~= statement_recipe_document()->Arr_0);
    }
    json::array(v)
}

fn notarization_value() -> (v: Value)
    ensures
        json::json_of(v) == notarization_document(),
{
    let mut e = json::entries();
    json::put(&mut e, "suite", json::text(SUITE));
    json::put(&mut e, "domain", json::text(DOMAIN));
    json::put(&mut e, "adapter_note", json::text(ADAPTER_NOTE));
    json::put(&mut e, "keyring_endpoint", json::text("/keyring"));
    json::put(&mut e, "statement_recipe", statement_recipe_value());
    json::object(e)
}

fn anchoring_value() -> (v: Value)
    ensures
        json::json_of(v) == anchoring_document(),
{
    let mut e = json::entries();
    json::put(&mut e, "when", json::text("UNIDPP_LOG_URL points at a reachable unidpp-log instance"));
    json::put(&mut e, "how", json::text("POST {UNIDPP_LOG_URL}/commitments with {subject: urn:unidpp:archive:snapshot:<id>, commitment: sha256(core statement bytes)}"));
    json::put(&mut e, "journalled", json::text("receipt id, log id, tree size, root, logged_at, and the verbatim receipt ride the snapshot's provenance and the audit journal"));
    json::put(&mut e, "fallback", json::text("an unreachable or refusing log degrades to status=unanchored with the reason recorded; the snapshot remains notarized"));
    json::object(e)
}

fn storage_value() -> (v: Value)
    ensures
        json::json_of(v) == storage_document(),
{
    let mut e = json::entries();
    json::put(&mut e, "journal", json::text("append-only JSONL (UNIDPP_ARCHIVE_STATE_FILE); replay on start with sequence, digest and torn-tail checks"));
    json::put(&mut e, "snapshot_store", json::text("one JSON file per snapshot (UNIDPP_ARCHIVE_SNAPSHOT_DIR); verified against the journal on start, re-materialized when missing, mismatch is a hard error"));
    json::put(&mut e, "re_serve", json::text("GET /snapshots/{id} re-renders from the journaled record — byte-identical by construction, pinned by the strong ETag"));
    json::object(e)
}

fn as_of_value(now: Timestamp) -> (v: Value)
    ensures
        json::json_of(v) == as_of_document(now),
{
    let mut e = json::entries();
    json::put(&mut e, "instant", json::string(now.to_string()));
    json::put(&mut e, "query_parameter", json::text("at (alias: asof)"));
    json::put(&mut e, "response_header", json::text("x-as-of"));
    json::put(&mut e, "listing_rule", json::text("a snapshot is listed at instant T when notarized_at <= T"));
    json::put(&mut e, "point_in_time_cache", json::text("responses to ?at=... carry cache-control: public, max-age=86400, immutable"));
    json::object(e)
}

/// Serve the discovery document.
pub fn discovery(version: &str, build_id: &str, anchoring_enabled: bool, now: Timestamp) -> (r:
    ApiResponse)
    ensures
        r@ == response::json_answer(
            200,
            discovery_document(version@, build_id@, anchoring_enabled, now),
            now,
            CachePolicy::Current,
        ),
{
    let mut e = json::entries();
    json::put(&mut e, "service", json::text(SERVICE_ID));
    json::put(&mut e, "version", json::text(version));
    json::put(&mut e, "build_id", json::text(build_id));
    json::put(&mut e, "description", json::text("UniDPP Tier-C notarized archive: as-of snapshot packs with OAIS-style metadata, Ed25519 notarization, optional transparency-log anchoring, byte-identical re-serving."));
    json::put(&mut e, "schema", json::text(SCHEMA));
    json::put(&mut e, "anchoring_enabled", json::boolean(anchoring_enabled));
    json::put(&mut e, "oais", oais_value());
    json::put(&mut e, "endpoints", endpoints_value());
    json::put(&mut e, "notarization", notarization_value());
    json::put(&mut e, "anchoring", anchoring_value());
    json::put(&mut e, "storage", storage_value());
    json::put(&mut e, "as_of", as_of_value(now));
    json::put(&mut e, "auth", json::text("POST /snapshots and /admin/log require a Bearer token when UNIDPP_ARCHIVE_ADMIN_TOKEN is set"));
    response::json_response(200, &json::object(e), now, CachePolicy::Current)
}

/// The liveness document.
pub open spec fn health_document(
    snapshots: u64,
    anchoring_enabled: bool,
    as_of: Timestamp,
) -> JsonView {
    JsonView::Obj(
        map![
            "status"@ => JsonView::Str("ok"@),
            "service"@ => JsonView::Str(SERVICE_ID@),
            "snapshots"@ => JsonView::UInt(snapshots),
            "anchoring_enabled"@ => JsonView::Bool(anchoring_enabled),
            "as_of"@ => JsonView::Str(time::stamp_text(as_of)),
        ],
    )
}

/// Serve the liveness document, written at `as_of` and sent at `now`.
pub fn healthz(snapshots: u64, anchoring_enabled: bool, as_of: Timestamp, now: Timestamp) -> (r:
    ApiResponse)
    ensures
        r@ == response::json_answer(
            200,
            health_document(snapshots, anchoring_enabled, as_of),
            now,
            CachePolicy::Current,
        ),
{
    let mut e = json::entries();
    json::put(&mut e, "status", json::text("ok"));
    json::put(&mut e, "service", json::text(SERVICE_ID));
    json::put(&mut e, "snapshots", json::uint(snapshots));
    json::put(&mut e, "anchoring_enabled", json::boolean(anchoring_enabled));
    json::put(&mut e, "as_of", json::string(as_of.to_string()));
    response::json_response(200, &json::object(e), now, CachePolicy::Current)
}

/// Serve the notary keyring a verifier pins, stamped at `as_of` and sent at
/// `now`. The stamp changes with every request, so the answer is of the current
/// state.
pub fn keyring(document: Value, as_of: Timestamp, now: Timestamp) -> (r: ApiResponse)
    ensures
        r@ == response::json_answer(
            200,
            json::with_field(
                json::json_of(document),
                "as_of"@,
                JsonView::Str(time::stamp_text(as_of)),
            ),
            now,
            CachePolicy::Current,
        ),
{
    let mut v = document;
    json::insert(&mut v, "as_of", json::string(as_of.to_string()));
    response::json_response(200, &v, now, CachePolicy::Current)
}

} // verus!
