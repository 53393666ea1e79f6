//! Requests and answers.

use serde_json::Value;
use unidpp_archive::api::{
    admin_log, begin_create, cache_for, complete_create, discovery, get_snapshot, healthz,
    keyring, list_snapshots, open_create, opt_query, opt_str, parse_at, parse_body,
    parse_create_request, paths, require_admin, store_error, validate_passport_id, ApiResponse,
    CachePolicy, DEFAULT_BIND,
};
use unidpp_archive::canonical::CanonicalField;
use unidpp_archive::hash::sha256;
use unidpp_archive::log_anchor::anchor_request;
use unidpp_archive::model::{
    core_bytes_from_document, statement_bytes_from_document, Notarization,
};
use unidpp_archive::params::Params;
use unidpp_archive::store::{JournalRead, SnapshotFile};
use unidpp_archive::{Config, LogAnchorConfig, SnapshotStore, StoreError, Timestamp};

fn writer(fields: &Vec<CanonicalField>) -> Vec<u8> {
    let mut out = Vec::new();
    for f in fields {
        match f {
            CanonicalField::Str(s) => {
                out.extend_from_slice(&(s.len() as u32).to_be_bytes());
                out.extend_from_slice(s.as_bytes());
            }
            CanonicalField::U32(n) => out.extend_from_slice(&n.to_be_bytes()),
            CanonicalField::U64(n) => out.extend_from_slice(&n.to_be_bytes()),
            CanonicalField::I64(n) => out.extend_from_slice(&n.to_be_bytes()),
            CanonicalField::Digest(h) => out.extend_from_slice(&h.0),
            CanonicalField::Raw(b) => out.extend_from_slice(b),
        }
    }
    out
}

fn notary(statement: &Vec<u8>) -> Result<Notarization, String> {
    Ok(Notarization {
        signature: Some(sha256(statement).0.to_vec()),
        key_id: "k-api".to_string(),
    })
}

fn no_file(_: &SnapshotFile) -> Result<(), String> {
    Ok(())
}

fn no_line(_: &String) -> Result<(), String> {
    Ok(())
}

fn json(text: &str) -> Value {
    serde_json::from_str(text).unwrap()
}

fn at(secs: i64) -> Timestamp {
    Timestamp::from_secs(secs)
}

fn fresh() -> SnapshotStore {
    SnapshotStore::new()
}

fn header<'a>(r: &'a ApiResponse, name: &str) -> Option<&'a str> {
    r.headers
        .iter()
        .find(|h| h.0 == name)
        .map(|h| h.1.as_str())
}

fn query(pairs: &[(&str, &str)]) -> Params {
    let mut p = Params::new();
    for (k, v) in pairs {
        p.insert(k, v);
    }
    p
}

fn body_for(passport: &str) -> String {
    format!(
        r#"{{"passport_id": "{passport}", "state_hash": "{}", "log_head": "{}",
            "submitter": "urn:unidpp:actor:issuer-0", "state_size": 4096}}"#,
        sha256(b"state-0").hex(),
        sha256(b"head-0").hex()
    )
}

/// Ingest with a given anchoring attempt.
fn create(
    store: &mut SnapshotStore,
    passport: &str,
    now: Timestamp,
    receipt: Result<Value, String>,
) -> ApiResponse {
    let req = begin_create(&None, None, &body_for(passport), now).ok().unwrap();
    let pending = open_create(store, &writer, req, now);
    complete_create(store, &writer, notary, no_file, no_line, pending, receipt, now)
}

fn unconfigured() -> Result<Value, String> {
    match anchor_request(&LogAnchorConfig::disabled(), "s", &sha256(b"x")) {
        Ok(_) => panic!("no log is configured"),
        Err(e) => Err(e),
    }
}

fn receipt(commitment: &unidpp_archive::hash::Hash) -> Value {
    json(&format!(
        r#"{{"receipt_id": "0", "log_id": "unidpp-log-1", "seq": 0,
            "commitment": "{}", "logged_at": "2026-09-07T10:00:00Z",
            "tree_head": {{"tree_size": 1, "root": "{}"}}}}"#,
        commitment.hex(),
        sha256(b"root").hex()
    ))
}

#[test]
fn create_request_validation() {
    let good = json(&format!(
        r#"{{
            "passport_id": "urn:unidpp:passport:e8",
            "state_hash": "{}",
            "log_head": "{}",
            "submitter": "urn:unidpp:actor:issuer-1",
            "state_size": 2048
        }}"#,
        sha256(b"s").hex(),
        sha256(b"h").hex()
    ));
    let r = parse_create_request(&good).unwrap();
    assert_eq!(r.passport_id, "urn:unidpp:passport:e8");
    assert_eq!(r.state_hash, sha256(b"s"));
    assert_eq!(r.log_head, sha256(b"h"));
    assert_eq!(r.submitter.as_deref(), Some("urn:unidpp:actor:issuer-1"));
    assert_eq!(r.state_size, Some(2048));
    // Optionals may be omitted entirely.
    let with = |extra: &str| {
        json(&format!(
            r#"{{"passport_id": "p", "state_hash": "{}", "log_head": "{}"{extra}}}"#,
            sha256(b"s").hex(),
            sha256(b"h").hex()
        ))
    };
    let r = parse_create_request(&with("")).unwrap();
    assert!(r.submitter.is_none() && r.state_size.is_none());
    // Rejections.
    assert!(parse_create_request(&json(r#"{"state_hash": "00", "log_head": "00"}"#)).is_err());
    assert!(parse_create_request(&json(
        r#"{"passport_id": "p", "state_hash": "nothex", "log_head": "00"}"#
    ))
    .is_err());
    assert!(parse_create_request(&with(r#", "state_size": -1"#)).is_err());
    let long = "x".repeat(513);
    assert!(parse_create_request(&json(&format!(
        r#"{{"passport_id": "{long}", "state_hash": "{}", "log_head": "{}"}}"#,
        sha256(b"s").hex(),
        sha256(b"h").hex()
    )))
    .is_err());
    assert!(parse_create_request(&with(r#", "submitter": "  ""#)).is_err());
}

#[test]
fn each_flaw_of_a_request_has_its_words() {
    let good = json(&body_for("p"));
    let refused = |key: &str, value: Value| {
        let mut v = good.clone();
        v[key] = value;
        parse_create_request(&v).unwrap_err()
    };
    assert_eq!(
        parse_create_request(&Value::Null).unwrap_err(),
        "`passport_id` is required"
    );
    assert_eq!(refused("passport_id", Value::from(" ")), "`passport_id` is required");
    assert_eq!(
        refused("passport_id", Value::from("x".repeat(513))),
        "`passport_id` must be 1-512 characters"
    );
    assert_eq!(
        refused("passport_id", Value::from("a\u{7f}b")),
        "`passport_id` must not contain control characters"
    );
    assert_eq!(refused("state_hash", Value::Null), "`state_hash` is required");
    assert_eq!(
        refused("log_head", Value::from("00")),
        "`log_head` must be a 64-character hex SHA-256 value"
    );
    assert_eq!(refused("submitter", Value::from(1)), "`submitter` must be a string");
    assert_eq!(refused("submitter", Value::from("\t")), "`submitter` must not be blank");
    assert_eq!(
        refused("submitter", Value::from("é".repeat(257))),
        "`submitter` must be at most 512 characters"
    );
    assert_eq!(
        refused("state_size", Value::from("1")),
        "`state_size` must be an unsigned integer"
    );
    assert_eq!(
        refused("state_size", Value::from(0.5)),
        "`state_size` must be an unsigned integer"
    );
    // White space around texts is dropped.
    let mut v = good.clone();
    v["passport_id"] = Value::from("  p q ");
    v["submitter"] = Value::from(" me ");
    v["state_hash"] = Value::from(format!(" {} ", sha256(b"state-0").hex()));
    let r = parse_create_request(&v).unwrap();
    assert_eq!(r.passport_id, "p q");
    assert_eq!(r.submitter.as_deref(), Some("me"));
    assert_eq!(r.state_hash, sha256(b"state-0"));
}

#[test]
fn lengths_are_counted_in_bytes() {
    assert!(validate_passport_id(&"é".repeat(256)).is_ok());
    assert!(validate_passport_id(&"é".repeat(257)).is_err());
    assert!(validate_passport_id("").is_err());
    let v = Value::from("x".repeat(512));
    let mut o = json("{}");
    o["k"] = v;
    assert_eq!(opt_str(&o, "k").unwrap().unwrap().len(), 512);
    assert_eq!(opt_str(&o, "absent").unwrap(), None);
}

#[test]
fn at_parameter_parsing() {
    let mut params = Params::new();
    assert_eq!(parse_at(&params).unwrap(), None);
    params.insert("at", "");
    assert_eq!(parse_at(&params).unwrap(), None);
    params.insert("at", "2026-09-07T10:00:00Z");
    let t = parse_at(&params).unwrap().unwrap();
    assert_eq!(t, Timestamp::parse("2026-09-07T10:00:00Z").unwrap());
    // The `asof` alias.
    let mut alias = Params::new();
    alias.insert("asof", "2026-09-07");
    assert!(parse_at(&alias).unwrap().is_some());
    params.insert("at", "garbage");
    assert!(parse_at(&params).is_err());
}

#[test]
fn an_empty_at_hides_the_alias() {
    let p = query(&[("at", ""), ("asof", "2026-09-07")]);
    assert_eq!(parse_at(&p).unwrap(), None);
    assert_eq!(
        parse_at(&query(&[("at", "whenever")])).unwrap_err(),
        "invalid `at` parameter: `whenever` is not an RFC 3339 instant"
    );
    assert_eq!(opt_query(&query(&[("k", " v ")]), "k").as_deref(), Some("v"));
    assert_eq!(opt_query(&query(&[("k", "  ")]), "k"), None);
    assert_eq!(opt_query(&query(&[]), "k"), None);
}

#[test]
fn cache_policy_switches_on_at() {
    assert_eq!(cache_for(None), CachePolicy::Current);
    assert_eq!(
        cache_for(Some(Timestamp::from_secs(0))),
        CachePolicy::PointInTime
    );
}

#[test]
fn cache_policies_have_their_headers() {
    assert_eq!(
        CachePolicy::Current.header_value(),
        "public, max-age=30, must-revalidate"
    );
    assert_eq!(
        CachePolicy::PointInTime.header_value(),
        "public, max-age=86400, immutable"
    );
    assert_eq!(CachePolicy::NoStore.header_value(), "no-store");
}

#[test]
fn bodies_are_read_as_json() {
    assert_eq!(parse_body("[1]").unwrap(), json("[1]"));
    let expected = serde_json::from_str::<Value>("{not json").unwrap_err();
    assert_eq!(
        parse_body("{not json").unwrap_err(),
        format!("invalid JSON body: {expected}")
    );
}

#[test]
fn the_guard_wants_the_configured_token() {
    let token = Some("it-secret".to_string());
    assert!(require_admin(&None, None, at(0)).is_none());
    assert!(require_admin(&None, Some("Bearer x"), at(0)).is_none());
    assert!(require_admin(&token, Some("Bearer it-secret"), at(0)).is_none());
    for got in [
        None,
        Some(""),
        Some("it-secret"),
        Some("Bearer wrong"),
        Some("bearer it-secret"),
        Some("Bearer it-secret "),
    ] {
        let r = require_admin(&token, got, at(0)).unwrap();
        assert_eq!(r.status, 401);
        assert_eq!(json(&r.body)["error"], "unauthorized");
        assert_eq!(header(&r, "cache-control"), Some("no-store"));
        assert_eq!(header(&r, "content-type"), Some("application/json"));
        assert_eq!(header(&r, "x-as-of"), Some("1970-01-01T00:00:00Z"));
    }
}

#[test]
fn ingest_refuses_before_it_reads() {
    let token = Some("it-secret".to_string());
    let refused = |auth: Option<&str>, body: &str| begin_create(&token, auth, body, at(5)).unwrap_err();
    let r = refused(None, "{not json");
    assert_eq!(r.status, 401);
    let auth = Some("Bearer it-secret");
    let r = refused(auth, "{not json");
    assert_eq!(r.status, 400);
    assert!(json(&r.body)["error"].as_str().unwrap().starts_with("invalid JSON body: "));
    let r = refused(auth, r#"{"passport_id": "urn:x", "state_hash": "not-hex", "log_head": "00"}"#);
    assert_eq!(r.status, 400);
    assert_eq!(
        json(&r.body)["error"],
        "`state_hash` must be a 64-character hex SHA-256 value"
    );
    assert!(begin_create(&token, auth, &body_for("p"), at(5)).is_ok());
}

#[test]
fn an_unanchored_ingest_is_created_and_served() {
    let mut store = fresh();
    let now = at(1_900_000_000);
    let r = create(&mut store, "urn:unidpp:passport:e8", now, unconfigured());
    assert_eq!(r.status, 201);
    assert_eq!(header(&r, "location"), Some("/snapshots/s-000000000000"));
    assert_eq!(header(&r, "x-snapshot-id"), Some("s-000000000000"));
    assert_eq!(header(&r, "x-as-of"), Some("2030-03-17T17:46:40Z"));
    assert_eq!(header(&r, "x-anchored-receipt"), None);
    assert_eq!(header(&r, "cache-control"), Some("no-store"));
    let etag = format!("\"sha-{}\"", &sha256(r.body.as_bytes()).hex()[..32]);
    assert_eq!(header(&r, "etag"), Some(etag.as_str()));
    let doc = json(&r.body);
    assert_eq!(doc["schema"], "unidpp-archive/snapshot/1");
    assert_eq!(doc["oais"]["submission"]["submitter"], "urn:unidpp:actor:issuer-0");
    assert_eq!(doc["oais"]["submission"]["state_hash"], sha256(b"state-0").hex());
    assert_eq!(doc["oais"]["submission"]["state_size"], 4096);
    let a = &doc["oais"]["provenance"]["anchoring"];
    assert_eq!(a["status"], "unanchored");
    assert!(a["reason"].as_str().unwrap().contains("not configured"));
    // The commitment in the document is the digest of the core statement.
    let core = core_bytes_from_document(&writer, &doc).unwrap();
    assert_eq!(
        doc["oais"]["information_package"]["commitment"],
        sha256(&core).hex()
    );
    // The signature covers the rebuilt statement.
    let statement = statement_bytes_from_document(&writer, &doc).unwrap();
    assert_eq!(
        doc["oais"]["provenance"]["signature"],
        sha256(&statement).hex()
    );
    // Access serves the same bytes under the same tag.
    let got = get_snapshot(&store, &writer, " s-000000000000 ", at(1_900_000_500));
    assert_eq!(got.status, 200);
    assert_eq!(got.body, r.body);
    assert_eq!(header(&got, "etag"), header(&r, "etag"));
    assert_eq!(header(&got, "x-as-of"), header(&r, "x-as-of"));
    assert!(header(&got, "cache-control").unwrap().contains("immutable"));
    // And still does after another snapshot.
    create(&mut store, "urn:unidpp:passport:other", at(1_900_000_600), unconfigured());
    let again = get_snapshot(&store, &writer, "s-000000000000", at(1_900_000_700));
    assert_eq!(again.body, r.body);
    assert_eq!(again.headers, got.headers);
}

#[test]
fn an_anchored_ingest_names_its_receipt() {
    let mut store = fresh();
    let now = at(1_900_000_000);
    let req = begin_create(&None, None, &body_for("urn:unidpp:passport:e8"), now).ok().unwrap();
    let pending = open_create(&store, &writer, req, now);
    assert_eq!(pending.subject, "urn:unidpp:archive:snapshot:s-000000000000");
    assert_eq!(pending.commitment, pending.record.commitment(&writer));
    let commitment = pending.commitment;
    let r = complete_create(
        &mut store,
        &writer,
        notary,
        no_file,
        no_line,
        pending,
        Ok(receipt(&commitment)),
        now,
    );
    assert_eq!(r.status, 201);
    assert_eq!(header(&r, "x-anchored-receipt"), Some("0"));
    let doc = json(&r.body);
    let p = &doc["oais"]["provenance"];
    assert_eq!(p["anchoring"]["status"], "anchored");
    assert_eq!(p["anchoring"]["log_id"], "unidpp-log-1");
    assert_eq!(p["anchoring"]["receipt_id"], "0");
    assert_eq!(p["anchoring"]["tree_size"], 1);
    assert_eq!(p["receipt"], receipt(&commitment));
    assert_eq!(
        p["receipt"]["commitment"],
        doc["oais"]["information_package"]["commitment"]
    );
}

#[test]
fn a_rejected_receipt_falls_back_with_the_reason() {
    let mut store = fresh();
    let r = create(&mut store, "p", at(1), Ok(json("{}")));
    assert_eq!(r.status, 201);
    let a = json(&r.body)["oais"]["provenance"]["anchoring"].clone();
    assert_eq!(a["status"], "unanchored");
    assert_eq!(a["reason"], "log receipt rejected: receipt missing `log_id`");
    let r = create(&mut store, "p", at(2), Err("log unreachable: refused".to_string()));
    assert_eq!(r.status, 201);
    let doc = json(&r.body);
    assert_eq!(
        doc["oais"]["provenance"]["anchoring"]["reason"],
        "log unreachable: refused"
    );
    assert!(doc["oais"]["provenance"]["receipt"].is_null());
}

#[test]
fn failures_of_an_ingest_leave_the_store_as_it_was() {
    let mut store = fresh();
    let now = at(7);
    let pending = |store: &SnapshotStore| {
        let req = begin_create(&None, None, &body_for("p"), now).ok().unwrap();
        open_create(store, &writer, req, now)
    };
    // The notary fails.
    let failing = |_: &Vec<u8>| -> Result<Notarization, String> { Err("no key".to_string()) };
    let p = pending(&store);
    let r = complete_create(&mut store, &writer, failing, no_file, no_line, p, unconfigured(), now);
    assert_eq!(r.status, 500);
    assert_eq!(
        json(&r.body)["error"],
        "notarization failed: notarization sign: no key"
    );
    assert_eq!(store.size(), 0);
    // The disk fails.
    let full = |_: &String| -> Result<(), String> { Err("disk full".to_string()) };
    let p = pending(&store);
    let r = complete_create(&mut store, &writer, notary, no_file, full, p, unconfigured(), now);
    assert_eq!(r.status, 500);
    assert_eq!(json(&r.body)["error"], "storage integrity failure: disk full");
    assert_eq!(store.size(), 0);
    let broken = |_: &SnapshotFile| -> Result<(), String> { Err("read-only".to_string()) };
    let never = |_: &String| -> Result<(), String> { panic!("no line is due") };
    let p = pending(&store);
    let r = complete_create(&mut store, &writer, notary, broken, never, p, unconfigured(), now);
    assert_eq!(r.status, 500);
    assert_eq!(json(&r.body)["error"], "storage integrity failure: read-only");
    assert_eq!(store.size(), 0);
    // The reservation is stale.
    let stale = pending(&store);
    create(&mut store, "p", now, unconfigured());
    let r = complete_create(&mut store, &writer, notary, no_file, no_line, stale, unconfigured(), now);
    assert_eq!(r.status, 409);
    assert_eq!(
        json(&r.body)["error"],
        "snapshot seq 0 is not the next sequence number (1)"
    );
    assert_eq!(store.size(), 1);
}

#[test]
fn an_unknown_snapshot_is_not_found() {
    let r = get_snapshot(&fresh(), &writer, " s-999999999999", at(0));
    assert_eq!(r.status, 404);
    assert_eq!(json(&r.body)["error"], "no snapshot `s-999999999999`");
    assert_eq!(header(&r, "cache-control"), Some("no-store"));
}

#[test]
fn the_catalogue_filters_by_passport_and_instant() {
    let mut store = fresh();
    for (i, p) in ["urn:a", "urn:b", "urn:a"].iter().enumerate() {
        create(&mut store, p, at(1_000 * (i as i64 + 1)), unconfigured());
    }
    let r = list_snapshots(&store, &query(&[]), at(9_000));
    assert_eq!(r.status, 200);
    assert_eq!(
        header(&r, "cache-control"),
        Some("public, max-age=30, must-revalidate")
    );
    let doc = json(&r.body);
    assert_eq!(doc["count"], 3);
    assert_eq!(doc["as_of"], "1970-01-01T02:30:00Z");
    assert!(doc["query"]["at"].is_null());
    assert!(doc["query"]["passport_id"].is_null());
    let row = &doc["snapshots"][1];
    assert_eq!(row["snapshot_id"], "s-000000000001");
    assert_eq!(row["seq"], 1);
    assert_eq!(row["passport_id"], "urn:b");
    assert_eq!(row["notarized_at"], "1970-01-01T00:33:20Z");
    assert_eq!(row["anchored"], false);
    assert_eq!(row["state_hash"], sha256(b"state-0").hex());
    assert_eq!(row["log_head"], sha256(b"head-0").hex());
    assert_eq!(row["href"], "/snapshots/s-000000000001");
    for key in ["log_id", "receipt_id", "tree_size", "root"] {
        assert!(row[key].is_null());
    }
    let body = get_snapshot(&store, &writer, "s-000000000001", at(0)).body;
    assert_eq!(row["body_sha256"], sha256(body.as_bytes()).hex());
    // As of an instant.
    let q = query(&[("passport_id", " urn:a "), ("at", "1970-01-01T00:16:40Z")]);
    let r = list_snapshots(&store, &q, at(9_000));
    assert_eq!(header(&r, "x-as-of"), Some("1970-01-01T00:16:40Z"));
    assert!(header(&r, "cache-control").unwrap().contains("immutable"));
    let doc = json(&r.body);
    assert_eq!(doc["count"], 1);
    assert_eq!(doc["query"]["at"], "1970-01-01T00:16:40Z");
    assert_eq!(doc["query"]["passport_id"], "urn:a");
    // A later snapshot and a later request change nothing of it.
    create(&mut store, "urn:a", at(20_000), unconfigured());
    let again = list_snapshots(&store, &q, at(30_000));
    assert_eq!(again.body, r.body);
    assert_eq!(again.headers, r.headers);
    // A bad instant is refused.
    let r = list_snapshots(&store, &query(&[("at", "whenever")]), at(0));
    assert_eq!(r.status, 400);
}

#[test]
fn the_catalogue_as_of_now_shows_nothing_later() {
    let mut store = fresh();
    create(&mut store, "p", at(1_000), unconfigured());
    create(&mut store, "p", at(5_000), unconfigured());
    let doc = json(&list_snapshots(&store, &query(&[]), at(4_999)).body);
    assert_eq!(doc["count"], 1);
    assert_eq!(doc["snapshots"][0]["seq"], 0);
    let doc = json(&list_snapshots(&store, &query(&[]), at(5_000)).body);
    assert_eq!(doc["count"], 2);
}

#[test]
fn the_catalogue_shows_the_anchor() {
    let mut store = fresh();
    let req = begin_create(&None, None, &body_for("p"), at(1)).ok().unwrap();
    let pending = open_create(&store, &writer, req, at(1));
    let c = pending.commitment;
    create(&mut store, "p", at(1), Ok(receipt(&c)));
    let doc = json(&list_snapshots(&store, &query(&[]), at(2)).body);
    let row = &doc["snapshots"][0];
    assert_eq!(row["anchored"], true);
    assert_eq!(row["log_id"], "unidpp-log-1");
    assert_eq!(row["receipt_id"], "0");
    assert_eq!(row["tree_size"], 1);
    assert_eq!(row["root"], sha256(b"root").hex());
}

#[test]
fn a_receipt_for_another_commitment_is_rejected() {
    let mut store = fresh();
    let mut unnamed = receipt(&sha256(b"x"));
    unnamed.as_object_mut().unwrap().remove("commitment");
    for r in [receipt(&sha256(b"another snapshot")), unnamed] {
        let r = create(&mut store, "p", at(1), Ok(r));
        assert_eq!(r.status, 201);
        assert_eq!(header(&r, "x-anchored-receipt"), None);
        let p = json(&r.body)["oais"]["provenance"].clone();
        assert_eq!(p["anchoring"]["status"], "unanchored");
        assert_eq!(
            p["anchoring"]["reason"],
            "log receipt rejected: receipt `commitment` is not the one that was sent"
        );
        assert!(p["receipt"].is_null());
    }
}

/// Ingest with a receipt that holds `extra`, check that a restart serves the same,
/// and tell whether the snapshot is anchored.
fn anchored_with(extra: Value) -> bool {
    let journal = std::cell::RefCell::new(Vec::new());
    let mut store = fresh();
    let now = at(1_900_000_000);
    let req = begin_create(&None, None, &body_for("p"), now).ok().unwrap();
    let pending = open_create(&store, &writer, req, now);
    let mut r = receipt(&pending.commitment);
    r["extra"] = extra;
    let line = |l: &String| -> Result<(), String> {
        journal.borrow_mut().extend_from_slice(l.as_bytes());
        journal.borrow_mut().push(b'\n');
        Ok(())
    };
    let made = complete_create(&mut store, &writer, notary, no_file, line, pending, Ok(r.clone()), now);
    assert_eq!(made.status, 201);
    let read = JournalRead {
        bytes: journal.borrow().clone(),
        failure: None,
    };
    let again = SnapshotStore::open(&writer, Some(&read)).ok().unwrap();
    assert!(again.end.torn.is_none());
    let got = get_snapshot(&again.store, &writer, "s-000000000000", at(0));
    assert_eq!(got.body, made.body);
    let kept = again.store.get("s-000000000000").unwrap();
    if let Some(receipt) = &kept.anchoring.receipt {
        assert_eq!(receipt, &r);
        assert_eq!(header(&made, "x-anchored-receipt"), Some("0"));
    } else {
        assert_eq!(
            kept.anchoring.reason.as_deref(),
            Some("log receipt rejected: receipt does not read back from a journal line")
        );
        assert_eq!(header(&made, "x-anchored-receipt"), None);
    }
    kept.anchoring.receipt.is_some()
}

/// Arrays in arrays, `n` deep.
fn nested(n: usize) -> Value {
    let mut v = Value::from(1);
    for _ in 0..n {
        v = Value::from(vec![v]);
    }
    v
}

#[test]
fn a_receipt_that_does_not_read_back_is_rejected() {
    // The receipt is one level itself.
    assert!(anchored_with(nested(124)));
    for n in [125, 126] {
        assert!(!anchored_with(nested(n)));
    }
    // Floating-point numbers.
    for x in [0.5, -0.0, 1e300, 0.25] {
        assert!(anchored_with(Value::from(x)));
    }
    let x: f64 = 0.9452706955539223;
    let text = Value::from(x).to_string();
    assert_ne!(serde_json::from_str::<Value>(&text).unwrap(), Value::from(x));
    assert!(!anchored_with(Value::from(x)));
    assert!(!anchored_with(Value::from(vec![Value::from(1), Value::from(x)])));
}

#[test]
fn a_receipt_with_the_mark_of_the_reader_is_rejected() {
    let mark = "$serde_json::private::RawValue";
    let mut v = json("{}");
    v[mark] = Value::from("1");
    assert!(!anchored_with(v.clone()));
    v["z"] = Value::from(1);
    assert!(!anchored_with(v.clone()));
    // Only the first key counts.
    for first in ["", "#", "$", "$serde_json::private::RawValuD"] {
        let mut v = v.clone();
        v[first] = Value::Null;
        assert!(anchored_with(v), "{first}");
    }
    for later in ["$serde_json::private::RawValue2", "%", "\u{e9}"] {
        let mut v = v.clone();
        v[later] = Value::Null;
        assert!(!anchored_with(v), "{later}");
    }
    assert!(anchored_with(json(r#"{"$": {}, "a": [], "b": [null, true, -1, "x"]}"#)));
}

#[test]
fn what_was_created_is_served_after_a_restart() {
    let journal = std::cell::RefCell::new(Vec::new());
    let mut store = fresh();
    let mut made = Vec::new();
    for i in 0..3 {
        let now = at(1_900_000_000 + i);
        let req = begin_create(&None, None, &body_for("p"), now).ok().unwrap();
        let pending = open_create(&store, &writer, req, now);
        let c = pending.commitment;
        let line = |l: &String| -> Result<(), String> {
            journal.borrow_mut().extend_from_slice(l.as_bytes());
            journal.borrow_mut().push(b'\n');
            Ok(())
        };
        let attempt = if i == 1 { Ok(receipt(&c)) } else { unconfigured() };
        made.push(complete_create(
            &mut store, &writer, notary, no_file, line, pending, attempt, now,
        ));
    }
    let read = JournalRead {
        bytes: journal.borrow().clone(),
        failure: None,
    };
    let again = SnapshotStore::open(&writer, Some(&read)).ok().unwrap().store;
    assert_eq!(again.reserve(at(0)).0, 3);
    for (i, m) in made.iter().enumerate() {
        let got = get_snapshot(&again, &writer, &format!("s-{i:012}"), at(0));
        assert_eq!(got.status, 200);
        assert_eq!(got.body, m.body);
        assert_eq!(header(&got, "etag"), header(m, "etag"));
        assert_eq!(header(&got, "x-as-of"), header(m, "x-as-of"));
    }
    assert_eq!(get_snapshot(&again, &writer, "s-000000000003", at(0)).status, 404);
}

#[test]
fn the_audit_log_is_guarded_and_bounded() {
    let mut store = fresh();
    for i in 0..3 {
        create(&mut store, "p", at(i), unconfigured());
    }
    let token = Some("it-secret".to_string());
    assert_eq!(admin_log(&store, &token, None, &query(&[]), at(0)).status, 401);
    let auth = Some("Bearer it-secret");
    let page = |pairs: &[(&str, &str)]| {
        let r = admin_log(&store, &token, auth, &query(pairs), at(0));
        assert_eq!(r.status, 200);
        json(&r.body)
    };
    let v = page(&[]);
    assert_eq!(v["limit"], 100);
    assert_eq!(v["offset"], 0);
    assert_eq!(v["total"], 3);
    assert_eq!(v["count"], 3);
    assert_eq!(v["as_of"], "1970-01-01T00:00:00Z");
    assert_eq!(v["records"][0]["signature"].as_str().unwrap().len(), 64);
    let v = page(&[("limit", "2"), ("offset", "2")]);
    assert_eq!(v["count"], 1);
    assert_eq!(v["records"][0]["seq"], 2);
    assert_eq!(page(&[("limit", "99999")])["limit"], 10_000);
    assert_eq!(page(&[("limit", "9999")])["limit"], 9_999);
    assert_eq!(page(&[("limit", "many")])["limit"], 100);
    assert_eq!(page(&[("limit", "-1")])["limit"], 100);
    assert_eq!(page(&[("offset", "x")])["offset"], 0);
}

#[test]
fn the_discovery_document_describes_the_service() {
    let r = discovery("0.1.0", "dev", true, at(0));
    assert_eq!(r.status, 200);
    assert_eq!(
        header(&r, "cache-control"),
        Some("public, max-age=30, must-revalidate")
    );
    let v = json(&r.body);
    assert_eq!(v["service"], "unidpp-archive");
    assert_eq!(v["version"], "0.1.0");
    assert_eq!(v["build_id"], "dev");
    assert_eq!(v["anchoring_enabled"], true);
    assert!(v["oais"]["mapping"]["ingest"].is_string());
    assert_eq!(
        v["oais"]["mapping"]["document_sections"].as_object().unwrap().len(),
        3
    );
    assert_eq!(v["notarization"]["suite"], "ed25519");
    assert_eq!(v["notarization"]["domain"], "tree-head");
    let recipe = v["notarization"]["statement_recipe"].as_array().unwrap();
    assert_eq!(recipe.len(), 4);
    assert!(recipe[0].as_str().unwrap().starts_with("core = CanonicalWriter: "));
    assert!(v["notarization"]["adapter_note"].as_str().unwrap().contains("tree-head"));
    assert_eq!(v["endpoints"]["snapshot"], "GET /snapshots/{id}");
    assert_eq!(v["as_of"]["instant"], "1970-01-01T00:00:00Z");
    assert_eq!(v["as_of"]["response_header"], "x-as-of");
    assert_eq!(v.as_object().unwrap().len(), 13);
}

#[test]
fn the_health_document_counts_snapshots() {
    let r = healthz(3, false, at(1), at(2));
    let v = json(&r.body);
    assert_eq!(v["status"], "ok");
    assert_eq!(v["service"], "unidpp-archive");
    assert_eq!(v["snapshots"], 3);
    assert_eq!(v["anchoring_enabled"], false);
    assert_eq!(v["as_of"], "1970-01-01T00:00:01Z");
    assert_eq!(header(&r, "x-as-of"), Some("1970-01-01T00:00:02Z"));
}

#[test]
fn the_keyring_document_is_stamped() {
    let r = keyring(json(r#"{"suite": "ed25519", "as_of": 1}"#), at(1), at(2));
    let v = json(&r.body);
    assert_eq!(v["suite"], "ed25519");
    assert_eq!(v["as_of"], "1970-01-01T00:00:01Z");
    assert_eq!(header(&r, "x-as-of"), Some("1970-01-01T00:00:02Z"));
    assert_eq!(
        header(&r, "cache-control"),
        Some("public, max-age=30, must-revalidate")
    );
    // What is no object is served as it is.
    assert_eq!(json(&keyring(json("[1]"), at(1), at(2)).body), json("[1]"));
}

#[test]
fn store_failures_are_answered() {
    let r = store_error(StoreError::Conflict("later".to_string()), at(0));
    assert_eq!(r.status, 409);
    assert_eq!(json(&r.body)["error"], "later");
    let r = store_error(StoreError::Journal("torn".to_string()), at(0));
    assert_eq!(r.status, 500);
    assert_eq!(json(&r.body)["error"], "storage integrity failure: torn");
}

#[test]
fn the_environment_configures_the_service() {
    let c = Config::default();
    assert_eq!(c.bind, DEFAULT_BIND);
    assert_eq!(c.bind, "127.0.0.1:8095");
    assert!(c.admin_token.is_none() && c.state_file.is_none());
    assert!(c.snapshot_dir.is_none() && c.dev_seed.is_none());
    assert!(!c.log.is_enabled());
    let keys = Config::env_keys();
    assert_eq!(keys.len(), 9);
    let mut vars = Params::new();
    for k in &keys {
        vars.insert(k, "");
    }
    let c = Config::from_env_map(&vars);
    assert_eq!(c.bind, "");
    assert!(c.admin_token.is_none() && c.state_file.is_none());
    for k in &keys {
        vars.insert(k, &format!("value of {k}"));
    }
    let c = Config::from_env_map(&vars).clone();
    assert_eq!(c.bind, "value of UNIDPP_ARCHIVE_BIND");
    assert_eq!(
        c.admin_token.as_deref(),
        Some("value of UNIDPP_ARCHIVE_ADMIN_TOKEN")
    );
    assert_eq!(
        c.state_file.as_deref(),
        Some("value of UNIDPP_ARCHIVE_STATE_FILE")
    );
    assert_eq!(
        c.snapshot_dir.as_deref(),
        Some("value of UNIDPP_ARCHIVE_SNAPSHOT_DIR")
    );
    assert_eq!(c.dev_seed.as_deref(), Some("value of UNIDPP_ARCHIVE_DEV_SEED"));
    assert_eq!(c.log.base_url.as_deref(), Some("value of UNIDPP_LOG_URL"));
}

#[test]
fn the_routed_paths_are_these() {
    assert_eq!(
        [
            paths::ROOT,
            paths::HEALTHZ,
            paths::KEYRING,
            paths::SNAPSHOTS,
            paths::SNAPSHOT,
            paths::ADMIN_LOG,
            paths::CONTRACT_YAML,
        ],
        [
            "/",
            "/healthz",
            "/keyring",
            "/snapshots",
            "/snapshots/{id}",
            "/admin/log",
            "/openapi.yaml",
        ]
    );
}
