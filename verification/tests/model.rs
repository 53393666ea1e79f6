//! The snapshot record: statements, sealing, documents, journal lines and the
//! rebuild.

use serde_json::Value;
use unidpp_archive::canonical::CanonicalField;
use unidpp_archive::hash::sha256;
use unidpp_archive::model::{
    anchor_summary_from_receipt, core_bytes_from_document, snapshot_id_of,
    statement_bytes_from_document, Anchoring, AnchoringStatus, Notarization, SnapshotRecord,
    ADAPTER_NOTE, OAIS_PROFILE,
};
use unidpp_archive::{hex_encode, Timestamp};

/// A writer for these tests: a tag, a length and the content of each field.
fn writer(fields: &Vec<CanonicalField>) -> Vec<u8> {
    let mut out = Vec::new();
    for f in fields {
        match f {
            CanonicalField::Str(s) => {
                out.push(1);
                out.extend_from_slice(&(s.len() as u32).to_be_bytes());
                out.extend_from_slice(s.as_bytes());
            }
            CanonicalField::U32(n) => out.extend_from_slice(&n.to_be_bytes()),
            CanonicalField::U64(n) => out.extend_from_slice(&n.to_be_bytes()),
            CanonicalField::I64(n) => out.extend_from_slice(&n.to_be_bytes()),
            CanonicalField::Digest(h) => out.extend_from_slice(&h.0),
            CanonicalField::Raw(b) => out.extend_from_slice(b),
        }
    }
    out
}

/// A stand-in for a signature: two digests that depend on seed and statement.
fn sign(seed: &[u8], statement: &[u8]) -> Vec<u8> {
    let mut once = seed.to_vec();
    once.extend_from_slice(statement);
    let first = sha256(&once);
    once.push(0);
    let second = sha256(&once);
    let mut out = first.0.to_vec();
    out.extend_from_slice(&second.0);
    out
}

fn notary(statement: &Vec<u8>) -> Result<Notarization, String> {
    Ok(Notarization {
        signature: Some(sign(b"unit-notary", statement)),
        key_id: "k-unit".to_string(),
    })
}

fn hash_of(tag: &str) -> unidpp_archive::hash::Hash {
    sha256(tag.as_bytes())
}

fn json(text: &str) -> Value {
    serde_json::from_str(text).unwrap()
}

fn sealed_record(seq: u64) -> SnapshotRecord {
    let mut r = SnapshotRecord::new(
        seq,
        Timestamp::from_secs(1_900_000_000 + seq as i64),
        format!("urn:unidpp:passport:e8-{seq}"),
        hash_of(&format!("state-{seq}")),
        hash_of(&format!("head-{seq}")),
        Some(format!("urn:unidpp:actor:issuer-{seq}")),
        Some(1234 + seq),
    );
    r.seal(&writer, &notary).unwrap();
    r
}

fn receipt_for(r: &SnapshotRecord) -> Value {
    let at = Timestamp::from_secs(1_900_000_999).to_string();
    json(&format!(
        r#"{{
            "receipt_id": "7",
            "log_id": "unit-log",
            "seq": 7,
            "subject": "urn:unidpp:archive:snapshot:{}",
            "commitment": "{}",
            "logged_at": "{at}",
            "tree_head": {{
                "log_id": "unit-log",
                "tree_size": 8,
                "timestamp": "{at}",
                "root": "{}",
                "signature": {{"suite": "ed25519", "key_id": "k-x", "value": "00"}}
            }}
        }}"#,
        r.snapshot_id,
        r.commitment(&writer).hex(),
        hash_of("root").hex(),
    ))
}

fn anchored_record(seq: u64) -> SnapshotRecord {
    let mut r = sealed_record(seq);
    let receipt = receipt_for(&r);
    let summary = anchor_summary_from_receipt(&receipt).unwrap();
    let commitment = r.commitment(&writer);
    r.set_anchoring(Anchoring::anchored(summary, receipt, commitment));
    r.seal(&writer, &notary).unwrap();
    r
}

#[test]
fn snapshot_ids_are_padded_and_ordered() {
    assert_eq!(snapshot_id_of(0), "s-000000000000");
    assert_eq!(snapshot_id_of(42), "s-000000000042");
    assert!(snapshot_id_of(9) < snapshot_id_of(10));
    assert_eq!(sealed_record(3).snapshot_id, "s-000000000003");
}

#[test]
fn snapshot_ids_beyond_twelve_digits_are_not_cut() {
    assert_eq!(snapshot_id_of(999_999_999_999), "s-999999999999");
    assert_eq!(snapshot_id_of(1_000_000_000_000), "s-1000000000000");
    assert_eq!(snapshot_id_of(u64::MAX), "s-18446744073709551615");
    // The lexical order ends with the twelfth digit.
    assert!(snapshot_id_of(1_000_000_000_000) < snapshot_id_of(999_999_999_999));
}

#[test]
fn statement_bytes_are_deterministic_and_anchoring_sensitive() {
    let a = sealed_record(1);
    let b = sealed_record(1);
    assert_eq!(a.statement_bytes(&writer), b.statement_bytes(&writer));
    assert_eq!(a.core_statement_bytes(&writer), b.core_statement_bytes(&writer));
    // Different seq, different bytes.
    assert_ne!(a.statement_bytes(&writer), sealed_record(2).statement_bytes(&writer));
    // Anchoring changes the statement but not the core.
    let anchored = anchored_record(1);
    assert_eq!(anchored.core_statement_bytes(&writer), a.core_statement_bytes(&writer));
    assert_ne!(anchored.statement_bytes(&writer), a.statement_bytes(&writer));
}

#[test]
fn the_core_statement_has_its_seven_fields_in_order() {
    let r = sealed_record(5);
    let expected = writer(&vec![
        CanonicalField::Str("unidpp-archive".to_string()),
        CanonicalField::Str("s-000000000005".to_string()),
        CanonicalField::U64(5),
        CanonicalField::Str("urn:unidpp:passport:e8-5".to_string()),
        CanonicalField::Digest(hash_of("state-5")),
        CanonicalField::Digest(hash_of("head-5")),
        CanonicalField::I64(1_900_000_005),
    ]);
    assert_eq!(r.core_statement_bytes(&writer), expected);
    // An unanchored statement ends with a zero.
    let mut unanchored = expected.clone();
    unanchored.extend_from_slice(&0u32.to_be_bytes());
    assert_eq!(r.statement_bytes(&writer), unanchored);
    // An anchored one with a one and the anchor.
    let mut anchored = expected;
    anchored.extend_from_slice(&writer(&vec![
        CanonicalField::U32(1),
        CanonicalField::Str("unit-log".to_string()),
        CanonicalField::U64(7),
        CanonicalField::U64(8),
        CanonicalField::Digest(hash_of("root")),
    ]));
    assert_eq!(anchored_record(5).statement_bytes(&writer), anchored);
}

#[test]
fn only_signed_fields_change_the_statement() {
    for r in [sealed_record(1), anchored_record(1)] {
        let mut s = r.clone();
        s.submitter = Some("someone else".to_string());
        s.state_size = None;
        s.signature = vec![1];
        s.key_id = "other".to_string();
        s.body_digest = hash_of("other");
        s.anchoring.reason = Some("whatever".to_string());
        s.anchoring.logged_at = None;
        s.anchoring.commitment = None;
        s.anchoring.receipt = None;
        assert_eq!(s.statement_bytes(&writer), r.statement_bytes(&writer));
        s.passport_id = "other".to_string();
        assert_ne!(s.statement_bytes(&writer), r.statement_bytes(&writer));
    }
    let r = anchored_record(1);
    let mut s = r.clone();
    s.anchoring.tree_size = Some(9);
    assert_ne!(s.statement_bytes(&writer), r.statement_bytes(&writer));
}

#[test]
fn commitment_is_the_core_digest() {
    let r = sealed_record(5);
    assert_eq!(
        r.commitment(&writer),
        unidpp_archive::hash::Hash::from_hex(&sha256(&r.core_statement_bytes(&writer)).hex())
            .unwrap()
    );
    assert_ne!(r.commitment(&writer), sealed_record(6).commitment(&writer));
}

#[test]
fn journal_json_round_trips_both_anchor_states() {
    for r in [sealed_record(0), anchored_record(1)] {
        let v = r.to_journal_json();
        let back = SnapshotRecord::from_journal_json(&v).unwrap();
        assert_eq!(back, r);
    }
    assert!(SnapshotRecord::from_journal_json(&json(r#"{"seq": 1}"#)).is_err());
    // A receipt id that is not numeric is refused.
    let mut v = anchored_record(2).to_journal_json();
    v["anchoring"]["status"] = Value::from("anchored");
    v["anchoring"]["receipt_id"] = Value::from("x");
    assert!(SnapshotRecord::from_journal_json(&v).is_err());
}

#[test]
fn sealed_signature_verifies_and_tampering_fails() {
    let r = anchored_record(4);
    assert_eq!(r.key_id, "k-unit");
    assert_eq!(r.signature, sign(b"unit-notary", &r.statement_bytes(&writer)));
    // Tampered passport id, different canonical bytes.
    let mut doc = r.to_document(&writer);
    doc["oais"]["information_package"]["passport_id"] = Value::from("urn:unidpp:passport:other");
    let rebuilt = statement_bytes_from_document(&writer, &doc).unwrap();
    assert_ne!(r.signature, sign(b"unit-notary", &rebuilt));
    // Wrong key fails.
    assert_ne!(r.signature, sign(b"other-notary", &r.statement_bytes(&writer)));
}

#[test]
fn document_rebuild_matches_the_record_bytes() {
    for r in [sealed_record(7), anchored_record(8)] {
        let doc = r.to_document(&writer);
        assert_eq!(
            core_bytes_from_document(&writer, &doc).unwrap(),
            r.core_statement_bytes(&writer)
        );
        assert_eq!(
            statement_bytes_from_document(&writer, &doc).unwrap(),
            r.statement_bytes(&writer)
        );
    }
}

#[test]
fn the_served_text_rebuilds_the_signed_bytes() {
    let r = anchored_record(8);
    let doc = json(&r.render_body(&writer));
    assert_eq!(doc, r.to_document(&writer));
    let statement = statement_bytes_from_document(&writer, &doc).unwrap();
    assert_eq!(r.signature, sign(b"unit-notary", &statement));
    let core = core_bytes_from_document(&writer, &doc).unwrap();
    let ip = &doc["oais"]["information_package"];
    assert_eq!(ip["commitment"], sha256(&core).hex());
    assert_eq!(ip["statement_digest"], sha256(&statement).hex());
    assert_eq!(doc["oais"]["provenance"]["receipt"]["commitment"], sha256(&core).hex());
}

#[test]
fn render_is_byte_stable_across_round_trips() {
    let r = anchored_record(9);
    let first = r.render_body(&writer);
    assert_eq!(first, r.render_body(&writer));
    let back = SnapshotRecord::from_journal_json(&r.to_journal_json()).unwrap();
    assert_eq!(back.render_body(&writer), first);
    // The journaled body digest matches the rendered bytes.
    assert_eq!(sha256(first.as_bytes()), r.body_digest);
}

#[test]
fn sealing_again_recomputes_everything() {
    let mut r = sealed_record(3);
    let first = r.clone();
    let other = |b: &Vec<u8>| {
        Ok(Notarization {
            signature: Some(sign(b"other-notary", b)),
            key_id: "k-other".to_string(),
        })
    };
    r.seal(&writer, &other).unwrap();
    assert_eq!(r.key_id, "k-other");
    assert_ne!(r.signature, first.signature);
    assert_ne!(r.body_digest, first.body_digest);
    r.seal(&writer, &notary).unwrap();
    assert_eq!(r, first);
}

#[test]
fn a_failing_notary_leaves_the_record_as_it_was() {
    let mut r = sealed_record(3);
    let first = r.clone();
    let failing = |_: &Vec<u8>| -> Result<Notarization, String> { Err("no key".to_string()) };
    assert_eq!(
        r.seal(&writer, &failing),
        Err("notarization sign: no key".to_string())
    );
    assert_eq!(r, first);
    // A notary without a signature leaves an empty one.
    let silent = |_: &Vec<u8>| {
        Ok(Notarization {
            signature: None,
            key_id: "k-none".to_string(),
        })
    };
    r.seal(&writer, &silent).unwrap();
    assert!(r.signature.is_empty());
    assert_eq!(r.anchoring.commitment, Some(r.commitment(&writer)));
}

#[test]
fn document_carries_the_three_oais_sections() {
    let doc = anchored_record(11).to_document(&writer);
    let oais = &doc["oais"];
    assert_eq!(oais["profile"], OAIS_PROFILE);
    for section in ["submission", "information_package", "provenance"] {
        assert!(oais.get(section).is_some(), "missing {section}");
    }
    // The submission and the information package agree on the preserved
    // content.
    assert_eq!(
        oais["submission"]["passport_id"],
        oais["information_package"]["passport_id"]
    );
    assert_eq!(
        oais["submission"]["state_hash"],
        oais["information_package"]["state_hash"]
    );
    assert_eq!(
        oais["submission"]["log_head"],
        oais["information_package"]["log_head"]
    );
    // Provenance carries the signature, key id and anchoring.
    assert!(oais["provenance"]["signature"].as_str().unwrap().len() == 128);
    assert!(oais["provenance"]["signing"]["key_id"]
        .as_str()
        .unwrap()
        .starts_with("k-"));
    assert_eq!(oais["provenance"]["anchoring"]["status"], "anchored");
    assert!(oais["provenance"]["receipt"].is_object());
}

#[test]
fn an_unanchored_document_has_every_field() {
    let r = sealed_record(2);
    let doc = r.to_document(&writer);
    assert_eq!(doc["schema"], "unidpp-archive/snapshot/1");
    assert_eq!(doc["service"], "unidpp-archive");
    assert_eq!(doc["snapshot_id"], "s-000000000002");
    assert_eq!(doc["seq"], 2);
    assert_eq!(doc["as_of"], "2030-03-17T17:46:42Z");
    let p = &doc["oais"]["provenance"];
    assert_eq!(p["service"], "unidpp-archive");
    assert_eq!(p["notarized_at"], "2030-03-17T17:46:42Z");
    assert_eq!(p["signing"]["suite"], "ed25519");
    assert_eq!(p["signing"]["domain"], "tree-head");
    assert_eq!(p["signing"]["adapter_note"], ADAPTER_NOTE);
    assert_eq!(p["signature"], hex_encode(&r.signature));
    assert!(p["verification"].as_str().unwrap().contains("SignatureSlot::verify"));
    assert!(p["receipt"].is_null());
    let a = &p["anchoring"];
    assert_eq!(a["status"], "unanchored");
    for key in ["reason", "log_id", "receipt_id", "tree_size", "root", "logged_at"] {
        assert!(a[key].is_null(), "{key}");
    }
    let s = &doc["oais"]["submission"];
    assert_eq!(s["submitter"], "urn:unidpp:actor:issuer-2");
    assert_eq!(s["submitted_at"], "2030-03-17T17:46:42Z");
    assert_eq!(s["state_size"], 1236);
}

#[test]
fn anchor_summary_parses_and_rejects_receipts() {
    let good = json(&format!(
        r#"{{
            "receipt_id": "3",
            "log_id": "unit-log",
            "seq": 3,
            "logged_at": "2026-09-07T10:00:00Z",
            "tree_head": {{"tree_size": 4, "root": "{}"}}
        }}"#,
        hash_of("r").hex()
    ));
    let s = anchor_summary_from_receipt(&good).unwrap();
    assert_eq!(s.log_id, "unit-log");
    assert_eq!(s.receipt_seq, 3);
    assert_eq!(s.tree_size, 4);
    assert_eq!(s.root, hash_of("r"));
    assert_eq!(s.logged_at, Timestamp::parse("2026-09-07T10:00:00Z").unwrap());
    // seq falls back to receipt_id parsing.
    let alt = json(&format!(
        r#"{{
            "receipt_id": "12",
            "log_id": "unit-log",
            "logged_at": "2026-09-07T10:00:00Z",
            "tree_head": {{"tree_size": 13, "root": "{}"}}
        }}"#,
        hash_of("r").hex()
    ));
    assert_eq!(anchor_summary_from_receipt(&alt).unwrap().receipt_seq, 12);
    // Rejections.
    for bad in [
        json("{}"),
        json(r#"{"log_id": "l", "seq": 1, "logged_at": "nope", "tree_head": {}}"#),
        json(
            r#"{"log_id": "l", "seq": 1, "logged_at": "2026-09-07T10:00:00Z", "tree_head": {"tree_size": 1, "root": "zz"}}"#,
        ),
    ] {
        assert!(anchor_summary_from_receipt(&bad).is_err());
    }
}

#[test]
fn each_flaw_of_a_receipt_has_its_words() {
    let good = format!(
        r#"{{"log_id": "l", "seq": 1, "logged_at": "2026-09-07T10:00:00Z",
            "tree_head": {{"tree_size": 1, "root": "{}"}}}}"#,
        hash_of("r").hex()
    );
    let refused = |change: &dyn Fn(&mut Value)| {
        let mut v = json(&good);
        change(&mut v);
        anchor_summary_from_receipt(&v).unwrap_err()
    };
    assert_eq!(refused(&|v| *v = Value::from(1)), "receipt must be an object");
    assert_eq!(refused(&|v| v["log_id"] = Value::from("")), "receipt missing `log_id`");
    assert_eq!(
        refused(&|v| v["seq"] = Value::from(-1)),
        "receipt missing `seq`/`receipt_id`"
    );
    assert_eq!(
        refused(&|v| {
            v.as_object_mut().unwrap().remove("tree_head");
        }),
        "receipt missing `tree_head`"
    );
    assert_eq!(
        refused(&|v| v["tree_head"] = Value::Null),
        "`tree_head` must be an object"
    );
    assert_eq!(
        refused(&|v| v["tree_head"]["tree_size"] = Value::from("1")),
        "receipt missing `tree_head.tree_size`"
    );
    assert_eq!(
        refused(&|v| v["tree_head"]["root"] = Value::from("zz")),
        "receipt missing/invalid `tree_head.root`"
    );
    assert_eq!(
        refused(&|v| v["logged_at"] = Value::from("nope")),
        "receipt missing/invalid `logged_at`"
    );
}

#[test]
fn each_flaw_of_a_journaled_outcome_has_its_words() {
    let good = anchored_record(2).anchoring.to_journal_json();
    assert_eq!(Anchoring::from_json(&good).unwrap(), anchored_record(2).anchoring);
    let refused = |key: &str, value: Value| {
        let mut v = good.clone();
        v[key] = value;
        Anchoring::from_json(&v).unwrap_err()
    };
    assert_eq!(
        Anchoring::from_json(&Value::Null).unwrap_err(),
        "`anchoring` must be an object"
    );
    assert_eq!(
        refused("status", Value::from("maybe")),
        "`anchoring.status` must be `anchored`/`unanchored`"
    );
    assert_eq!(
        refused("receipt", Value::from(1)),
        "`anchoring.receipt` must be an object or null"
    );
    assert_eq!(
        refused("receipt_id", Value::from(7)),
        "`anchoring.receipt_id` must be a numeric string or null"
    );
    assert_eq!(
        refused("receipt_id", Value::from("x")),
        "`anchoring.receipt_id` must be a numeric string"
    );
    assert_eq!(
        refused("reason", Value::from(1)),
        "`anchoring.reason` must be a string or null"
    );
    assert_eq!(
        refused("log_id", Value::from(1)),
        "`anchoring.log_id` must be a string or null"
    );
    assert_eq!(
        refused("tree_size", Value::from(-1)),
        "`anchoring.tree_size` must be an unsigned integer"
    );
    assert_eq!(
        refused("tree_size", Value::from(1.5)),
        "`anchoring.tree_size` must be an unsigned integer"
    );
    assert_eq!(
        refused("tree_size", Value::from("8")),
        "`anchoring.tree_size` must be an unsigned integer or null"
    );
    assert_eq!(refused("root", Value::from("zz")), "`anchoring.root` must be 64-char hex");
    assert_eq!(
        refused("root", Value::from(1)),
        "`anchoring.root` must be a hex string or null"
    );
    assert_eq!(
        refused("logged_at", Value::from("nope")),
        "`anchoring.logged_at`: `nope` is not an RFC 3339 instant"
    );
    assert_eq!(
        refused("logged_at", Value::from(1)),
        "`anchoring.logged_at` must be an RFC 3339 string or null"
    );
    assert_eq!(
        refused("commitment", Value::from("00")),
        "`anchoring.commitment` must be 64-char hex"
    );
    for key in ["log_id", "receipt_id", "tree_size", "root", "logged_at", "commitment", "receipt"] {
        assert_eq!(
            refused(key, Value::Null),
            "an `anchored` record must carry log_id, receipt_id, tree_size, root, logged_at, commitment and the receipt",
            "{key}"
        );
    }
    // Unanchored, the same fields may be missing.
    let mut v = json(r#"{"status": "unanchored"}"#);
    assert_eq!(Anchoring::from_json(&v).unwrap(), Anchoring::unanchored_default());
    v["reason"] = Value::from("log unreachable");
    assert_eq!(
        Anchoring::from_json(&v).unwrap(),
        Anchoring::unanchored("log unreachable".to_string())
    );
}

#[test]
fn each_flaw_of_a_journal_line_has_its_words() {
    let good = sealed_record(0).to_journal_json();
    let refused = |key: &str, value: Option<Value>| {
        let mut v = good.clone();
        match value {
            Some(x) => v[key] = x,
            None => {
                v.as_object_mut().unwrap().remove(key);
            }
        }
        SnapshotRecord::from_journal_json(&v).unwrap_err()
    };
    assert_eq!(
        SnapshotRecord::from_journal_json(&json("[]")).unwrap_err(),
        "snapshot record must be an object"
    );
    assert_eq!(refused("anchoring", None), "missing `anchoring`");
    assert_eq!(
        refused("anchoring", Some(Value::Null)),
        "`anchoring` must be an object"
    );
    assert_eq!(refused("signature", None), "missing `signature`");
    assert_eq!(
        refused("signature", Some(Value::from("0"))),
        "`signature`: odd hex length"
    );
    assert_eq!(
        refused("signature", Some(Value::from("zz"))),
        "`signature`: invalid hex digit"
    );
    assert_eq!(refused("seq", Some(Value::from(-1))), "missing/invalid `seq`");
    assert_eq!(refused("snapshot_id", None), "missing `snapshot_id`");
    assert_eq!(refused("notarized_at", None), "missing `notarized_at`");
    assert_eq!(
        refused("notarized_at", Some(Value::from("x"))),
        "`notarized_at`: `x` is not an RFC 3339 instant"
    );
    assert_eq!(refused("passport_id", Some(Value::from(1))), "missing `passport_id`");
    assert_eq!(
        refused("state_hash", Some(Value::from("00"))),
        "missing/invalid `state_hash` (64-char hex)"
    );
    assert_eq!(refused("log_head", None), "missing/invalid `log_head` (64-char hex)");
    assert_eq!(
        refused("submitter", Some(Value::from(1))),
        "`submitter` must be a string or null"
    );
    assert_eq!(
        refused("state_size", Some(Value::from(-1))),
        "`state_size` must be an unsigned integer"
    );
    assert_eq!(
        refused("state_size", Some(Value::from("1"))),
        "`state_size` must be an unsigned integer or null"
    );
    assert_eq!(refused("key_id", None), "missing `key_id`");
    assert_eq!(
        refused("body_digest", None),
        "missing/invalid `body_digest` (64-char hex)"
    );
}

#[test]
fn statement_rebuild_rejects_malformed_documents() {
    let doc = anchored_record(12).to_document(&writer);
    // Wrong service.
    let mut bad = doc.clone();
    bad["service"] = Value::from("someone-else");
    assert!(core_bytes_from_document(&writer, &bad).is_err());
    // Missing information package.
    let mut bad = doc.clone();
    bad["oais"]["information_package"] = Value::Null;
    assert!(core_bytes_from_document(&writer, &bad).is_err());
    // Bad anchoring status.
    let mut bad = doc.clone();
    bad["oais"]["provenance"]["anchoring"]["status"] = Value::from("maybe");
    assert!(statement_bytes_from_document(&writer, &bad).is_err());
    // Anchored without receipt id.
    let mut bad = doc;
    bad["oais"]["provenance"]["anchoring"]["receipt_id"] = Value::Null;
    assert!(statement_bytes_from_document(&writer, &bad).is_err());
}

#[test]
fn each_flaw_of_a_document_has_its_words() {
    let doc = anchored_record(12).to_document(&writer);
    let refused = |change: &dyn Fn(&mut Value)| {
        let mut v = doc.clone();
        change(&mut v);
        statement_bytes_from_document(&writer, &v).unwrap_err()
    };
    assert_eq!(refused(&|v| *v = Value::Null), "document missing `service`");
    assert_eq!(
        refused(&|v| v["service"] = Value::from("x")),
        "document `service` must be `unidpp-archive`"
    );
    assert_eq!(
        refused(&|v| v["snapshot_id"] = Value::Null),
        "`snapshot_id` must be a string"
    );
    assert_eq!(
        refused(&|v| v["seq"] = Value::from("1")),
        "`seq` must be an unsigned integer"
    );
    assert_eq!(
        refused(&|v| {
            v.as_object_mut().unwrap().remove("oais");
        }),
        "document missing `oais.information_package.state_hash`"
    );
    assert_eq!(
        refused(&|v| v["oais"]["information_package"]["state_hash"] = Value::from(1)),
        "`oais.information_package.state_hash` must be a string"
    );
    assert_eq!(
        refused(&|v| v["oais"]["information_package"]["log_head"] = Value::from("00")),
        "`oais.information_package.log_head` must be 64-char hex"
    );
    assert_eq!(
        refused(&|v| v["oais"]["information_package"]["as_of"] = Value::from("x")),
        "`as_of`: `x` is not an RFC 3339 instant"
    );
    assert_eq!(
        refused(&|v| {
            v["oais"]["information_package"]
                .as_object_mut()
                .unwrap()
                .remove("passport_id");
        }),
        "document missing `oais.information_package.passport_id`"
    );
    assert_eq!(
        refused(&|v| v["oais"]["provenance"] = Value::Null),
        "document missing `oais.provenance.anchoring`"
    );
    assert_eq!(
        refused(&|v| v["oais"]["provenance"]["anchoring"] = Value::Null),
        "`oais.provenance.anchoring.status` missing"
    );
    let set = |v: &mut Value, key: &str, x: Value| v["oais"]["provenance"]["anchoring"][key] = x;
    assert_eq!(
        refused(&|v| set(v, "status", Value::from("maybe"))),
        "`anchoring.status` must be `anchored`/`unanchored`, got `maybe`"
    );
    assert_eq!(
        refused(&|v| set(v, "log_id", Value::Null)),
        "`anchoring.log_id` missing"
    );
    assert_eq!(
        refused(&|v| set(v, "receipt_id", Value::from("x"))),
        "`anchoring.receipt_id` must be a numeric string"
    );
    assert_eq!(
        refused(&|v| set(v, "tree_size", Value::Null)),
        "`anchoring.tree_size` missing"
    );
    assert_eq!(
        refused(&|v| set(v, "root", Value::from("00"))),
        "`anchoring.root` must be 64-char hex"
    );
}

#[test]
fn adapter_note_is_the_trust_house_note() {
    assert!(ADAPTER_NOTE.contains("tree-head"));
    assert!(ADAPTER_NOTE.contains("unidpp-trust"));
    assert!(ADAPTER_NOTE.contains("HistoricalStamp"));
}

#[test]
fn statuses_have_their_words() {
    assert_eq!(AnchoringStatus::Anchored.as_str(), "anchored");
    assert_eq!(AnchoringStatus::Unanchored.as_str(), "unanchored");
}

/// A receipt that nests objects and arrays `depth` deep.
fn nested_receipt(r: &SnapshotRecord, depth: usize) -> Value {
    let mut inner = Value::from(vec![Value::from(1)]);
    for _ in 0..depth - 2 {
        inner = Value::from(vec![inner]);
    }
    let mut receipt = receipt_for(r);
    receipt["inner"] = inner;
    receipt
}

fn record_with_receipt(receipt: Value) -> SnapshotRecord {
    let mut r = sealed_record(1);
    let summary = anchor_summary_from_receipt(&receipt).unwrap();
    let commitment = r.commitment(&writer);
    r.set_anchoring(Anchoring::anchored(summary, receipt, commitment));
    r.seal(&writer, &notary).unwrap();
    r
}

#[test]
fn a_document_reads_back_up_to_a_depth() {
    let r = sealed_record(1);
    let fits = record_with_receipt(nested_receipt(&r, 124));
    assert_eq!(json(&fits.render_body(&writer)), fits.to_document(&writer));
    let line = fits.to_journal_json();
    assert_eq!(json(&line.to_string()), line);
    let deeper = record_with_receipt(nested_receipt(&r, 125));
    assert!(serde_json::from_str::<Value>(&deeper.render_body(&writer)).is_err());
}

#[test]
fn a_marked_object_is_read_as_what_it_marks() {
    let mut receipt = receipt_for(&sealed_record(1));
    let mut marked = json("{}");
    marked["$serde_json::private::RawValue"] = Value::from("[1]");
    receipt["marked"] = marked;
    let r = record_with_receipt(receipt);
    let back = json(&r.render_body(&writer));
    assert_ne!(back, r.to_document(&writer));
    assert_eq!(back["oais"]["provenance"]["receipt"]["marked"], json("[1]"));
}
