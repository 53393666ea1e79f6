//! Sequencing, replay, snapshot files, the as-of listing and the audit view.

use std::cell::RefCell;
use std::collections::BTreeMap;

use serde_json::Value;
use unidpp_archive::canonical::CanonicalField;
use unidpp_archive::hash::sha256;
use unidpp_archive::model::{AnchorSummary, Anchoring, AnchoringStatus, Notarization};
use unidpp_archive::store::{
    check_snapshot_file, FileRead, JournalRead, OpenedStore, SnapshotFile,
};
use unidpp_archive::{SnapshotRecord, SnapshotStore, StoreError, Timestamp};

fn writer(fields: &Vec<CanonicalField>) -> Vec<u8> {
    let mut out = Vec::new();
    for f in fields {
        match f {
            CanonicalField::Str(s) => {
                out.extend_from_slice(&(s.len() as u32).to_be_bytes());
                out.extend_from_slice(s.as_bytes());
            }
            CanonicalField::U32(n) => out.extend_from_slice(&n.to_be_bytes()),
            CanonicalField::U64(n) => out.extend_from_slice(&n.to_be_bytes()),
            CanonicalField::I64(n) => out.extend_from_slice(&n.to_be_bytes()),
            CanonicalField::Digest(h) => out.extend_from_slice(&h.0),
            CanonicalField::Raw(b) => out.extend_from_slice(b),
        }
    }
    out
}

fn notary(statement: &Vec<u8>) -> Result<Notarization, String> {
    Ok(Notarization {
        signature: Some(sha256(statement).0.to_vec()),
        key_id: "k-store".to_string(),
    })
}

fn hash_of(tag: &str) -> unidpp_archive::hash::Hash {
    sha256(tag.as_bytes())
}

fn sealed(seq: u64, at: i64) -> SnapshotRecord {
    let mut r = SnapshotRecord::new(
        seq,
        Timestamp::from_secs(at),
        format!("urn:unidpp:passport:p-{seq}"),
        hash_of(&format!("s-{seq}")),
        hash_of(&format!("h-{seq}")),
        None,
        None,
    );
    r.seal(&writer, &notary).unwrap();
    r
}

/// No file is written.
fn no_file(_: &SnapshotFile) -> Result<(), String> {
    Ok(())
}

/// No line is written.
fn no_line(_: &String) -> Result<(), String> {
    Ok(())
}

/// A journal and a snapshot directory in memory.
#[derive(Default)]
struct Disk {
    journal: RefCell<Vec<u8>>,
    files: RefCell<BTreeMap<String, Vec<u8>>>,
}

impl Disk {
    fn write_file(&self, f: &SnapshotFile) -> Result<(), String> {
        self.files
            .borrow_mut()
            .insert(f.name.clone(), f.body.clone().into_bytes());
        Ok(())
    }

    fn write_line(&self, line: &String) -> Result<(), String> {
        let mut j = self.journal.borrow_mut();
        j.extend_from_slice(line.as_bytes());
        j.push(b'\n');
        Ok(())
    }

    fn append(&self, store: &mut SnapshotStore, r: &SnapshotRecord) -> Result<(), StoreError> {
        store.append_snapshot(
            &writer,
            r,
            |f: &SnapshotFile| self.write_file(f),
            |l: &String| self.write_line(l),
        )
    }

    fn text(&self) -> String {
        String::from_utf8(self.journal.borrow().clone()).unwrap()
    }

    /// Open the journal, mend its end, and check the files.
    fn open(&self) -> Result<SnapshotStore, StoreError> {
        let opened = open_bytes(&self.journal.borrow())?;
        self.journal.borrow_mut().truncate(opened.end.keep);
        if opened.end.line_feed_due {
            self.journal.borrow_mut().push(b'\n');
        }
        let store = opened.store;
        let read = |name: &String| match self.files.borrow().get(name) {
            Some(b) => FileRead::Found(b.clone()),
            None => FileRead::Missing,
        };
        let write = |f: &SnapshotFile| self.write_file(f);
        store.verify_snapshot_files(&writer, &read, &write, "")?;
        Ok(store)
    }
}

fn open_bytes(journal: &[u8]) -> Result<OpenedStore, StoreError> {
    let j = JournalRead {
        bytes: journal.to_vec(),
        failure: None,
    };
    SnapshotStore::open(&writer, Some(&j))
}

fn open(journal: &str) -> Result<SnapshotStore, StoreError> {
    open_bytes(journal.as_bytes()).map(|o| o.store)
}

fn refused(journal: &str) -> StoreError {
    match open(journal) {
        Ok(_) => panic!("the journal was accepted"),
        Err(e) => e,
    }
}

fn fresh() -> SnapshotStore {
    SnapshotStore::open(&writer, None).ok().unwrap().store
}

#[test]
fn sequencing_is_strictly_monotonic() {
    let mut store = fresh();
    assert_eq!(store.size(), 0);
    for seq in 0..5u64 {
        let (reserved, at) = store.reserve(Timestamp::from_secs(7));
        assert_eq!(reserved, seq);
        assert_eq!(at, Timestamp::from_secs(7));
        let rec = sealed(seq, 100 + seq as i64);
        store.append_snapshot(&writer, &rec, no_file, no_line).unwrap();
    }
    assert_eq!(store.size(), 5);
    assert!(store.get("s-000000000004").is_some());
    assert!(store.get("s-000000000005").is_none());
    // A stale reservation is a conflict, never a silent overwrite.
    let err = store
        .append_snapshot(&writer, &sealed(2, 999), no_file, no_line)
        .unwrap_err();
    assert!(matches!(err, StoreError::Conflict(_)));
    assert_eq!(
        err.to_string(),
        "conflict: snapshot seq 2 is not the next sequence number (5)"
    );
    assert_eq!(store.size(), 5);
}

#[test]
fn journal_round_trip_reproduces_identical_bodies() {
    let d = Disk::default();
    let mut first_body = None;
    {
        let mut store = d.open().unwrap();
        for seq in 0..3u64 {
            let rec = sealed(seq, 1_900_000_000 + seq as i64);
            d.append(&mut store, &rec).unwrap();
            if seq == 1 {
                first_body = Some(rec.render_body(&writer));
            }
        }
        assert_eq!(store.size(), 3);
    }
    let mut store = d.open().unwrap();
    assert_eq!(store.size(), 3);
    assert_eq!(
        store.get("s-000000000001").unwrap().render_body(&writer),
        first_body.unwrap()
    );
    // The snapshot files exist and match.
    for seq in 0..3u64 {
        let id = format!("s-{seq:012}");
        let bytes = d.files.borrow()[&format!("{id}.json")].clone();
        assert_eq!(bytes, store.get(&id).unwrap().render_body(&writer).as_bytes());
    }
    // Appends continue the sequence after a restart.
    let rec = sealed(3, 1_900_000_100);
    d.append(&mut store, &rec).unwrap();
    assert_eq!(store.size(), 4);
}

#[test]
fn journal_with_a_sequence_gap_is_refused() {
    let d = Disk::default();
    d.append(&mut fresh(), &sealed(0, 1)).unwrap();
    let line = d.text();
    let tampered = line.replace("\"seq\":0", "\"seq\":5");
    let err = refused(&tampered);
    assert!(matches!(err, StoreError::Journal(_)));
    assert!(err.to_string().contains("out of sequence"));
    assert_eq!(
        err.to_string(),
        "journal integrity failure: line 1: seq 5 is out of sequence (expected 0)"
    );
}

#[test]
fn torn_tail_is_tolerated_but_mid_file_corruption_is_refused() {
    let d = Disk::default();
    {
        let mut store = fresh();
        for seq in 0..3u64 {
            d.append(&mut store, &sealed(seq, seq as i64)).unwrap();
        }
    }
    // Mid-file corruption (line 2 mangled): hard error.
    let good = d.text();
    let mut lines: Vec<&str> = good.lines().collect();
    lines[1] = "{\"seq\": 1, \"broken\"";
    let err = refused(&(lines.join("\n") + "\n"));
    assert!(err.to_string().starts_with("journal integrity failure: line 2: "));

    // Torn final line (crash mid-write): tolerated, earlier snapshots replay
    // and the sequence continues.
    let torn = "{\"seq\": 3, \"passport_id\": \"x\"";
    d.journal.borrow_mut().extend_from_slice(torn.as_bytes());
    let opened = open_bytes(&d.journal.borrow()).ok().unwrap();
    let remark = opened.end.torn.unwrap();
    assert!(remark.starts_with("journal ends with a torn line (kept 3 snapshots): "));
    assert_eq!(opened.end.keep, good.len());
    assert!(!opened.end.line_feed_due);
    assert_eq!(opened.store.size(), 3);
    let mut store = d.open().unwrap();
    assert_eq!(store.size(), 3);
    d.append(&mut store, &sealed(3, 9)).unwrap();
    assert_eq!(store.size(), 4);
    // The torn journal, mended and appended to, opens again with all four.
    let again = open_bytes(&d.journal.borrow()).ok().unwrap();
    assert!(again.end.torn.is_none());
    assert_eq!(again.store.size(), 4);
    for seq in 0..4u64 {
        let id = format!("s-{seq:012}");
        assert_eq!(
            again.store.get(&id).unwrap().render_body(&writer),
            store.get(&id).unwrap().render_body(&writer)
        );
    }
}

#[test]
fn a_tear_inside_a_character_is_a_torn_tail() {
    let d = Disk::default();
    {
        let mut store = fresh();
        d.append(&mut store, &sealed(0, 1)).unwrap();
        let mut r = sealed(1, 2);
        r.passport_id = "urn:p:é".to_string();
        r.seal(&writer, &notary).unwrap();
        d.append(&mut store, &r).unwrap();
    }
    let whole = d.journal.borrow().clone();
    let first = whole.iter().position(|b| *b == b'\n').unwrap() + 1;
    let cut = whole.iter().position(|b| *b == 0xC3).unwrap() + 1;
    let torn = whole[..cut].to_vec();
    assert!(std::str::from_utf8(&torn).is_err());
    let opened = open_bytes(&torn).ok().unwrap();
    assert_eq!(
        opened.end.torn.as_deref(),
        Some("journal ends with a torn line (kept 1 snapshots): stream did not contain valid UTF-8")
    );
    assert_eq!(opened.end.keep, first);
    assert_eq!(opened.store.size(), 1);
    // Mended and appended to, the journal opens again with both.
    *d.journal.borrow_mut() = torn;
    let mut store = d.open().unwrap();
    d.append(&mut store, &sealed(1, 3)).unwrap();
    assert_eq!(open_bytes(&d.journal.borrow()).ok().unwrap().store.size(), 2);
    // Further up such a line is corruption.
    let mut bad = whole[..cut].to_vec();
    bad.push(b'\n');
    bad.extend_from_slice(&whole[..first]);
    let err = match open_bytes(&bad) {
        Ok(_) => panic!("the journal was accepted"),
        Err(e) => e,
    };
    assert_eq!(
        err.to_string(),
        "journal integrity failure: journal read error: stream did not contain valid UTF-8"
    );
}

#[test]
fn a_missing_line_feed_is_added_before_the_next_line() {
    let d = Disk::default();
    d.append(&mut fresh(), &sealed(0, 1)).unwrap();
    let n = d.journal.borrow().len();
    d.journal.borrow_mut().pop();
    let opened = open_bytes(&d.journal.borrow()).ok().unwrap();
    assert!(opened.end.torn.is_none());
    assert_eq!(opened.end.keep, n - 1);
    assert!(opened.end.line_feed_due);
    let mut store = d.open().unwrap();
    assert_eq!(d.journal.borrow().len(), n);
    d.append(&mut store, &sealed(1, 2)).unwrap();
    assert_eq!(open_bytes(&d.journal.borrow()).ok().unwrap().store.size(), 2);
}

#[test]
fn a_torn_tail_may_end_with_a_line_feed() {
    let d = Disk::default();
    d.append(&mut fresh(), &sealed(0, 1)).unwrap();
    let n = d.journal.borrow().len();
    d.journal.borrow_mut().extend_from_slice(b"{\"seq\n");
    let opened = open_bytes(&d.journal.borrow()).ok().unwrap();
    assert!(opened.end.torn.is_some());
    assert_eq!(opened.end.keep, n);
    assert!(!opened.end.line_feed_due);
}

#[test]
fn a_blank_line_is_corruption_even_at_the_end() {
    let d = Disk::default();
    d.append(&mut fresh(), &sealed(0, 1)).unwrap();
    let good = d.text();
    for tail in ["  \n", "\n", "\u{3000}\n"] {
        let err = refused(&(good.clone() + tail));
        assert!(err.to_string().starts_with("journal integrity failure: line 2: "));
    }
}

#[test]
fn a_reading_failure_hides_the_line_before_it() {
    let d = Disk::default();
    d.append(&mut fresh(), &sealed(0, 1)).unwrap();
    let good = d.text();
    let failed = |text: &str| {
        let j = JournalRead {
            bytes: text.as_bytes().to_vec(),
            failure: Some("disk gone".to_string()),
        };
        match SnapshotStore::open(&writer, Some(&j)) {
            Ok(_) => panic!("the journal was accepted"),
            Err(e) => e.to_string(),
        }
    };
    let read_error = "journal integrity failure: journal read error: disk gone";
    assert_eq!(failed(""), read_error);
    assert_eq!(failed("garbage"), read_error);
    assert_eq!(failed(&(good.clone() + "garbage")), read_error);
    // A bad line further up is met first.
    assert!(failed(&("garbage\n".to_string() + &good))
        .starts_with("journal integrity failure: line 1: "));
}

#[test]
fn the_first_file_that_fails_ends_the_check() {
    let d = Disk::default();
    let mut store = fresh();
    for seq in 0..4u64 {
        d.append(&mut store, &sealed(seq, seq as i64)).unwrap();
    }
    d.files.borrow_mut().remove("s-000000000000.json");
    d.files.borrow_mut().remove("s-000000000003.json");
    d.files
        .borrow_mut()
        .insert("s-000000000002.json".to_string(), b"stale".to_vec());
    let before = d.files.borrow().clone();
    let written = RefCell::new(Vec::new());
    let read = |name: &String| match before.get(name) {
        Some(b) => FileRead::Found(b.clone()),
        None => FileRead::Missing,
    };
    let write = |f: &SnapshotFile| -> Result<(), String> {
        written.borrow_mut().push(f.name.clone());
        Ok(())
    };
    let err = store.verify_snapshot_files(&writer, &read, &write, "aip/").unwrap_err();
    assert_eq!(
        err.to_string(),
        "journal integrity failure: snapshot file aip/s-000000000002.json does not match the journaled record (tampered or stale)"
    );
    // The missing file before it was written, what is there was not.
    assert_eq!(*written.borrow(), vec!["s-000000000000.json".to_string()]);
    // A file that cannot be written is an error too.
    let full = |_: &SnapshotFile| -> Result<(), String> { Err("disk full".to_string()) };
    let err = store.verify_snapshot_files(&writer, &read, &full, "").unwrap_err();
    assert_eq!(err.to_string(), "journal integrity failure: disk full");
}

#[test]
fn a_whole_store_is_healed() {
    let d = Disk::default();
    let mut store = fresh();
    for seq in 0..3u64 {
        d.append(&mut store, &sealed(seq, seq as i64)).unwrap();
    }
    let all = d.files.borrow().clone();
    d.files.borrow_mut().clear();
    d.files.borrow_mut().insert("other.txt".to_string(), b"left alone".to_vec());
    d.open().unwrap();
    for (name, body) in &all {
        assert_eq!(&d.files.borrow()[name], body);
    }
    assert_eq!(d.files.borrow()["other.txt"], b"left alone".to_vec());
    assert_eq!(d.files.borrow().len(), 4);
}

#[test]
fn a_file_that_cannot_be_read_is_no_missing_file() {
    let found = FileRead::Failed("permission denied".to_string());
    let err = check_snapshot_file(&writer, &sealed(0, 1), &found, "x.json").unwrap_err();
    assert_eq!(
        err.to_string(),
        "journal integrity failure: cannot read snapshot file x.json: permission denied"
    );
}

#[test]
fn tampered_aip_file_is_detected_and_missing_files_heal() {
    let d = Disk::default();
    {
        let mut store = fresh();
        d.append(&mut store, &sealed(0, 10)).unwrap();
        d.append(&mut store, &sealed(1, 11)).unwrap();
    }
    // Missing file: re-materialized on open.
    d.files.borrow_mut().remove("s-000000000001.json");
    let store = d.open().unwrap();
    assert_eq!(store.size(), 2);
    assert_eq!(
        d.files.borrow()["s-000000000001.json"],
        store.get("s-000000000001").unwrap().render_body(&writer).into_bytes()
    );

    // Tampered file: hard integrity error.
    d.files
        .borrow_mut()
        .insert("s-000000000000.json".to_string(), b"{\"tampered\": true}\n".to_vec());
    let err = match d.open() {
        Ok(_) => panic!("the file was accepted"),
        Err(e) => e,
    };
    assert!(matches!(err, StoreError::Journal(_)));
    assert!(err.to_string().contains("does not match"));
    assert_eq!(
        err.to_string(),
        "journal integrity failure: snapshot file s-000000000000.json does not match the journaled record (tampered or stale)"
    );
}

#[test]
fn tampered_journal_record_breaks_the_body_digest_check() {
    let d = Disk::default();
    d.append(&mut fresh(), &sealed(0, 20)).unwrap();
    // Rewrite the passport id without updating the digest.
    let line = d.text();
    let tampered = line.replace("urn:unidpp:passport:p-0", "urn:unidpp:passport:evil");
    let err = refused(&tampered);
    assert!(matches!(err, StoreError::Journal(_)));
    assert!(err.to_string().contains("digest"));
}

#[test]
fn an_unsealed_record_is_not_appended() {
    let mut store = fresh();
    let mut r = sealed(0, 20);
    r.passport_id = "urn:unidpp:passport:evil".to_string();
    let err = store.append_snapshot(&writer, &r, no_file, no_line).unwrap_err();
    assert_eq!(
        err,
        StoreError::Journal("record body digest does not match its rendered bytes".to_string())
    );
    assert_eq!(store.size(), 0);
}

#[test]
fn what_cannot_be_written_is_not_indexed() {
    let mut store = fresh();
    let full = |_: &String| -> Result<(), String> {
        Err("journal write failed: disk full".to_string())
    };
    let err = store
        .append_snapshot(&writer, &sealed(0, 1), no_file, full)
        .unwrap_err();
    assert_eq!(
        err.to_string(),
        "journal integrity failure: journal write failed: disk full"
    );
    assert_eq!(store.size(), 0);
    // Where the file cannot be written no line is added.
    let d = Disk::default();
    let broken = |_: &SnapshotFile| -> Result<(), String> { Err("no such directory".to_string()) };
    let err = store
        .append_snapshot(&writer, &sealed(0, 1), broken, |l: &String| d.write_line(l))
        .unwrap_err();
    assert_eq!(err.to_string(), "journal integrity failure: no such directory");
    assert!(d.journal.borrow().is_empty());
    assert_eq!(store.size(), 0);
    // The sequence number is free for the next attempt, and the journal keeps to
    // the index.
    d.append(&mut store, &sealed(0, 1)).unwrap();
    d.append(&mut store, &sealed(1, 2)).unwrap();
    assert_eq!(store.size(), 2);
    assert_eq!(open(&d.text()).unwrap().size(), 2);
}

#[test]
fn nothing_is_written_for_a_refused_record() {
    let d = Disk::default();
    let mut store = fresh();
    d.append(&mut store, &sealed(1, 1)).unwrap_err();
    assert!(d.journal.borrow().is_empty());
    assert!(d.files.borrow().is_empty());
}

#[test]
fn the_plan_of_an_append_is_one_line_and_one_file() {
    let store = fresh();
    let mut r = sealed(0, 1);
    r.passport_id = "line one\nline two".to_string();
    r.seal(&writer, &notary).unwrap();
    let plan = store.prepare_append(&writer, &r).ok().unwrap();
    assert!(!plan.line.contains('\n'));
    let v: Value = serde_json::from_str(&plan.line).unwrap();
    assert_eq!(v, r.to_journal_json());
    assert_eq!(SnapshotRecord::from_journal_json(&v).unwrap(), r);
    assert_eq!(plan.file.name, "s-000000000000.json");
    assert_eq!(plan.file.body, r.render_body(&writer));
}

#[test]
fn as_of_listing_filters_by_passport_and_time() {
    let mut store = fresh();
    let mut a = sealed(0, 1_000);
    a.passport_id = "urn:p:a".into();
    let mut b = sealed(1, 2_000);
    b.passport_id = "urn:p:b".into();
    let mut a2 = sealed(2, 3_000);
    a2.passport_id = "urn:p:a".into();
    // Re-seal: the passport id is part of the signed statement.
    for r in [&mut a, &mut b, &mut a2] {
        r.seal(&writer, &notary).unwrap();
        store.append_snapshot(&writer, r, no_file, no_line).unwrap();
    }
    assert_eq!(store.list(None, None).len(), 3);
    assert_eq!(store.list(Some("urn:p:a"), None).len(), 2);
    assert_eq!(store.list(Some("urn:p:b"), None).len(), 1);
    assert_eq!(store.list(Some("urn:p:zz"), None).len(), 0);
    // As-of: only snapshots notarized at or before the instant.
    assert_eq!(store.list(None, Some(Timestamp::from_secs(999))).len(), 0);
    assert_eq!(store.list(None, Some(Timestamp::from_secs(1_000))).len(), 1);
    assert_eq!(store.list(None, Some(Timestamp::from_secs(2_500))).len(), 2);
    assert_eq!(
        store
            .list(Some("urn:p:a"), Some(Timestamp::from_secs(2_500)))
            .len(),
        1
    );
    // In sequencing order.
    let seqs: Vec<u64> = store.list(Some("urn:p:a"), None).iter().map(|r| r.seq).collect();
    assert_eq!(seqs, vec![0, 2]);
}

#[test]
fn audit_view_is_paginated() {
    let mut store = fresh();
    for seq in 0..3u64 {
        store
            .append_snapshot(&writer, &sealed(seq, seq as i64), no_file, no_line)
            .unwrap();
    }
    let v = store.audit_json(2, 1);
    assert_eq!(v["total"], 3);
    assert_eq!(v["count"], 2);
    assert_eq!(v["records"][0]["seq"], 1);
    assert!(v["records"][0]["body_sha256"].as_str().unwrap().len() == 64);
}

#[test]
fn audit_pages_stop_at_the_end() {
    let mut store = fresh();
    for seq in 0..3u64 {
        store
            .append_snapshot(&writer, &sealed(seq, seq as i64), no_file, no_line)
            .unwrap();
    }
    let v = store.audit_json(usize::MAX, 1);
    assert_eq!(v["count"], 2);
    assert_eq!(v["limit"], usize::MAX as u64);
    assert_eq!(v["offset"], 1);
    assert_eq!(v["records"][1]["seq"], 2);
    assert_eq!(
        v["records"][1]["body_sha256"],
        v["records"][1]["body_digest"]
    );
    for (limit, offset) in [(0, 0), (5, 3), (5, usize::MAX)] {
        let v = store.audit_json(limit, offset);
        assert_eq!(v["count"], 0);
        assert_eq!(v["total"], 3);
        assert_eq!(v["records"].as_array().unwrap().len(), 0);
    }
}

#[test]
fn anchored_records_round_trip_through_the_journal() {
    let d = Disk::default();
    let receipt: Value = serde_json::from_str(&format!(
        r#"{{
            "receipt_id": "5",
            "log_id": "t-log",
            "seq": 5,
            "logged_at": "2026-09-07T00:00:00Z",
            "tree_head": {{"tree_size": 6, "root": "{}"}}
        }}"#,
        hash_of("r").hex()
    ))
    .unwrap();
    let summary = AnchorSummary {
        log_id: "t-log".into(),
        receipt_seq: 5,
        tree_size: 6,
        root: hash_of("r"),
        logged_at: Timestamp::from_secs(0),
    };
    {
        let mut store = fresh();
        let mut rec = sealed(0, 42);
        let commitment = rec.commitment(&writer);
        rec.set_anchoring(Anchoring::anchored(
            summary.clone(),
            receipt.clone(),
            commitment,
        ));
        rec.seal(&writer, &notary).unwrap();
        d.append(&mut store, &rec).unwrap();
    }
    let store = d.open().unwrap();
    let rec = store.get("s-000000000000").unwrap();
    assert_eq!(rec.anchoring.status, AnchoringStatus::Anchored);
    assert_eq!(rec.anchoring.receipt_seq, Some(5));
    assert_eq!(rec.anchoring.receipt, Some(receipt));
}

#[test]
fn store_errors_have_their_words() {
    assert_eq!(
        StoreError::Journal("x".to_string()).to_string(),
        "journal integrity failure: x"
    );
    assert_eq!(StoreError::Conflict("y".to_string()).clone().to_string(), "conflict: y");
}
