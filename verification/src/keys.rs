//! The keys of the archive's JSON objects differ from each other.

use vstd::prelude::*;
use crate::json;

verus! {

/// The keys of an anchoring outcome, and the words for its status.
pub proof fn lemma_anchoring_keys()
    ensures
        "status"@ != "reason"@,
        "status"@ != "log_id"@,
        "status"@ != "receipt_id"@,
        "status"@ != "tree_size"@,
        "status"@ != "root"@,
        "status"@ != "logged_at"@,
        "status"@ != "commitment"@,
        "status"@ != "receipt"@,
        "status"@ != "anchored"@,
        "status"@ != "unanchored"@,
        "reason"@ != "log_id"@,
        "reason"@ != "receipt_id"@,
        "reason"@ != "tree_size"@,
        "reason"@ != "root"@,
        "reason"@ != "logged_at"@,
        "reason"@ != "commitment"@,
        "reason"@ != "receipt"@,
        "reason"@ != "anchored"@,
        "reason"@ != "unanchored"@,
        "log_id"@ != "receipt_id"@,
        "log_id"@ != "tree_size"@,
        "log_id"@ != "root"@,
        "log_id"@ != "logged_at"@,
        "log_id"@ != "commitment"@,
        "log_id"@ != "receipt"@,
        "log_id"@ != "anchored"@,
        "log_id"@ != "unanchored"@,
        "receipt_id"@ != "tree_size"@,
        "receipt_id"@ != "root"@,
        "receipt_id"@ != "logged_at"@,
        "receipt_id"@ != "commitment"@,
        "receipt_id"@ != "receipt"@,
        "receipt_id"@ != "anchored"@,
        "receipt_id"@ != "unanchored"@,
        "tree_size"@ != "root"@,
        "tree_size"@ != "logged_at"@,
        "tree_size"@ != "commitment"@,
        "tree_size"@ != "receipt"@,
        "tree_size"@ != "anchored"@,
        "tree_size"@ != "unanchored"@,
        "root"@ != "logged_at"@,
        "root"@ != "commitment"@,
        "root"@ != "receipt"@,
        "root"@ != "anchored"@,
        "root"@ != "unanchored"@,
        "logged_at"@ != "commitment"@,
        "logged_at"@ != "receipt"@,
        "logged_at"@ != "anchored"@,
        "logged_at"@ != "unanchored"@,
        "commitment"@ != "receipt"@,
        "commitment"@ != "anchored"@,
        "commitment"@ != "unanchored"@,
        "receipt"@ != "anchored"@,
        "receipt"@ != "unanchored"@,
        "anchored"@ != "unanchored"@,
{
    reveal_strlit("status");
    assert("status"@.len() == 6);
    reveal_strlit("reason");
    assert("reason"@.len() == 6);
    reveal_strlit("log_id");
    assert("log_id"@.len() == 6);
    reveal_strlit("receipt_id");
    assert("receipt_id"@.len() == 10);
    reveal_strlit("tree_size");
    assert("tree_size"@.len() == 9);
    reveal_strlit("root");
    assert("root"@.len() == 4);
    reveal_strlit("logged_at");
    assert("logged_at"@.len() == 9);
    reveal_strlit("commitment");
    assert("commitment"@.len() == 10);
    reveal_strlit("receipt");
    assert("receipt"@.len() == 7);
    reveal_strlit("anchored");
    assert("anchored"@.len() == 8);
    reveal_strlit("unanchored");
    assert("unanchored"@.len() == 10);
    assert("status"@[0] != "reason"@[0]);
    assert("status"@[0] != "log_id"@[0]);
    assert("reason"@[0] != "log_id"@[0]);
    assert("receipt_id"@[0] != "commitment"@[0]);
    assert("receipt_id"@[0] != "unanchored"@[0]);
    assert("tree_size"@[0] != "logged_at"@[0]);
    assert("commitment"@[0] != "unanchored"@[0]);
}

/// The keys of a journal line.
pub proof fn lemma_journal_keys()
    ensures
        "seq"@ != "snapshot_id"@,
        "seq"@ != "notarized_at"@,
        "seq"@ != "passport_id"@,
        "seq"@ != "state_hash"@,
        "seq"@ != "log_head"@,
        "seq"@ != "submitter"@,
        "seq"@ != "state_size"@,
        "seq"@ != "anchoring"@,
        "seq"@ != "signature"@,
        "seq"@ != "key_id"@,
        "seq"@ != "body_digest"@,
        "snapshot_id"@ != "notarized_at"@,
        "snapshot_id"@ != "passport_id"@,
        "snapshot_id"@ != "state_hash"@,
        "snapshot_id"@ != "log_head"@,
        "snapshot_id"@ != "submitter"@,
        "snapshot_id"@ != "state_size"@,
        "snapshot_id"@ != "anchoring"@,
        "snapshot_id"@ != "signature"@,
        "snapshot_id"@ != "key_id"@,
        "snapshot_id"@ != "body_digest"@,
        "notarized_at"@ != "passport_id"@,
        "notarized_at"@ != "state_hash"@,
        "notarized_at"@ != "log_head"@,
        "notarized_at"@ != "submitter"@,
        "notarized_at"@ != "state_size"@,
        "notarized_at"@ != "anchoring"@,
        "notarized_at"@ != "signature"@,
        "notarized_at"@ != "key_id"@,
        "notarized_at"@ != "body_digest"@,
        "passport_id"@ != "state_hash"@,
        "passport_id"@ != "log_head"@,
        "passport_id"@ != "submitter"@,
        "passport_id"@ != "state_size"@,
        "passport_id"@ != "anchoring"@,
        "passport_id"@ != "signature"@,
        "passport_id"@ != "key_id"@,
        "passport_id"@ != "body_digest"@,
        "state_hash"@ != "log_head"@,
        "state_hash"@ != "submitter"@,
        "state_hash"@ != "state_size"@,
        "state_hash"@ != "anchoring"@,
        "state_hash"@ != "signature"@,
        "state_hash"@ != "key_id"@,
        "state_hash"@ != "body_digest"@,
        "log_head"@ != "submitter"@,
        "log_head"@ != "state_size"@,
        "log_head"@ != "anchoring"@,
        "log_head"@ != "signature"@,
        "log_head"@ != "key_id"@,
        "log_head"@ != "body_digest"@,
        "submitter"@ != "state_size"@,
        "submitter"@ != "anchoring"@,
        "submitter"@ != "signature"@,
        "submitter"@ != "key_id"@,
        "submitter"@ != "body_digest"@,
        "state_size"@ != "anchoring"@,
        "state_size"@ != "signature"@,
        "state_size"@ != "key_id"@,
        "state_size"@ != "body_digest"@,
        "anchoring"@ != "signature"@,
        "anchoring"@ != "key_id"@,
        "anchoring"@ != "body_digest"@,
        "signature"@ != "key_id"@,
        "signature"@ != "body_digest"@,
        "key_id"@ != "body_digest"@,
{
    reveal_strlit("seq");
    assert("seq"@.len() == 3);
    reveal_strlit("snapshot_id");
    assert("snapshot_id"@.len() == 11);
    reveal_strlit("notarized_at");
    assert("notarized_at"@.len() == 12);
    reveal_strlit("passport_id");
    assert("passport_id"@.len() == 11);
    reveal_strlit("state_hash");
    assert("state_hash"@.len() == 10);
    reveal_strlit("log_head");
    assert("log_head"@.len() == 8);
    reveal_strlit("submitter");
    assert("submitter"@.len() == 9);
    reveal_strlit("state_size");
    assert("state_size"@.len() == 10);
    reveal_strlit("anchoring");
    assert("anchoring"@.len() == 9);
    reveal_strlit("signature");
    assert("signature"@.len() == 9);
    reveal_strlit("key_id");
    assert("key_id"@.len() == 6);
    reveal_strlit("body_digest");
    assert("body_digest"@.len() == 11);
    assert("snapshot_id"@[0] != "passport_id"@[0]);
    assert("snapshot_id"@[0] != "body_digest"@[0]);
    assert("passport_id"@[0] != "body_digest"@[0]);
    assert("state_hash"@[6] != "state_size"@[6]);
    assert("submitter"@[0] != "anchoring"@[0]);
    assert("submitter"@[1] != "signature"@[1]);
    assert("anchoring"@[0] != "signature"@[0]);
}

/// The keys of a document.
pub proof fn lemma_document_keys()
    ensures
        "schema"@ != "service"@,
        "schema"@ != "snapshot_id"@,
        "schema"@ != "seq"@,
        "schema"@ != "as_of"@,
        "schema"@ != "oais"@,
        "service"@ != "snapshot_id"@,
        "service"@ != "seq"@,
        "service"@ != "as_of"@,
        "service"@ != "oais"@,
        "snapshot_id"@ != "seq"@,
        "snapshot_id"@ != "as_of"@,
        "snapshot_id"@ != "oais"@,
        "seq"@ != "as_of"@,
        "seq"@ != "oais"@,
        "as_of"@ != "oais"@,
{
    reveal_strlit("schema");
    assert("schema"@.len() == 6);
    reveal_strlit("service");
    assert("service"@.len() == 7);
    reveal_strlit("snapshot_id");
    assert("snapshot_id"@.len() == 11);
    reveal_strlit("seq");
    assert("seq"@.len() == 3);
    reveal_strlit("as_of");
    assert("as_of"@.len() == 5);
    reveal_strlit("oais");
    assert("oais"@.len() == 4);
}

/// The keys of `oais`.
pub proof fn lemma_oais_keys()
    ensures
        "profile"@ != "submission"@,
        "profile"@ != "information_package"@,
        "profile"@ != "provenance"@,
        "submission"@ != "information_package"@,
        "submission"@ != "provenance"@,
        "information_package"@ != "provenance"@,
{
    reveal_strlit("profile");
    assert("profile"@.len() == 7);
    reveal_strlit("submission");
    assert("submission"@.len() == 10);
    reveal_strlit("information_package");
    assert("information_package"@.len() == 19);
    reveal_strlit("provenance");
    assert("provenance"@.len() == 10);
    assert("submission"@[0] != "provenance"@[0]);
}

/// The keys of `oais.information_package`.
pub proof fn lemma_package_keys()
    ensures
        "passport_id"@ != "state_hash"@,
        "passport_id"@ != "log_head"@,
        "passport_id"@ != "as_of"@,
        "passport_id"@ != "commitment"@,
        "passport_id"@ != "statement_digest"@,
        "state_hash"@ != "log_head"@,
        "state_hash"@ != "as_of"@,
        "state_hash"@ != "commitment"@,
        "state_hash"@ != "statement_digest"@,
        "log_head"@ != "as_of"@,
        "log_head"@ != "commitment"@,
        "log_head"@ != "statement_digest"@,
        "as_of"@ != "commitment"@,
        "as_of"@ != "statement_digest"@,
        "commitment"@ != "statement_digest"@,
{
    reveal_strlit("passport_id");
    assert("passport_id"@.len() == 11);
    reveal_strlit("state_hash");
    assert("state_hash"@.len() == 10);
    reveal_strlit("log_head");
    assert("log_head"@.len() == 8);
    reveal_strlit("as_of");
    assert("as_of"@.len() == 5);
    reveal_strlit("commitment");
    assert("commitment"@.len() == 10);
    reveal_strlit("statement_digest");
    assert("statement_digest"@.len() == 16);
    assert("state_hash"@[0] != "commitment"@[0]);
}

/// The keys of `oais.provenance`.
pub proof fn lemma_provenance_keys()
    ensures
        "service"@ != "notarized_at"@,
        "service"@ != "signing"@,
        "service"@ != "anchoring"@,
        "service"@ != "receipt"@,
        "service"@ != "signature"@,
        "service"@ != "verification"@,
        "notarized_at"@ != "signing"@,
        "notarized_at"@ != "anchoring"@,
        "notarized_at"@ != "receipt"@,
        "notarized_at"@ != "signature"@,
        "notarized_at"@ != "verification"@,
        "signing"@ != "anchoring"@,
        "signing"@ != "receipt"@,
        "signing"@ != "signature"@,
        "signing"@ != "verification"@,
        "anchoring"@ != "receipt"@,
        "anchoring"@ != "signature"@,
        "anchoring"@ != "verification"@,
        "receipt"@ != "signature"@,
        "receipt"@ != "verification"@,
        "signature"@ != "verification"@,
{
    reveal_strlit("service");
    assert("service"@.len() == 7);
    reveal_strlit("notarized_at");
    assert("notarized_at"@.len() == 12);
    reveal_strlit("signing");
    assert("signing"@.len() == 7);
    reveal_strlit("anchoring");
    assert("anchoring"@.len() == 9);
    reveal_strlit("receipt");
    assert("receipt"@.len() == 7);
    reveal_strlit("signature");
    assert("signature"@.len() == 9);
    reveal_strlit("verification");
    assert("verification"@.len() == 12);
    assert("service"@[1] != "signing"@[1]);
    assert("service"@[0] != "receipt"@[0]);
    assert("notarized_at"@[0] != "verification"@[0]);
    assert("signing"@[0] != "receipt"@[0]);
    assert("anchoring"@[0] != "signature"@[0]);
}

/// The keys of `oais.submission`.
pub proof fn lemma_submission_keys()
    ensures
        "submitter"@ != "submitted_at"@,
        "submitter"@ != "passport_id"@,
        "submitter"@ != "state_hash"@,
        "submitter"@ != "log_head"@,
        "submitter"@ != "state_size"@,
        "submitted_at"@ != "passport_id"@,
        "submitted_at"@ != "state_hash"@,
        "submitted_at"@ != "log_head"@,
        "submitted_at"@ != "state_size"@,
        "passport_id"@ != "state_hash"@,
        "passport_id"@ != "log_head"@,
        "passport_id"@ != "state_size"@,
        "state_hash"@ != "log_head"@,
        "state_hash"@ != "state_size"@,
        "log_head"@ != "state_size"@,
{
    reveal_strlit("submitter");
    assert("submitter"@.len() == 9);
    reveal_strlit("submitted_at");
    assert("submitted_at"@.len() == 12);
    reveal_strlit("passport_id");
    assert("passport_id"@.len() == 11);
    reveal_strlit("state_hash");
    assert("state_hash"@.len() == 10);
    reveal_strlit("log_head");
    assert("log_head"@.len() == 8);
    reveal_strlit("state_size");
    assert("state_size"@.len() == 10);
    assert("state_hash"@[6] != "state_size"@[6]);
}

/// The keys of `oais.provenance.signing`.
pub proof fn lemma_signing_keys()
    ensures
        "suite"@ != "key_id"@,
        "suite"@ != "domain"@,
        "suite"@ != "adapter_note"@,
        "key_id"@ != "domain"@,
        "key_id"@ != "adapter_note"@,
        "domain"@ != "adapter_note"@,
{
    reveal_strlit("suite");
    assert("suite"@.len() == 5);
    reveal_strlit("key_id");
    assert("key_id"@.len() == 6);
    reveal_strlit("domain");
    assert("domain"@.len() == 6);
    reveal_strlit("adapter_note");
    assert("adapter_note"@.len() == 12);
    assert("key_id"@[0] != "domain"@[0]);
}

/// The keys of a row of the catalogue.
pub proof fn lemma_row_keys()
    ensures
        "snapshot_id"@ != "seq"@,
        "snapshot_id"@ != "passport_id"@,
        "snapshot_id"@ != "state_hash"@,
        "snapshot_id"@ != "log_head"@,
        "snapshot_id"@ != "notarized_at"@,
        "snapshot_id"@ != "anchored"@,
        "snapshot_id"@ != "log_id"@,
        "snapshot_id"@ != "receipt_id"@,
        "snapshot_id"@ != "tree_size"@,
        "snapshot_id"@ != "root"@,
        "snapshot_id"@ != "body_sha256"@,
        "snapshot_id"@ != "href"@,
        "seq"@ != "passport_id"@,
        "seq"@ != "state_hash"@,
        "seq"@ != "log_head"@,
        "seq"@ != "notarized_at"@,
        "seq"@ != "anchored"@,
        "seq"@ != "log_id"@,
        "seq"@ != "receipt_id"@,
        "seq"@ != "tree_size"@,
        "seq"@ != "root"@,
        "seq"@ != "body_sha256"@,
        "seq"@ != "href"@,
        "passport_id"@ != "state_hash"@,
        "passport_id"@ != "log_head"@,
        "passport_id"@ != "notarized_at"@,
        "passport_id"@ != "anchored"@,
        "passport_id"@ != "log_id"@,
        "passport_id"@ != "receipt_id"@,
        "passport_id"@ != "tree_size"@,
        "passport_id"@ != "root"@,
        "passport_id"@ != "body_sha256"@,
        "passport_id"@ != "href"@,
        "state_hash"@ != "log_head"@,
        "state_hash"@ != "notarized_at"@,
        "state_hash"@ != "anchored"@,
        "state_hash"@ != "log_id"@,
        "state_hash"@ != "receipt_id"@,
        "state_hash"@ != "tree_size"@,
        "state_hash"@ != "root"@,
        "state_hash"@ != "body_sha256"@,
        "state_hash"@ != "href"@,
        "log_head"@ != "notarized_at"@,
        "log_head"@ != "anchored"@,
        "log_head"@ != "log_id"@,
        "log_head"@ != "receipt_id"@,
        "log_head"@ != "tree_size"@,
        "log_head"@ != "root"@,
        "log_head"@ != "body_sha256"@,
        "log_head"@ != "href"@,
        "notarized_at"@ != "anchored"@,
        "notarized_at"@ != "log_id"@,
        "notarized_at"@ != "receipt_id"@,
        "notarized_at"@ != "tree_size"@,
        "notarized_at"@ != "root"@,
        "notarized_at"@ != "body_sha256"@,
        "notarized_at"@ != "href"@,
        "anchored"@ != "log_id"@,
        "anchored"@ != "receipt_id"@,
        "anchored"@ != "tree_size"@,
        "anchored"@ != "root"@,
        "anchored"@ != "body_sha256"@,
        "anchored"@ != "href"@,
        "log_id"@ != "receipt_id"@,
        "log_id"@ != "tree_size"@,
        "log_id"@ != "root"@,
        "log_id"@ != "body_sha256"@,
        "log_id"@ != "href"@,
        "receipt_id"@ != "tree_size"@,
        "receipt_id"@ != "root"@,
        "receipt_id"@ != "body_sha256"@,
        "receipt_id"@ != "href"@,
        "tree_size"@ != "root"@,
        "tree_size"@ != "body_sha256"@,
        "tree_size"@ != "href"@,
        "root"@ != "body_sha256"@,
        "root"@ != "href"@,
        "body_sha256"@ != "href"@,
{
    reveal_strlit("snapshot_id");
    assert("snapshot_id"@.len() == 11);
    reveal_strlit("seq");
    assert("seq"@.len() == 3);
    reveal_strlit("passport_id");
    assert("passport_id"@.len() == 11);
    reveal_strlit("state_hash");
    assert("state_hash"@.len() == 10);
    reveal_strlit("log_head");
    assert("log_head"@.len() == 8);
    reveal_strlit("notarized_at");
    assert("notarized_at"@.len() == 12);
    reveal_strlit("anchored");
    assert("anchored"@.len() == 8);
    reveal_strlit("log_id");
    assert("log_id"@.len() == 6);
    reveal_strlit("receipt_id");
    assert("receipt_id"@.len() == 10);
    reveal_strlit("tree_size");
    assert("tree_size"@.len() == 9);
    reveal_strlit("root");
    assert("root"@.len() == 4);
    reveal_strlit("body_sha256");
    assert("body_sha256"@.len() == 11);
    reveal_strlit("href");
    assert("href"@.len() == 4);
    assert("snapshot_id"@[0] != "passport_id"@[0]);
    assert("snapshot_id"@[0] != "body_sha256"@[0]);
    assert("passport_id"@[0] != "body_sha256"@[0]);
    assert("state_hash"@[0] != "receipt_id"@[0]);
    assert("log_head"@[0] != "anchored"@[0]);
    assert("root"@[0] != "href"@[0]);
}

/// The keys of the catalogue.
pub proof fn lemma_catalogue_keys()
    ensures
        "as_of"@ != "query"@,
        "as_of"@ != "count"@,
        "as_of"@ != "snapshots"@,
        "query"@ != "count"@,
        "query"@ != "snapshots"@,
        "count"@ != "snapshots"@,
{
    reveal_strlit("as_of");
    assert("as_of"@.len() == 5);
    reveal_strlit("query");
    assert("query"@.len() == 5);
    reveal_strlit("count");
    assert("count"@.len() == 5);
    reveal_strlit("snapshots");
    assert("snapshots"@.len() == 9);
    assert("as_of"@[0] != "query"@[0]);
    assert("as_of"@[0] != "count"@[0]);
    assert("query"@[0] != "count"@[0]);
}

/// The keys of the echo of a query.
pub proof fn lemma_query_keys()
    ensures
        "at"@ != "passport_id"@,
{
    reveal_strlit("at");
    assert("at"@.len() == 2);
    reveal_strlit("passport_id");
    assert("passport_id"@.len() == 11);
}

/// The keys of an audit page.
pub proof fn lemma_audit_keys()
    ensures
        "count"@ != "total"@,
        "count"@ != "limit"@,
        "count"@ != "offset"@,
        "count"@ != "records"@,
        "count"@ != "as_of"@,
        "total"@ != "limit"@,
        "total"@ != "offset"@,
        "total"@ != "records"@,
        "total"@ != "as_of"@,
        "limit"@ != "offset"@,
        "limit"@ != "records"@,
        "limit"@ != "as_of"@,
        "offset"@ != "records"@,
        "offset"@ != "as_of"@,
        "records"@ != "as_of"@,
{
    reveal_strlit("count");
    assert("count"@.len() == 5);
    reveal_strlit("total");
    assert("total"@.len() == 5);
    reveal_strlit("limit");
    assert("limit"@.len() == 5);
    reveal_strlit("offset");
    assert("offset"@.len() == 6);
    reveal_strlit("records");
    assert("records"@.len() == 7);
    reveal_strlit("as_of");
    assert("as_of"@.len() == 5);
    assert("count"@[0] != "total"@[0]);
    assert("count"@[0] != "limit"@[0]);
    assert("count"@[0] != "as_of"@[0]);
    assert("total"@[0] != "limit"@[0]);
    assert("total"@[0] != "as_of"@[0]);
    assert("limit"@[0] != "as_of"@[0]);
}

/// The keys of the liveness document.
pub proof fn lemma_health_keys()
    ensures
        "status"@ != "service"@,
        "status"@ != "snapshots"@,
        "status"@ != "anchoring_enabled"@,
        "status"@ != "as_of"@,
        "service"@ != "snapshots"@,
        "service"@ != "anchoring_enabled"@,
        "service"@ != "as_of"@,
        "snapshots"@ != "anchoring_enabled"@,
        "snapshots"@ != "as_of"@,
        "anchoring_enabled"@ != "as_of"@,
{
    reveal_strlit("status");
    assert("status"@.len() == 6);
    reveal_strlit("service");
    assert("service"@.len() == 7);
    reveal_strlit("snapshots");
    assert("snapshots"@.len() == 9);
    reveal_strlit("anchoring_enabled");
    assert("anchoring_enabled"@.len() == 17);
    reveal_strlit("as_of");
    assert("as_of"@.len() == 5);
}

/// The keys of an anchoring request.
pub proof fn lemma_commitment_keys()
    ensures
        "subject"@ != "commitment"@,
{
    reveal_strlit("subject");
    assert("subject"@.len() == 7);
    reveal_strlit("commitment");
    assert("commitment"@.len() == 10);
}

/// The names of the headers of answers.
pub proof fn lemma_header_names()
    ensures
        "content-type"@ != "location"@,
        "content-type"@ != "x-snapshot-id"@,
        "content-type"@ != "x-as-of"@,
        "content-type"@ != "etag"@,
        "content-type"@ != "x-anchored-receipt"@,
        "content-type"@ != "cache-control"@,
        "location"@ != "x-snapshot-id"@,
        "location"@ != "x-as-of"@,
        "location"@ != "etag"@,
        "location"@ != "x-anchored-receipt"@,
        "location"@ != "cache-control"@,
        "x-snapshot-id"@ != "x-as-of"@,
        "x-snapshot-id"@ != "etag"@,
        "x-snapshot-id"@ != "x-anchored-receipt"@,
        "x-snapshot-id"@ != "cache-control"@,
        "x-as-of"@ != "etag"@,
        "x-as-of"@ != "x-anchored-receipt"@,
        "x-as-of"@ != "cache-control"@,
        "etag"@ != "x-anchored-receipt"@,
        "etag"@ != "cache-control"@,
        "x-anchored-receipt"@ != "cache-control"@,
{
    reveal_strlit("content-type");
    assert("content-type"@.len() == 12);
    reveal_strlit("location");
    assert("location"@.len() == 8);
    reveal_strlit("x-snapshot-id");
    assert("x-snapshot-id"@.len() == 13);
    reveal_strlit("x-as-of");
    assert("x-as-of"@.len() == 7);
    reveal_strlit("etag");
    assert("etag"@.len() == 4);
    reveal_strlit("x-anchored-receipt");
    assert("x-anchored-receipt"@.len() == 18);
    reveal_strlit("cache-control");
    assert("cache-control"@.len() == 13);
    assert("x-snapshot-id"@[0] != "cache-control"@[0]);
}

/// The keys of the entry points.
pub proof fn lemma_endpoint_keys()
    ensures
        "discovery"@ != "health"@,
        "discovery"@ != "keyring"@,
        "discovery"@ != "ingest"@,
        "discovery"@ != "snapshot"@,
        "discovery"@ != "listing"@,
        "discovery"@ != "admin_log"@,
        "health"@ != "keyring"@,
        "health"@ != "ingest"@,
        "health"@ != "snapshot"@,
        "health"@ != "listing"@,
        "health"@ != "admin_log"@,
        "keyring"@ != "ingest"@,
        "keyring"@ != "snapshot"@,
        "keyring"@ != "listing"@,
        "keyring"@ != "admin_log"@,
        "ingest"@ != "snapshot"@,
        "ingest"@ != "listing"@,
        "ingest"@ != "admin_log"@,
        "snapshot"@ != "listing"@,
        "snapshot"@ != "admin_log"@,
        "listing"@ != "admin_log"@,
{
    reveal_strlit("discovery");
    assert("discovery"@.len() == 9);
    reveal_strlit("health");
    assert("health"@.len() == 6);
    reveal_strlit("keyring");
    assert("keyring"@.len() == 7);
    reveal_strlit("ingest");
    assert("ingest"@.len() == 6);
    reveal_strlit("snapshot");
    assert("snapshot"@.len() == 8);
    reveal_strlit("listing");
    assert("listing"@.len() == 7);
    reveal_strlit("admin_log");
    assert("admin_log"@.len() == 9);
    assert("discovery"@[0] != "admin_log"@[0]);
    assert("health"@[0] != "ingest"@[0]);
    assert("keyring"@[0] != "listing"@[0]);
}

/// The key that an audit row has beside those of a journal line.
pub proof fn lemma_audit_row_keys()
    ensures
        "body_sha256"@ != "seq"@,
        "body_sha256"@ != "snapshot_id"@,
        "body_sha256"@ != "notarized_at"@,
        "body_sha256"@ != "passport_id"@,
        "body_sha256"@ != "state_hash"@,
        "body_sha256"@ != "log_head"@,
        "body_sha256"@ != "submitter"@,
        "body_sha256"@ != "state_size"@,
        "body_sha256"@ != "anchoring"@,
        "body_sha256"@ != "signature"@,
        "body_sha256"@ != "key_id"@,
        "body_sha256"@ != "body_digest"@,
{
    reveal_strlit("body_sha256");
    assert("body_sha256"@.len() == 11);
    reveal_strlit("seq");
    assert("seq"@.len() == 3);
    reveal_strlit("snapshot_id");
    assert("snapshot_id"@.len() == 11);
    reveal_strlit("notarized_at");
    assert("notarized_at"@.len() == 12);
    reveal_strlit("passport_id");
    assert("passport_id"@.len() == 11);
    reveal_strlit("state_hash");
    assert("state_hash"@.len() == 10);
    reveal_strlit("log_head");
    assert("log_head"@.len() == 8);
    reveal_strlit("submitter");
    assert("submitter"@.len() == 9);
    reveal_strlit("state_size");
    assert("state_size"@.len() == 10);
    reveal_strlit("anchoring");
    assert("anchoring"@.len() == 9);
    reveal_strlit("signature");
    assert("signature"@.len() == 9);
    reveal_strlit("key_id");
    assert("key_id"@.len() == 6);
    reveal_strlit("body_digest");
    assert("body_digest"@.len() == 11);
    assert("body_sha256"@[0] != "snapshot_id"@[0]);
    assert("body_sha256"@[0] != "passport_id"@[0]);
    assert("body_sha256"@[5] != "body_digest"@[5]);
}

/// The keys of the discovery document.
pub proof fn lemma_discovery_keys()
    ensures
        "service"@ != "version"@,
        "service"@ != "build_id"@,
        "service"@ != "description"@,
        "service"@ != "schema"@,
        "service"@ != "anchoring_enabled"@,
        "service"@ != "oais"@,
        "service"@ != "endpoints"@,
        "service"@ != "notarization"@,
        "service"@ != "anchoring"@,
        "service"@ != "storage"@,
        "service"@ != "as_of"@,
        "service"@ != "auth"@,
        "version"@ != "build_id"@,
        "version"@ != "description"@,
        "version"@ != "schema"@,
        "version"@ != "anchoring_enabled"@,
        "version"@ != "oais"@,
        "version"@ != "endpoints"@,
        "version"@ != "notarization"@,
        "version"@ != "anchoring"@,
        "version"@ != "storage"@,
        "version"@ != "as_of"@,
        "version"@ != "auth"@,
        "build_id"@ != "description"@,
        "build_id"@ != "schema"@,
        "build_id"@ != "anchoring_enabled"@,
        "build_id"@ != "oais"@,
        "build_id"@ != "endpoints"@,
        "build_id"@ != "notarization"@,
        "build_id"@ != "anchoring"@,
        "build_id"@ != "storage"@,
        "build_id"@ != "as_of"@,
        "build_id"@ != "auth"@,
        "description"@ != "schema"@,
        "description"@ != "anchoring_enabled"@,
        "description"@ != "oais"@,
        "description"@ != "endpoints"@,
        "description"@ != "notarization"@,
        "description"@ != "anchoring"@,
        "description"@ != "storage"@,
        "description"@ != "as_of"@,
        "description"@ != "auth"@,
        "schema"@ != "anchoring_enabled"@,
        "schema"@ != "oais"@,
        "schema"@ != "endpoints"@,
        "schema"@ != "notarization"@,
        "schema"@ != "anchoring"@,
        "schema"@ != "storage"@,
        "schema"@ != "as_of"@,
        "schema"@ != "auth"@,
        "anchoring_enabled"@ != "oais"@,
        "anchoring_enabled"@ != "endpoints"@,
        "anchoring_enabled"@ != "notarization"@,
        "anchoring_enabled"@ != "anchoring"@,
        "anchoring_enabled"@ != "storage"@,
        "anchoring_enabled"@ != "as_of"@,
        "anchoring_enabled"@ != "auth"@,
        "oais"@ != "endpoints"@,
        "oais"@ != "notarization"@,
        "oais"@ != "anchoring"@,
        "oais"@ != "storage"@,
        "oais"@ != "as_of"@,
        "oais"@ != "auth"@,
        "endpoints"@ != "notarization"@,
        "endpoints"@ != "anchoring"@,
        "endpoints"@ != "storage"@,
        "endpoints"@ != "as_of"@,
        "endpoints"@ != "auth"@,
        "notarization"@ != "anchoring"@,
        "notarization"@ != "storage"@,
        "notarization"@ != "as_of"@,
        "notarization"@ != "auth"@,
        "anchoring"@ != "storage"@,
        "anchoring"@ != "as_of"@,
        "anchoring"@ != "auth"@,
        "storage"@ != "as_of"@,
        "storage"@ != "auth"@,
        "as_of"@ != "auth"@,
{
    reveal_strlit("service");
    assert("service"@.len() == 7);
    reveal_strlit("version");
    assert("version"@.len() == 7);
    reveal_strlit("build_id");
    assert("build_id"@.len() == 8);
    reveal_strlit("description");
    assert("description"@.len() == 11);
    reveal_strlit("schema");
    assert("schema"@.len() == 6);
    reveal_strlit("anchoring_enabled");
    assert("anchoring_enabled"@.len() == 17);
    reveal_strlit("oais");
    assert("oais"@.len() == 4);
    reveal_strlit("endpoints");
    assert("endpoints"@.len() == 9);
    reveal_strlit("notarization");
    assert("notarization"@.len() == 12);
    reveal_strlit("anchoring");
    assert("anchoring"@.len() == 9);
    reveal_strlit("storage");
    assert("storage"@.len() == 7);
    reveal_strlit("as_of");
    assert("as_of"@.len() == 5);
    reveal_strlit("auth");
    assert("auth"@.len() == 4);
    assert("service"@[0] != "version"@[0]);
    assert("service"@[1] != "storage"@[1]);
    assert("version"@[0] != "storage"@[0]);
    assert("oais"@[0] != "auth"@[0]);
    assert("endpoints"@[0] != "anchoring"@[0]);
}

/// The keys of the notarization section of the discovery document.
pub proof fn lemma_notarization_keys()
    ensures
        "suite"@ != "domain"@,
        "suite"@ != "adapter_note"@,
        "suite"@ != "keyring_endpoint"@,
        "suite"@ != "statement_recipe"@,
        "domain"@ != "adapter_note"@,
        "domain"@ != "keyring_endpoint"@,
        "domain"@ != "statement_recipe"@,
        "adapter_note"@ != "keyring_endpoint"@,
        "adapter_note"@ != "statement_recipe"@,
        "keyring_endpoint"@ != "statement_recipe"@,
{
    reveal_strlit("suite");
    assert("suite"@.len() == 5);
    reveal_strlit("domain");
    assert("domain"@.len() == 6);
    reveal_strlit("adapter_note");
    assert("adapter_note"@.len() == 12);
    reveal_strlit("keyring_endpoint");
    assert("keyring_endpoint"@.len() == 16);
    reveal_strlit("statement_recipe");
    assert("statement_recipe"@.len() == 16);
    assert("keyring_endpoint"@[0] != "statement_recipe"@[0]);
}

/// The keys beside `as_of` in the catalogue and in the discovery document, and
/// those beside `instant`.
pub proof fn lemma_answer_keys()
    ensures
        "as_of"@ != "query"@,
        "as_of"@ != "count"@,
        "as_of"@ != "snapshots"@,
        "as_of"@ != "auth"@,
        "instant"@ != "query_parameter"@,
        "instant"@ != "response_header"@,
        "instant"@ != "listing_rule"@,
        "instant"@ != "point_in_time_cache"@,
{
    reveal_strlit("as_of");
    assert("as_of"@[0] == 'a');
    assert("as_of"@.len() == 5);
    reveal_strlit("query");
    assert("query"@[0] == 'q');
    reveal_strlit("count");
    assert("count"@[0] == 'c');
    reveal_strlit("snapshots");
    assert("snapshots"@.len() == 9);
    reveal_strlit("auth");
    assert("auth"@.len() == 4);
    reveal_strlit("instant");
    assert("instant"@.len() == 7);
    reveal_strlit("query_parameter");
    assert("query_parameter"@.len() == 15);
    reveal_strlit("response_header");
    assert("response_header"@.len() == 15);
    reveal_strlit("listing_rule");
    assert("listing_rule"@.len() == 12);
    reveal_strlit("point_in_time_cache");
    assert("point_in_time_cache"@.len() == 19);
}

/// No key of a record, its document or its journal line is the mark of
/// `serde_json`.
pub proof fn lemma_keys_are_plain()
    ensures
        "status"@ != json::RAW_KEY@,
        "reason"@ != json::RAW_KEY@,
        "log_id"@ != json::RAW_KEY@,
        "receipt_id"@ != json::RAW_KEY@,
        "tree_size"@ != json::RAW_KEY@,
        "root"@ != json::RAW_KEY@,
        "logged_at"@ != json::RAW_KEY@,
        "commitment"@ != json::RAW_KEY@,
        "receipt"@ != json::RAW_KEY@,
        "seq"@ != json::RAW_KEY@,
        "snapshot_id"@ != json::RAW_KEY@,
        "notarized_at"@ != json::RAW_KEY@,
        "passport_id"@ != json::RAW_KEY@,
        "state_hash"@ != json::RAW_KEY@,
        "log_head"@ != json::RAW_KEY@,
        "submitter"@ != json::RAW_KEY@,
        "state_size"@ != json::RAW_KEY@,
        "anchoring"@ != json::RAW_KEY@,
        "signature"@ != json::RAW_KEY@,
        "key_id"@ != json::RAW_KEY@,
        "body_digest"@ != json::RAW_KEY@,
        "schema"@ != json::RAW_KEY@,
        "service"@ != json::RAW_KEY@,
        "as_of"@ != json::RAW_KEY@,
        "oais"@ != json::RAW_KEY@,
        "profile"@ != json::RAW_KEY@,
        "submission"@ != json::RAW_KEY@,
        "information_package"@ != json::RAW_KEY@,
        "provenance"@ != json::RAW_KEY@,
        "submitted_at"@ != json::RAW_KEY@,
        "statement_digest"@ != json::RAW_KEY@,
        "signing"@ != json::RAW_KEY@,
        "verification"@ != json::RAW_KEY@,
        "suite"@ != json::RAW_KEY@,
        "domain"@ != json::RAW_KEY@,
        "adapter_note"@ != json::RAW_KEY@,
{
    reveal_strlit("$serde_json::private::RawValue");
    assert(json::RAW_KEY@.len() == 30);
    reveal_strlit("status");
    assert("status"@.len() == 6);
    reveal_strlit("reason");
    assert("reason"@.len() == 6);
    reveal_strlit("log_id");
    assert("log_id"@.len() == 6);
    reveal_strlit("receipt_id");
    assert("receipt_id"@.len() == 10);
    reveal_strlit("tree_size");
    assert("tree_size"@.len() == 9);
    reveal_strlit("root");
    assert("root"@.len() == 4);
    reveal_strlit("logged_at");
    assert("logged_at"@.len() == 9);
    reveal_strlit("commitment");
    assert("commitment"@.len() == 10);
    reveal_strlit("receipt");
    assert("receipt"@.len() == 7);
    reveal_strlit("seq");
    assert("seq"@.len() == 3);
    reveal_strlit("snapshot_id");
    assert("snapshot_id"@.len() == 11);
    reveal_strlit("notarized_at");
    assert("notarized_at"@.len() == 12);
    reveal_strlit("passport_id");
    assert("passport_id"@.len() == 11);
    reveal_strlit("state_hash");
    assert("state_hash"@.len() == 10);
    reveal_strlit("log_head");
    assert("log_head"@.len() == 8);
    reveal_strlit("submitter");
    assert("submitter"@.len() == 9);
    reveal_strlit("state_size");
    assert("state_size"@.len() == 10);
    reveal_strlit("anchoring");
    assert("anchoring"@.len() == 9);
    reveal_strlit("signature");
    assert("signature"@.len() == 9);
    reveal_strlit("key_id");
    assert("key_id"@.len() == 6);
    reveal_strlit("body_digest");
    assert("body_digest"@.len() == 11);
    reveal_strlit("schema");
    assert("schema"@.len() == 6);
    reveal_strlit("service");
    assert("service"@.len() == 7);
    reveal_strlit("as_of");
    assert("as_of"@.len() == 5);
    reveal_strlit("oais");
    assert("oais"@.len() == 4);
    reveal_strlit("profile");
    assert("profile"@.len() == 7);
    reveal_strlit("submission");
    assert("submission"@.len() == 10);
    reveal_strlit("information_package");
    assert("information_package"@.len() == 19);
    reveal_strlit("provenance");
    assert("provenance"@.len() == 10);
    reveal_strlit("submitted_at");
    assert("submitted_at"@.len() == 12);
    reveal_strlit("statement_digest");
    assert("statement_digest"@.len() == 16);
    reveal_strlit("signing");
    assert("signing"@.len() == 7);
    reveal_strlit("verification");
    assert("verification"@.len() == 12);
    reveal_strlit("suite");
    assert("suite"@.len() == 5);
    reveal_strlit("domain");
    assert("domain"@.len() == 6);
    reveal_strlit("adapter_note");
    assert("adapter_note"@.len() == 12);
}

} // verus!
