# unidpp-archive

A notarized archive of digital product passport snapshots: as-of snapshot packs
with ISO 14721 (OAIS) style metadata, a notary signature over canonical
statement bytes, optional transparency-log anchoring, and byte-identical
re-serving. The archive's logic is a Verus library; its contracts say what each
function returns, and its laws say what holds of the archive as a whole.

## Layout

- `src/model/`: the snapshot record, the anchoring outcome, the canonical
  statement, the served document and the journal line, and the rebuilding of the
  statement from a document.
- `src/store.rs`: sequencing, journal replay, appends, snapshot-file checks, the
  as-of listing and the audit view.
- `src/journal.rs`: the lines of a journal, and which part of one is to be kept.
- `src/log_anchor.rs`: what is sent to a transparency log, and what its reply
  means.
- `src/api/`: what each request is answered.
- `src/laws/`: proofs about records, about the store and about the answers.
- `src/json.rs`, `src/hash.rs`: the calls into `serde_json` and `sha2`, and what
  is believed of them.
- `src/canonical.rs`: statement fields, and the writer that the caller passes in.
- `src/text.rs`, `src/hex.rs`, `src/time.rs`, `src/params.rs`, `src/fields.rs`,
  `src/keys.rs`: text, hexadecimal, instants, named values and readers of JSON
  fields.
- `app/`: the service around the library: HTTP, files, clock, environment, the
  notary key and the canonical writer.
- `tests/`: the library on concrete values.

## What is proved

- A verifier that has the served document alone rebuilds the bytes that the
  notary signed.
- A journal line reads back as its record, and a journal replays to the records
  it holds, so that a restart serves byte-identical bodies.
- Sequence numbers are 0, 1, 2 and so on; a stale append is a conflict; gaps,
  tampered records and corruption before the last line are refused; a torn last
  line costs no snapshot, and what is appended after it survives a restart.
- Whatever appends are made, and whichever of their writes fail, the journal
  holds exactly the records of the index.
- What an ingest answered 201 is served byte-identically from then on, whatever
  receipt the log gave and also after a restart, as long as the clock shows one of
  the years 0000 to 9999.
- Verifying the snapshot files of a store succeeds exactly if every file that is
  there matches its record; then every record's file holds its body.
- With a canonical writer whose fields say where they end, two records have the
  same signed bytes only if they agree in all that is signed.
- The answer to a point-in-time query for an instant stays the same as long as
  the snapshots that are added are notarized after that instant.
- An anchoring attempt that fails is recorded with its reason; an anchored outcome
  has every field that the statement commits to, and a receipt that names the
  commitment of the snapshot.

What is proved of restarts supposes that the service mends the journal as it is
told when it opens it, and that a line that could not be written leaves no trace.
`app/` does so: it cuts off a torn tail, and what a failed write left behind.
