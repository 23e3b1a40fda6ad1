//! The document store: what a load returns and writes back, what a save
//! accepts, and what the startup seeding writes.
//!
//! The store never touches the file system itself. Each operation takes
//! the raw file content (or its absence) and returns both the result and
//! the write the caller must perform, so the whole of the store's
//! behaviour — including the file content after each operation — is pinned
//! down here, over a small model of the file as `Option<Seq<char>>`.

use vstd::prelude::*;
use crate::json::{json_valid, json_top_keys};
use crate::migrate::{
    MigrationFlag, default_doc, default_document, migrate, migrated_doc, migration_flag,
    classify_spec,
};

verus! {

/// Everything that can go wrong in a store operation. The variants that
/// touch directories and raw I/O are raised by the caller that performs
/// the file access; the store itself raises only `CorruptDocument` and
/// `InvalidJson`. Each carries a description of the underlying cause.
#[derive(Debug)]
pub enum StoreError {
    /// The application data directory could not be determined.
    DirectoryUnavailable(String),
    /// The application data directory could not be created.
    DirectoryCreateFailed(String),
    /// A read, write or create on the document file failed.
    IoError(String),
    /// The existing file does not parse as JSON on load.
    CorruptDocument(String),
    /// The payload handed to a save does not parse as JSON.
    InvalidJson(String),
}

impl StoreError {
    /// Hands out the description of the underlying cause.
    pub fn detail(self) -> (d: String)
        ensures
            self matches StoreError::DirectoryUnavailable(x) ==> d == x,
            self matches StoreError::DirectoryCreateFailed(x) ==> d == x,
            self matches StoreError::IoError(x) ==> d == x,
            self matches StoreError::CorruptDocument(x) ==> d == x,
            self matches StoreError::InvalidJson(x) ==> d == x,
    {
        match self {
            StoreError::DirectoryUnavailable(d) => d,
            StoreError::DirectoryCreateFailed(d) => d,
            StoreError::IoError(d) => d,
            StoreError::CorruptDocument(d) => d,
            StoreError::InvalidJson(d) => d,
        }
    }
}

/// What a successful load hands back: the current-generation document, and
/// whether the caller must write it back to the file (true exactly when
/// the document was seeded or migrated, so that repeated loads converge to
/// a stable file).
pub struct LoadResult {
    pub doc: String,
    pub persist: bool,
}

/// The file content, as the store models it: `None` while no file exists.
/// A load succeeds exactly on this condition.
pub open spec fn load_ok_spec(content: Option<Seq<char>>) -> bool {
    match content {
        Option::None => true,
        Option::Some(s) => json_valid(s),
    }
}

/// The document a successful load returns.
pub open spec fn load_doc_spec(content: Option<Seq<char>>) -> Seq<char> {
    match content {
        Option::None => default_doc(),
        Option::Some(s) => migrated_doc(s),
    }
}

/// Whether a successful load instructs the caller to persist its document.
pub open spec fn load_persist_spec(content: Option<Seq<char>>) -> bool {
    match content {
        Option::None => true,
        Option::Some(s) => migration_flag(s) is Migrated,
    }
}

/// The file content after a load, given the content before it: a load
/// writes exactly when it seeded or migrated, and a failed load leaves
/// the file alone.
pub open spec fn file_after_load(content: Option<Seq<char>>) -> Option<Seq<char>> {
    if load_ok_spec(content) && load_persist_spec(content) {
        Option::Some(load_doc_spec(content))
    } else {
        content
    }
}

/// The file content after a save of `payload` over `prior`: a save
/// replaces the whole content on a valid payload and touches nothing on an
/// invalid one.
pub open spec fn file_after_save(prior: Option<Seq<char>>, payload: Seq<char>) -> Option<
    Seq<char>,
> {
    if json_valid(payload) {
        Option::Some(payload)
    } else {
        prior
    }
}

/// The file content after the startup seeding, given the content before
/// it: an absent file is seeded with the empty current-generation
/// document, an existing one is left alone whatever it holds.
pub open spec fn file_after_ensure(prior: Option<Seq<char>>) -> Option<Seq<char>> {
    match prior {
        Option::None => Option::Some(default_doc()),
        Option::Some(c) => Option::Some(c),
    }
}

/// The view of raw file content as the store models it.
pub open spec fn content_view(content: Option<String>) -> Option<Seq<char>> {
    match content {
        Option::None => Option::None,
        Option::Some(s) => Option::Some(s@),
    }
}

/// One load, from raw file content to the document the host receives.
/// The caller reads the file (handing `None` when it does not exist),
/// and on success writes `doc` back whenever `persist` says so; on
/// failure it writes nothing, so a corrupt file keeps its bytes.
pub fn load_step(content: Option<String>) -> (r: Result<LoadResult, StoreError>)
    ensures
        (r is Ok) == load_ok_spec(content_view(content)),
        r matches Ok(l) ==> l.doc@ == load_doc_spec(content_view(content)) && l.persist
            == load_persist_spec(content_view(content)),
        r matches Err(e) ==> e is CorruptDocument,
{
    match migrate(content) {
        Result::Ok((doc, flag)) => {
            let persist = match flag {
                MigrationFlag::Seeded => true,
                MigrationFlag::Migrated => true,
                MigrationFlag::Unchanged => false,
            };
            Ok(LoadResult { doc, persist })
        },
        Result::Err(detail) => Err(StoreError::CorruptDocument(detail)),
    }
}

/// One save: syntax-only validation of the payload. No schema-shape check
/// is made — the host owns the document's semantics and may write evolving
/// shapes; the store's job is durability. The caller writes the payload to
/// the file exactly when this returns `Ok`, replacing the prior content
/// whole; on `Err` it writes nothing.
pub fn save_step(payload: &str) -> (r: Result<(), StoreError>)
    ensures
        (r is Ok) == json_valid(payload@),
        r matches Err(e) ==> e is InvalidJson,
{
    match crate::json::parse_document(payload) {
        Result::Ok(_) => Ok(()),
        Result::Err(detail) => Err(StoreError::InvalidJson(detail)),
    }
}

/// The startup seeding decision: what to write when the file does not
/// exist yet. The caller tests for the file and writes the returned text
/// when one is handed back; calling it again once the file exists writes
/// nothing, so the step is idempotent.
pub fn ensure_step(file_exists: bool) -> (r: Option<String>)
    ensures
        file_exists ==> r is None,
        !file_exists ==> (r matches Some(d) && d@ == default_doc()),
{
    if file_exists {
        Option::None
    } else {
        Option::Some(default_document())
    }
}

/// The document file's fixed name. The file always lives under this name
/// in the application's per-user data directory, so the resolved location
/// is deterministic for a given installation.
pub fn db_file_name() -> (n: String)
    ensures
        n@ == "dictees.json"@,
{
    "dictees.json".to_owned()
}

/// A load of an absent store always yields the empty current-generation
/// document, and persists exactly that text, so the file is present with
/// that content afterward.
pub proof fn lemma_fresh_load_seeds()
    ensures
        load_ok_spec(Option::None),
        load_doc_spec(Option::None) == default_doc(),
        load_persist_spec(Option::None),
        file_after_load(Option::None) == Option::Some(default_doc()),
{
}

/// Round trip: a valid payload that a save accepted comes back from the
/// next load byte for byte, and the load rewrites nothing — except for a
/// payload of the legacy shape, which the load upgrades instead of
/// returning.
pub proof fn lemma_save_load_round_trip(prior: Option<Seq<char>>, payload: Seq<char>)
    ensures
        json_valid(payload) && !(classify_spec(json_top_keys(payload)) is Generation0) ==> {
            &&& file_after_save(prior, payload) == Option::Some(payload)
            &&& load_ok_spec(Option::Some(payload))
            &&& load_doc_spec(Option::Some(payload)) == payload
            &&& !load_persist_spec(Option::Some(payload))
            &&& file_after_load(Option::Some(payload)) == Option::Some(payload)
        },
{
}

/// Migration: a load of a valid file that carries only the legacy shape
/// returns the empty current-generation document, and persists it in the
/// file's place.
pub proof fn lemma_load_migrates_legacy(s: Seq<char>)
    ensures
        json_valid(s) && classify_spec(json_top_keys(s)) is Generation0 ==> {
            &&& load_ok_spec(Option::Some(s))
            &&& load_doc_spec(Option::Some(s)) == default_doc()
            &&& load_persist_spec(Option::Some(s))
            &&& file_after_load(Option::Some(s)) == Option::Some(default_doc())
        },
{
}

/// A rejected save never touches the file: after a save of an invalid
/// payload the prior content stands, whatever it was.
pub proof fn lemma_save_rejects_without_clobber(prior: Option<Seq<char>>, payload: Seq<char>)
    ensures
        !json_valid(payload) ==> file_after_save(prior, payload) == prior,
{
}

/// A failed load never touches the file: a file that does not parse keeps
/// its bytes exactly, preserving the evidence for recovery.
pub proof fn lemma_corrupt_load_without_clobber(s: Seq<char>)
    ensures
        !json_valid(s) ==> !load_ok_spec(Option::Some(s)) && file_after_load(Option::Some(s))
            == Option::Some(s),
{
}

/// The startup seeding is idempotent: running it twice leaves the same
/// file content as running it once.
pub proof fn lemma_ensure_idempotent(prior: Option<Seq<char>>)
    ensures
        file_after_ensure(file_after_ensure(prior)) == file_after_ensure(prior),
{
}

/// A save replaces the content whole: after a successful save the file
/// holds exactly the saved payload, independent of what stood there
/// before. Together with the caller's duty to hold the store's lock for
/// the whole of each file access, this is why concurrent saves leave one
/// payload intact rather than interleaved fragments.
pub proof fn lemma_save_writes_whole_payload(prior: Option<Seq<char>>, payload: Seq<char>)
    ensures
        json_valid(payload) ==> file_after_save(prior, payload) == Option::Some(payload),
{
}

} // verus!
