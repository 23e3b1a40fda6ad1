//! The boundary operations the host UI invokes.
//!
//! The document operations delegate to the store and flatten its error
//! taxonomy into the single reportable description the host displays; the
//! boundary stays textual in both directions. The linguistic analysis
//! operations are call-through collaborators with no state of their own:
//! they acknowledge the request with a fixed success value and leave the
//! analysis itself to the host's collaborators.

use vstd::prelude::*;
use crate::store::{LoadResult, load_step, save_step, load_ok_spec, load_doc_spec,
    load_persist_spec, content_view};
use crate::json::json_valid;

verus! {

/// The fixed acknowledgement the call-through operations answer with.
pub struct OkResponse {
    pub status: u16,
    pub message: String,
}

/// One read operation, from raw file content to the document text the
/// host receives. The caller performs the surrounding file access as
/// `load_step` prescribes; a failure comes back as the store's
/// description of the corrupt document.
pub fn read_user_db_step(content: Option<String>) -> (r: Result<LoadResult, String>)
    ensures
        (r is Ok) == load_ok_spec(content_view(content)),
        r matches Ok(l) ==> l.doc@ == load_doc_spec(content_view(content)) && l.persist
            == load_persist_spec(content_view(content)),
{
    match load_step(content) {
        Result::Ok(l) => Ok(l),
        Result::Err(e) => Err(e.detail()),
    }
}

/// One write operation: accepts the host's payload exactly when it is
/// valid JSON text, to be written verbatim in the file's place. A failure
/// comes back as the parser's description of the invalid payload.
pub fn write_user_db_step(payload: &str) -> (r: Result<(), String>)
    ensures
        (r is Ok) == json_valid(payload@),
{
    match save_step(payload) {
        Result::Ok(u) => Ok(u),
        Result::Err(e) => Err(e.detail()),
    }
}

/// Acknowledges a word-analysis request; the analysis is a collaborator's.
pub fn words_analyses(_surface: &str, _verbose: Option<bool>) -> (r: OkResponse)
    ensures
        r.status == 200,
        r.message@ == "OK"@,
{
    OkResponse { status: 200, message: "OK".to_owned() }
}

/// Acknowledges a word-forms request; the lookup is a collaborator's.
pub fn words_forms(_lemma: &str) -> (r: OkResponse)
    ensures
        r.status == 200,
        r.message@ == "OK"@,
{
    OkResponse { status: 200, message: "OK".to_owned() }
}

/// Acknowledges a dictation-analysis request; the analysis is a
/// collaborator's.
pub fn dictations_analyze(_text: &str, _verbose: Option<bool>) -> (r: OkResponse)
    ensures
        r.status == 200,
        r.message@ == "OK"@,
{
    OkResponse { status: 200, message: "OK".to_owned() }
}

} // verus!
