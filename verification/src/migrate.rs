//! Schema migration: detecting which generation of the document shape a
//! raw text carries, and upgrading it to the current generation.
//!
//! The document's schema generation is implied by which keys its top-level
//! object carries. Generation 0, the legacy shape, holds a `feed` key;
//! generation 1, the current shape, holds `dictations` and `baseWords`.
//! Only generation 1 is ever written; generation 0 is accepted on load and
//! upgraded. The upgrade discards the legacy `feed` content and installs
//! the empty generation-1 document — deliberately so: the store carries
//! that behaviour forward as given, though whether the discard is intended
//! data loss is an open product question.

use vstd::prelude::*;
use crate::json::{json_valid, json_top_keys, top_keys_of, parse_document, value_has_key};

verus! {

/// The document shape generations a raw text can present.
#[derive(Clone, Copy, Debug, PartialEq, Eq, Structural)]
pub enum ShapeClass {
    /// Legacy shape: a top-level `feed` key and neither current key.
    Generation0,
    /// Current shape: both `dictations` and `baseWords` at top level.
    Generation1,
    /// Valid JSON of neither known shape; passed through untouched.
    Unrecognized,
}

/// What the migrator had to do to hand back a current-generation document.
#[derive(Clone, Copy, Debug, PartialEq, Eq, Structural)]
pub enum MigrationFlag {
    /// No input existed; the empty current-generation document was made up.
    Seeded,
    /// The input carried the legacy shape and was upgraded.
    Migrated,
    /// The input already satisfied the current generation, or is not the
    /// store's to reshape; it passes through byte for byte.
    Unchanged,
}

/// The text of the empty current-generation document.
pub open spec fn default_doc() -> Seq<char> {
    "{\"dictations\":[],\"baseWords\":[]}"@
}

/// Whether a top-level key set satisfies the current generation's shape.
pub open spec fn is_gen1(keys: Set<Seq<char>>) -> bool {
    keys.contains("dictations"@) && keys.contains("baseWords"@)
}

/// Whether a top-level key set carries only the legacy shape.
pub open spec fn is_gen0(keys: Set<Seq<char>>) -> bool {
    keys.contains("feed"@) && !keys.contains("dictations"@) && !keys.contains("baseWords"@)
}

/// The shape class implied by a top-level key set.
pub open spec fn classify_spec(keys: Set<Seq<char>>) -> ShapeClass {
    if is_gen1(keys) {
        ShapeClass::Generation1
    } else if is_gen0(keys) {
        ShapeClass::Generation0
    } else {
        ShapeClass::Unrecognized
    }
}

/// What the migrator hands back for a valid JSON text: the text itself,
/// unless it carries only the legacy shape, which is upgraded to the empty
/// current-generation document.
pub open spec fn migrated_doc(s: Seq<char>) -> Seq<char> {
    if classify_spec(json_top_keys(s)) is Generation0 {
        default_doc()
    } else {
        s
    }
}

/// The migrator's flag for a valid JSON text.
pub open spec fn migration_flag(s: Seq<char>) -> MigrationFlag {
    if classify_spec(json_top_keys(s)) is Generation0 {
        MigrationFlag::Migrated
    } else {
        MigrationFlag::Unchanged
    }
}

/// The empty current-generation document, as text.
pub fn default_document() -> (d: String)
    ensures
        d@ == default_doc(),
{
    "{\"dictations\":[],\"baseWords\":[]}".to_owned()
}

/// Reads the shape class off an already-parsed document value.
pub fn classify(v: &serde_json::Value) -> (c: ShapeClass)
    ensures
        c == classify_spec(top_keys_of(*v)),
{
    let has_dictations = value_has_key(v, "dictations");
    let has_base_words = value_has_key(v, "baseWords");
    let has_feed = value_has_key(v, "feed");
    if has_dictations && has_base_words {
        ShapeClass::Generation1
    } else if has_feed && !has_dictations && !has_base_words {
        ShapeClass::Generation0
    } else {
        ShapeClass::Unrecognized
    }
}

/// Turns raw file content (or its absence) into a current-generation
/// document and a flag saying whether the input required transformation.
/// Fails exactly on text that is not valid JSON, carrying the parse
/// error's description; nothing is written here, so a corrupt input is
/// left for its owner to inspect.
pub fn migrate(content: Option<String>) -> (r: Result<(String, MigrationFlag), String>)
    ensures
        content is None ==> (r matches Ok(p) && p.0@ == default_doc() && p.1 == MigrationFlag::Seeded),
        content matches Some(s) ==> ((r is Ok) <==> json_valid(s@)),
        content matches Some(s) ==> (json_valid(s@) ==> (r matches Ok(p) && p.0@ == migrated_doc(s@)
            && p.1 == migration_flag(s@))),
{
    match content {
        Option::None => Ok((default_document(), MigrationFlag::Seeded)),
        Option::Some(s) => {
            let parsed = parse_document(s.as_str());
            match parsed {
                Result::Err(detail) => Err(detail),
                Result::Ok(v) => {
                    match classify(&v) {
                        ShapeClass::Generation0 => Ok((default_document(), MigrationFlag::Migrated)),
                        _ => Ok((s, MigrationFlag::Unchanged)),
                    }
                },
            }
        },
    }
}

} // verus!
