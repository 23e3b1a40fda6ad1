//! A local, single-file document store backing a desktop application's
//! persisted state: a JSON document holding the user's dictations and base
//! words.
//!
//! The store itself never interprets the document beyond its top-level
//! shape: it guarantees durability (the file always holds syntactically
//! valid JSON after a successful write), linear forward migration from the
//! legacy document shape to the current one, and byte-for-byte preservation
//! of content it does not understand.
//!
//! All file and directory access lives with the caller; the functions here
//! take the raw file content (or its absence) and say exactly what must be
//! returned and what must be written back.

pub mod json;
pub mod migrate;
pub mod store;
pub mod facade;
