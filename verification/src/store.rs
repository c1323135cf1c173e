//! Decision logic of the workspace store.
//!
//! The store keeps the serialized workspace list in one well-known file,
//! `workspaces.json`, inside a `workspaces` subdirectory of an
//! application-local data directory that the host resolves. It is
//! byte-transparent: `save` writes the given string verbatim, overwriting
//! any prior content, and `load` hands back exactly what the file holds.
//! A missing file is not an error: it reads as the empty workspace list,
//! `"[]"`. The host performs the directory creation, the write and the
//! read; this module fixes what those operations must mean.

use vstd::prelude::*;

verus! {

/// The abstract state of the store's backing file: its contents, or `None`
/// while no file exists.
pub open spec fn store_after_save(data: Seq<char>) -> Option<Seq<char>> {
    Some(data)
}

/// What `load` returns for a given file state: the file's contents
/// verbatim, or the empty workspace list when there is no file.
pub open spec fn loaded_value(file: Option<Seq<char>>) -> Seq<char> {
    match file {
        Some(d) => d,
        None => "[]"@,
    }
}

/// The file state a read observed: the contents when the file existed.
pub open spec fn file_view(file: Option<String>) -> Option<Seq<char>> {
    match file {
        Some(s) => Some(s@),
        None => None,
    }
}

/// The string a store with no file reads as: the empty workspace list.
pub fn empty_store_value() -> (r: String)
    ensures
        r@ == loaded_value(None),
{
    String::from_str("[]")
}

/// Turns what a read observed into the loaded value: the contents when the
/// file existed, the empty workspace list otherwise.
pub fn load_value(file: Option<String>) -> (r: String)
    ensures
        r@ == loaded_value(file_view(file)),
{
    match file {
        Some(s) => s,
        None => empty_store_value(),
    }
}

/// Saving `data` and then loading reads back exactly `data` — the store is
/// byte-transparent, whatever the string holds, the empty string included.
pub proof fn lemma_save_then_load(data: Seq<char>)
    ensures
        loaded_value(store_after_save(data)) == data,
{
}

/// Loading from a store that nothing was ever saved to yields the empty
/// workspace list.
pub proof fn lemma_load_before_any_save()
    ensures
        loaded_value(None) == "[]"@,
{
}

/// The subdirectory the store keeps its file in, under the application's
/// local data directory.
pub fn workspaces_dir_path(app_data_dir: &str) -> (r: String)
    ensures
        r@ == app_data_dir@ + "/workspaces"@,
{
    String::from_str(app_data_dir).concat("/workspaces")
}

/// The store's single backing file, under the application's local data
/// directory.
pub fn workspaces_file_path(app_data_dir: &str) -> (r: String)
    ensures
        r@ == app_data_dir@ + "/workspaces"@ + "/workspaces.json"@,
{
    workspaces_dir_path(app_data_dir).concat("/workspaces.json")
}

} // verus!
