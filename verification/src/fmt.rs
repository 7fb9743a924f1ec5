//! The formatting path: choosing, once per request, between a file's
//! in-memory unsaved-edit overlay and its on-disk content as the input
//! handed to the formatting backend, and mapping the backend's result
//! into the caller-visible formatting outcome.

use vstd::prelude::*;

use rls_vfs::Vfs;

verus! {

/// The input handed to the formatting backend: the text of an unsaved
/// edit overlay, or the path of the on-disk file.
#[derive(Clone, Debug, PartialEq, Eq)]
pub enum FmtInput {
    Text(String),
    File(String),
}

/// The caller-visible outcome of a formatting request: the formatted
/// text, or a distinguishable failure with no partial output.
#[derive(Clone, Debug, PartialEq, Eq)]
pub enum FmtOutput {
    Changed(String),
    FormatError,
}

/// How the formatting backend writes its result.
#[derive(Clone, Copy, Debug, PartialEq, Eq, Structural)]
pub enum WriteMode {
    Plain,
    Overwrite,
    Diff,
}

/// The configuration handed to the formatting backend.
#[derive(Clone, Copy, Debug, PartialEq, Eq, Structural)]
pub struct FmtConfig {
    pub skip_children: bool,
    pub write_mode: WriteMode,
}

/// The configuration every formatting request uses: single-file,
/// single-pass formatting (no recursive traversal into child items)
/// with plain-text output.
pub fn single_pass_config() -> (c: FmtConfig)
    ensures
        c.skip_children == true,
        c.write_mode == WriteMode::Plain,
{
    FmtConfig { skip_children: true, write_mode: WriteMode::Plain }
}

/// What the overlay store holds for a path: the text of the first
/// entry whose path matches, or nothing when no entry matches.
pub open spec fn spec_overlay_for(changes: Seq<(String, String)>, path: Seq<char>) -> Option<
    Seq<char>,
>
    decreases changes.len(),
{
    if changes.len() == 0 {
        None
    } else if changes[0].0@ == path {
        Some(changes[0].1@)
    } else {
        spec_overlay_for(changes.drop_first(), path)
    }
}

/// Looks a file path up in the unsaved-edit overlay entries: the
/// overlay text recorded for that path, or nothing when the file has
/// no unsaved edits.
#[verifier::loop_isolation(false)]
pub fn overlay_for(mut changes: Vec<(String, String)>, path: &String) -> (r: Option<String>)
    ensures
        (match r {
            Some(text) => Some(text@),
            None => None,
        }) == spec_overlay_for(changes@, path@),
{
    let ghost orig = changes@;
    while changes.len() > 0
        invariant
            spec_overlay_for(orig, path@) == spec_overlay_for(changes@, path@),
        decreases changes@.len(),
    {
        let ghost before = changes@;
        let (entry_path, text) = changes.remove(0);
        if entry_path == *path {
            return Some(text);
        }
        proof {
            assert(changes@ =~= before.drop_first());
        }
    }
    None
}

/// Chooses the formatting backend's input for one request: the content
/// of the file's unsaved-edit overlay when one is present, otherwise a
/// reference to the on-disk file by path. The choice is made once, and
/// the overlay always wins over the disk content.
pub fn fmt_input(file_name: String, overlay: Option<String>) -> (r: FmtInput)
    ensures
        overlay matches Some(text) ==> r == FmtInput::Text(text),
        overlay is None ==> r == FmtInput::File(file_name),
{
    match overlay {
        Some(text) => FmtInput::Text(text),
        None => FmtInput::File(file_name),
    }
}

/// Maps the formatting backend's result into the caller-visible
/// outcome: produced text becomes `Changed` with exactly that text, and
/// a backend failure of any kind becomes `FormatError` — no partial
/// output is ever surfaced.
pub fn fmt_output(result: Result<String, String>) -> (r: FmtOutput)
    ensures
        result matches Ok(text) ==> r == FmtOutput::Changed(text),
        result is Err ==> r == FmtOutput::FormatError,
{
    match result {
        Ok(text) => FmtOutput::Changed(text),
        Err(_) => FmtOutput::FormatError,
    }
}

/// The unsaved-edit overlay store of the virtual file system, declared
/// so its handle can cross this library's signatures.
#[verifier::external_type_specification]
#[verifier::external_body]
#[verifier::reject_recursive_types(U)]
pub struct ExVfs<U>(Vfs<U>);

/// Relies on rls_vfs::Vfs::get_changes: the store's in-memory
/// unsaved-edit overlay contents, one entry per changed file, keyed by
/// file path. The entries depend on what edits the store currently
/// holds, so nothing is promised of them.
#[verifier::external_body]
fn changed_files(vfs: &Vfs<()>) -> Vec<(String, String)> {
    vfs.get_changes().into_iter().map(
        |entry: (std::path::PathBuf, String)| (entry.0.to_string_lossy().into_owned(), entry.1),
    ).collect()
}

/// Resolves the formatting input for one request straight from the
/// virtual file store: the file's unsaved-edit overlay content when
/// the store holds one, otherwise the on-disk file by path. Whatever
/// the store holds, a disk-input answer names exactly the requested
/// file.
pub fn fmt_input_for(vfs: &Vfs<()>, file_name: String) -> (r: FmtInput)
    ensures
        r matches FmtInput::File(name) ==> name == file_name,
{
    let changes = changed_files(vfs);
    let overlay = overlay_for(changes, &file_name);
    fmt_input(file_name, overlay)
}

} // verus!
