//! Persistence steps for the board document, its automation sidecar and
//! archive snapshots.
//!
//! The engine never touches the disk itself. Each operation is a step
//! function over plain values: the caller hands in what it read from the
//! folder, and the step hands back the text to return together with the
//! write, if any, that the caller must perform. A folder's persistent
//! state is modeled as a map from relative file paths to file contents,
//! and each operation has a spec-level transition on that map.

use vstd::prelude::*;
use vstd::string::StringExecFns;

verus! {

/// A write the caller must perform: store `content` verbatim in the file
/// at the relative path `name`, creating or overwriting it.
pub struct FileWrite {
    pub name: String,
    pub content: String,
}

/// The relative path of the board document.
pub open spec fn board_file() -> Seq<char> {
    "todo.md"@
}

/// The relative path of the automation sidecar document.
pub open spec fn automation_file() -> Seq<char> {
    "automation.md"@
}

/// The default board skeleton: the seven lanes in canonical order, each a
/// heading line, separated by blank lines, with a trailing newline.
pub open spec fn board_skeleton_text() -> Seq<char> {
    "## IceBox\n\n## Todo\n\n## Doing\n\n## Pending\n\n## Done\n\n## Reject\n\n## Archive\n"@
}

/// Applying an optional prescribed write to a folder's file map.
pub open spec fn apply_write(
    fs: Map<Seq<char>, Seq<char>>,
    w: Option<FileWrite>,
) -> Map<Seq<char>, Seq<char>> {
    match w {
        Option::None => fs,
        Option::Some(fw) => fs.insert(fw.name@, fw.content@),
    }
}

/// The folder's file map after a board read: unchanged when the board
/// document exists, otherwise extended with the skeleton.
pub open spec fn board_read_files(fs: Map<Seq<char>, Seq<char>>) -> Map<Seq<char>, Seq<char>> {
    if fs.contains_key(board_file()) {
        fs
    } else {
        fs.insert(board_file(), board_skeleton_text())
    }
}

/// The text a board read returns: the stored board document, or the
/// skeleton it has just created.
pub open spec fn board_read_text(fs: Map<Seq<char>, Seq<char>>) -> Seq<char> {
    if fs.contains_key(board_file()) {
        fs[board_file()]
    } else {
        board_skeleton_text()
    }
}

/// The folder's file map after a board write: the board document holds
/// exactly the given text, nothing else changes.
pub open spec fn board_write_files(
    fs: Map<Seq<char>, Seq<char>>,
    text: Seq<char>,
) -> Map<Seq<char>, Seq<char>> {
    fs.insert(board_file(), text)
}

/// The text an automation read returns: the sidecar's content, or empty
/// text when the file is absent. The read never changes the folder.
pub open spec fn automation_read_text(fs: Map<Seq<char>, Seq<char>>) -> Seq<char> {
    if fs.contains_key(automation_file()) {
        fs[automation_file()]
    } else {
        Seq::empty()
    }
}

/// The folder's file map after an archive write: the named file holds
/// exactly the given content, created or overwritten unconditionally.
pub open spec fn archive_write_files(
    fs: Map<Seq<char>, Seq<char>>,
    name: Seq<char>,
    content: Seq<char>,
) -> Map<Seq<char>, Seq<char>> {
    fs.insert(name, content)
}

/// What a board read step prescribes, given the board document's current
/// content (`None` when the file is absent).
pub open spec fn read_board_post(
    existing: Option<Seq<char>>,
    w: Option<FileWrite>,
    text: Seq<char>,
) -> bool {
    match existing {
        Option::Some(t) => w is None && text == t,
        Option::None => {
            &&& w matches Option::Some(fw)
            &&& fw.name@ == board_file()
            &&& fw.content@ == board_skeleton_text()
            &&& text == board_skeleton_text()
        },
    }
}

/// Board read: when the board document is absent, prescribe creating it
/// with the canonical skeleton; in every case return the document's
/// (possibly just-initialized) content.
pub fn read_board_step(existing: Option<String>) -> (r: (Option<FileWrite>, String))
    ensures
        read_board_post(
            match existing {
                Option::Some(t) => Option::Some(t@),
                Option::None => Option::None,
            },
            r.0,
            r.1@,
        ),
{
    match existing {
        Option::Some(text) => (Option::None, text),
        Option::None => {
            let skeleton =
                "## IceBox\n\n## Todo\n\n## Doing\n\n## Pending\n\n## Done\n\n## Reject\n\n## Archive\n";
            let w = FileWrite {
                name: String::from_str("todo.md"),
                content: String::from_str(skeleton),
            };
            (Option::Some(w), String::from_str(skeleton))
        },
    }
}

/// Board write: prescribe overwriting the board document with exactly the
/// given text, no merge and no backup.
pub fn write_board_step(content: String) -> (w: FileWrite)
    ensures
        w.name@ == board_file(),
        w.content == content,
{
    FileWrite { name: String::from_str("todo.md"), content }
}

/// Automation read: return the sidecar's content verbatim, or empty text
/// when the file is absent. No write is ever prescribed: absence of the
/// sidecar is a valid state that the engine never repairs.
pub fn read_automation_step(existing: Option<String>) -> (r: String)
    ensures
        existing matches Option::Some(t) ==> r == t,
        existing is None ==> r@ == Seq::<char>::empty(),
{
    match existing {
        Option::Some(text) => text,
        Option::None => String::new(),
    }
}

/// Archive write: prescribe storing the caller-named file with exactly
/// the given content, creating or overwriting it unconditionally.
pub fn write_archive_step(file_name: String, content: String) -> (w: FileWrite)
    ensures
        w.name == file_name,
        w.content == content,
{
    FileWrite { name: file_name, content }
}

/// A board read step, applied to any folder consistent with what the
/// caller read, performs exactly the board-read transition and returns
/// exactly the board-read text.
pub proof fn lemma_read_board_step_models(
    fs: Map<Seq<char>, Seq<char>>,
    existing: Option<Seq<char>>,
    w: Option<FileWrite>,
    text: Seq<char>,
)
    requires
        existing is Some <==> fs.contains_key(board_file()),
        existing matches Option::Some(t) ==> t == fs[board_file()],
        read_board_post(existing, w, text),
    ensures
        apply_write(fs, w) == board_read_files(fs),
        text == board_read_text(fs),
{
}

} // verus!
