//! Note-file lifecycle: deterministic naming derived from a task's display
//! text, and idempotent creation — an existing note is never overwritten,
//! only re-reported.

use vstd::prelude::*;
use vstd::string::StringExecFns;
use crate::sanitize::sanitize_task_text;
use crate::sanitize::sanitized;
use crate::store::FileWrite;

verus! {

/// The relative path of the note file for a task: `notes/<stem>.md`,
/// where the stem is the sanitized task text.
pub open spec fn note_rel_path(task: Seq<char>) -> Seq<char> {
    "notes/"@ + sanitized(task) + ".md"@
}

/// The initial content of a fresh note file: the original task text as a
/// title, a creation timestamp, and an empty body section.
pub open spec fn note_content(task: Seq<char>, timestamp: Seq<char>) -> Seq<char> {
    "# "@ + task + "\n\nCreated: "@ + timestamp + "\n\n## Notes\n\n"@
}

/// The folder's file map after a note request: unchanged when the note
/// already exists, otherwise extended with a fresh note document.
pub open spec fn note_create_files(
    fs: Map<Seq<char>, Seq<char>>,
    task: Seq<char>,
    timestamp: Seq<char>,
) -> Map<Seq<char>, Seq<char>> {
    if fs.contains_key(note_rel_path(task)) {
        fs
    } else {
        fs.insert(note_rel_path(task), note_content(task, timestamp))
    }
}

/// Relies on chrono::Local::now and chrono's strftime-style formatting,
/// for the local creation time as `YYYY-MM-DD HH:MM:SS`. The result
/// depends on the clock, so nothing is promised of it.
#[verifier::external_body]
fn local_timestamp() -> String {
    chrono::Local::now().format("%Y-%m-%d %H:%M:%S").to_string()
}

/// Computes the relative path of the note file for a task.
pub fn note_relative_path(task: &str) -> (p: String)
    ensures
        p@ == note_rel_path(task@),
{
    let mut p = String::from_str("notes/");
    let stem = sanitize_task_text(task);
    p.append(stem.as_str());
    p.append(".md");
    proof {
        assert(p@ =~= note_rel_path(task@));
    }
    p
}

/// Builds the initial content of a fresh note file from the task's
/// original text and a creation timestamp.
pub fn note_initial_content(task: &str, timestamp: &str) -> (c: String)
    ensures
        c@ == note_content(task@, timestamp@),
{
    let mut c = String::from_str("# ");
    c.append(task);
    c.append("\n\nCreated: ");
    c.append(timestamp);
    c.append("\n\n## Notes\n\n");
    proof {
        assert(c@ =~= note_content(task@, timestamp@));
    }
    c
}

/// Note request with an explicit timestamp: when the note file does not
/// exist yet, prescribe creating it with the initial document; in every
/// case report the note's relative path.
pub fn plan_note(task: &str, note_exists: bool, timestamp: &str) -> (r: (
    Option<FileWrite>,
    String,
))
    ensures
        r.1@ == note_rel_path(task@),
        note_exists ==> r.0 is None,
        !note_exists ==> r.0 is Some && r.0->0.name@ == note_rel_path(task@)
            && r.0->0.content@ == note_content(task@, timestamp@),
{
    let path = note_relative_path(task);
    if note_exists {
        (Option::None, path)
    } else {
        let content = note_initial_content(task, timestamp);
        let w = FileWrite { name: note_relative_path(task), content };
        (Option::Some(w), path)
    }
}

/// Note request stamped with the current local time. Whatever the clock
/// returned, a fresh note holds the initial document for some timestamp,
/// and the reported path does not depend on the clock at all.
pub fn plan_note_now(task: &str, note_exists: bool) -> (r: (Option<FileWrite>, String))
    ensures
        r.1@ == note_rel_path(task@),
        note_exists ==> r.0 is None,
        !note_exists ==> r.0 is Some && r.0->0.name@ == note_rel_path(task@) && (exists|
            ts: Seq<char>,
        | r.0->0.content@ == note_content(task@, ts)),
{
    let ts = local_timestamp();
    let r = plan_note(task, note_exists, ts.as_str());
    proof {
        if !note_exists {
            assert(r.0->0.content@ == note_content(task@, ts@));
        }
    }
    r
}

/// A note request, applied to any folder consistent with the existence
/// check the caller made, performs exactly the note-creation transition.
pub proof fn lemma_plan_note_models(
    fs: Map<Seq<char>, Seq<char>>,
    task: Seq<char>,
    timestamp: Seq<char>,
    note_exists: bool,
    w: Option<FileWrite>,
)
    requires
        note_exists == fs.contains_key(note_rel_path(task)),
        note_exists ==> w is None,
        !note_exists ==> w is Some && w->0.name@ == note_rel_path(task) && w->0.content@
            == note_content(task, timestamp),
    ensures
        crate::store::apply_write(fs, w) == note_create_files(fs, task, timestamp),
{
}

} // verus!
