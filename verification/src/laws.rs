//! The engine's guarantees across operations, proved over the spec-level
//! transitions: lazy board initialization is idempotent, the automation
//! read never initializes, note creation is idempotent, board writes
//! round-trip, archive writes overwrite, and replacing a watch session
//! leaves at most one session able to signal.

use vstd::prelude::*;
use crate::notes::note_create_files;
use crate::notes::note_rel_path;
use crate::store::archive_write_files;
use crate::store::automation_file;
use crate::store::board_file;
use crate::store::board_read_files;
use crate::store::board_read_text;
use crate::store::board_skeleton_text;
use crate::store::board_write_files;
use crate::store::automation_read_text;
use crate::watch::WatchEventKind;
use crate::watch::WatchSlot;

verus! {

/// Reading the board twice in a row yields the same text both times and
/// changes the folder only the first time; on a folder with no board
/// document, both reads yield the skeleton.
pub proof fn lemma_board_read_idempotent(fs: Map<Seq<char>, Seq<char>>)
    ensures
        board_read_files(board_read_files(fs)) == board_read_files(fs),
        board_read_text(board_read_files(fs)) == board_read_text(fs),
        board_read_files(fs).contains_key(board_file()),
        !fs.contains_key(board_file()) ==> board_read_text(fs) == board_skeleton_text(),
{
}

/// Reading the automation sidecar never changes the folder — the read is
/// a pure function of the folder's files (`read_automation_step`
/// prescribes no write at all) — and returns empty text exactly when the
/// sidecar is absent.
pub proof fn lemma_automation_read_no_init(fs: Map<Seq<char>, Seq<char>>)
    ensures
        !fs.contains_key(automation_file()) ==> automation_read_text(fs) == Seq::<char>::empty(),
        fs.contains_key(automation_file()) ==> automation_read_text(fs) == fs[automation_file()],
{
}

/// Requesting a note for the same task text twice resolves to the same
/// file both times and leaves the folder exactly as the first request
/// left it: the first timestamp wins, the second request writes nothing.
pub proof fn lemma_note_create_idempotent(
    fs: Map<Seq<char>, Seq<char>>,
    task: Seq<char>,
    ts1: Seq<char>,
    ts2: Seq<char>,
)
    ensures
        note_create_files(note_create_files(fs, task, ts1), task, ts2) == note_create_files(
            fs,
            task,
            ts1,
        ),
        note_create_files(fs, task, ts1).contains_key(note_rel_path(task)),
{
}

/// Writing the board and then reading it returns exactly the written
/// text, byte for byte, for every text including the empty one, and the
/// read changes nothing further.
pub proof fn lemma_board_round_trip(fs: Map<Seq<char>, Seq<char>>, text: Seq<char>)
    ensures
        board_read_text(board_write_files(fs, text)) == text,
        board_read_files(board_write_files(fs, text)) == board_write_files(fs, text),
{
}

/// Writing an archive file twice under one name leaves exactly the second
/// content: the last writer wins.
pub proof fn lemma_archive_overwrite(
    fs: Map<Seq<char>, Seq<char>>,
    name: Seq<char>,
    v1: Seq<char>,
    v2: Seq<char>,
)
    ensures
        archive_write_files(archive_write_files(fs, name, v1), name, v2) =~= archive_write_files(
            fs,
            name,
            v2,
        ),
        archive_write_files(fs, name, v2)[name] == v2,
{
}

/// Starting a watch twice in succession hands out two distinct handles
/// and leaves only the second session able to signal: an event observed
/// under the first handle is discarded, one under the second produces the
/// change signal exactly when its kind is a modification, and after a
/// stop no handle signals at all.
pub proof fn lemma_watch_replace_safety(s: WatchSlot, kind: WatchEventKind)
    requires
        s.wf(),
        s.next_handle + 1 < u64::MAX,
    ensures
        ({
            let (s1, h1) = s.spec_start();
            let (s2, h2) = s1.spec_start();
            &&& h1 != h2
            &&& !s2.spec_emits(h1, kind)
            &&& s2.spec_emits(h2, kind) == (kind == WatchEventKind::Modify)
            &&& forall|h: u64| !s2.spec_stop().spec_emits(h, kind)
        }),
{
}

} // verus!
