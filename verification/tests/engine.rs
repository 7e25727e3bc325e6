use std::collections::HashMap;

use board_engine::error::EngineError;
use board_engine::notes::note_initial_content;
use board_engine::notes::note_relative_path;
use board_engine::notes::plan_note;
use board_engine::notes::plan_note_now;
use board_engine::opener::note_open_uri;
use board_engine::sanitize::sanitize_task_text;
use board_engine::store::read_automation_step;
use board_engine::store::read_board_step;
use board_engine::store::write_archive_step;
use board_engine::store::write_board_step;
use board_engine::store::FileWrite;
use board_engine::watch::WatchEventKind;
use board_engine::watch::WatchSlot;

const SKELETON: &str =
    "## IceBox\n\n## Todo\n\n## Doing\n\n## Pending\n\n## Done\n\n## Reject\n\n## Archive\n";

fn apply(files: &mut HashMap<String, String>, w: Option<FileWrite>) {
    if let Some(fw) = w {
        files.insert(fw.name, fw.content);
    }
}

#[test]
fn board_read_initializes_once() {
    let mut files: HashMap<String, String> = HashMap::new();
    let (w, text) = read_board_step(None);
    assert_eq!(text, SKELETON);
    let fw = w.expect("a missing board must be created");
    assert_eq!(fw.name, "todo.md");
    assert_eq!(fw.content, SKELETON);
    apply(&mut files, Some(fw));
    let (w2, text2) = read_board_step(files.get("todo.md").cloned());
    assert!(w2.is_none());
    assert_eq!(text2, SKELETON);
    assert_eq!(files.len(), 1);
}

#[test]
fn board_read_returns_existing_verbatim() {
    let (w, text) = read_board_step(Some("## Doing\n- thing\n".to_string()));
    assert!(w.is_none());
    assert_eq!(text, "## Doing\n- thing\n");
}

#[test]
fn automation_read_never_initializes() {
    let r = read_automation_step(None);
    assert_eq!(r, "");
    let r2 = read_automation_step(Some("every day: water plants\n".to_string()));
    assert_eq!(r2, "every day: water plants\n");
}

#[test]
fn board_write_round_trip() {
    for text in ["", "plain", "## Doing\n- 日本語のタスク 🙂\n"] {
        let w = write_board_step(text.to_string());
        assert_eq!(w.name, "todo.md");
        assert_eq!(w.content, text);
        let (w2, back) = read_board_step(Some(w.content));
        assert!(w2.is_none());
        assert_eq!(back, text);
    }
}

#[test]
fn archive_write_overwrites() {
    let mut files: HashMap<String, String> = HashMap::new();
    apply(&mut files, Some(write_archive_step("a.md".to_string(), "v1".to_string())));
    apply(&mut files, Some(write_archive_step("a.md".to_string(), "v2".to_string())));
    assert_eq!(files.get("a.md").map(String::as_str), Some("v2"));
    assert_eq!(files.len(), 1);
}

#[test]
fn sanitize_strips_punctuation_and_replaces_spaces() {
    assert_eq!(sanitize_task_text("Fix bug #42!"), "Fix_bug_42");
    assert_eq!(sanitize_task_text("Buy milk"), "Buy_milk");
    assert_eq!(sanitize_task_text("  padded  out  "), "padded__out");
    assert_eq!(sanitize_task_text("keep-this_one"), "keep-this_one");
    assert_eq!(sanitize_task_text("!!!"), "");
    assert_eq!(sanitize_task_text(""), "");
    assert_eq!(sanitize_task_text("日本語 メモ"), "日本語_メモ");
    // An interior tab survives filtering and trimming and is not a space.
    assert_eq!(sanitize_task_text("a\tb"), "a\tb");
}

#[test]
fn note_paths_are_deterministic() {
    assert_eq!(note_relative_path("Buy milk"), "notes/Buy_milk.md");
    assert_eq!(note_relative_path("Fix bug #42!"), "notes/Fix_bug_42.md");
}

#[test]
fn note_initial_document_layout() {
    let c = note_initial_content("Buy milk", "2024-01-02 03:04:05");
    assert_eq!(c, "# Buy milk\n\nCreated: 2024-01-02 03:04:05\n\n## Notes\n\n");
}

#[test]
fn note_creation_is_idempotent() {
    let mut files: HashMap<String, String> = HashMap::new();
    let (w1, p1) = plan_note("Buy milk", false, "2024-01-02 03:04:05");
    assert_eq!(p1, "notes/Buy_milk.md");
    let fw = w1.expect("a fresh note must be written");
    assert_eq!(fw.name, "notes/Buy_milk.md");
    assert_eq!(fw.content, "# Buy milk\n\nCreated: 2024-01-02 03:04:05\n\n## Notes\n\n");
    apply(&mut files, Some(fw));
    let first = files.get("notes/Buy_milk.md").cloned();

    let exists = files.contains_key("notes/Buy_milk.md");
    let (w2, p2) = plan_note("Buy milk", exists, "2025-06-07 08:09:10");
    assert!(w2.is_none());
    assert_eq!(p2, p1);
    apply(&mut files, w2);
    assert_eq!(files.get("notes/Buy_milk.md").cloned(), first);
}

#[test]
fn note_stamped_with_clock_keeps_layout() {
    let (w, p) = plan_note_now("Call the bank", false);
    assert_eq!(p, "notes/Call_the_bank.md");
    let fw = w.expect("a fresh note must be written");
    assert_eq!(fw.name, "notes/Call_the_bank.md");
    assert!(fw.content.starts_with("# Call the bank\n\nCreated: "));
    assert!(fw.content.ends_with("\n\n## Notes\n\n"));
    let (w2, p2) = plan_note_now("Call the bank", true);
    assert!(w2.is_none());
    assert_eq!(p2, p);
}

#[test]
fn watch_replacement_leaves_one_live_session() {
    let mut slot = WatchSlot::idle();
    assert!(!slot.is_watching());
    let h1 = slot.start();
    let h2 = slot.start();
    assert_ne!(h1, h2);
    assert!(slot.is_watching());
    // Only the session installed last may signal, and only on modification.
    assert!(!slot.should_emit(h1, WatchEventKind::Modify));
    assert!(slot.should_emit(h2, WatchEventKind::Modify));
    assert!(!slot.should_emit(h2, WatchEventKind::Create));
    assert!(!slot.should_emit(h2, WatchEventKind::Remove));
    assert!(!slot.should_emit(h2, WatchEventKind::Access));
    assert!(!slot.should_emit(h2, WatchEventKind::Other));
    slot.stop();
    assert!(!slot.is_watching());
    assert!(!slot.should_emit(h2, WatchEventKind::Modify));
    slot.stop();
    assert!(!slot.is_watching());
}

#[test]
fn fresh_folder_end_to_end() {
    let mut files: HashMap<String, String> = HashMap::new();

    // A read of the fresh folder materializes the skeleton.
    let (w, text) = read_board_step(files.get("todo.md").cloned());
    apply(&mut files, w);
    assert_eq!(files.get("todo.md").map(String::as_str), Some(SKELETON));
    assert_eq!(text, SKELETON);

    // A watch session starts on the board file.
    let mut slot = WatchSlot::idle();
    let h = slot.start();

    // An external process appends a line; the loop sees one modification
    // and exactly that one event produces the signal.
    let edited = format!("{}- appended\n", SKELETON);
    files.insert("todo.md".to_string(), edited.clone());
    let mut signals = 0;
    for kind in [WatchEventKind::Modify, WatchEventKind::Access] {
        if slot.should_emit(h, kind) {
            signals += 1;
        }
    }
    assert_eq!(signals, 1);

    // The re-read returns the edited content unchanged.
    let (w2, text2) = read_board_step(files.get("todo.md").cloned());
    assert!(w2.is_none());
    assert_eq!(text2, edited);

    // After the stop, further external edits produce no signal.
    slot.stop();
    files.insert("todo.md".to_string(), format!("{}- again\n", edited));
    assert!(!slot.should_emit(h, WatchEventKind::Modify));
}

#[test]
fn note_uri_percent_encodes_the_path() {
    let uri = note_open_uri("/home/u/board/notes/My Note.md");
    assert_eq!(uri, "obsidian://open?path=%2Fhome%2Fu%2Fboard%2Fnotes%2FMy%20Note.md");
    assert_eq!(note_open_uri(""), "obsidian://open?path=");
}

#[test]
fn error_messages_carry_the_description() {
    let io = EngineError::IoError("permission denied".to_string());
    assert_eq!(io.message(), "permission denied");
    let wi = EngineError::WatchInitError("folder vanished".to_string());
    assert_eq!(wi.message(), "folder vanished");
}
