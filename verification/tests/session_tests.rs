use md_edit::actions::{export, load, new, path_picked, save, save_as, Action};
use md_edit::command::Command;
use md_edit::editor::fingerprint;
use md_edit::error::MdError;
use md_edit::files::{DirChild, EntryKind};
use md_edit::panel::{FocusMove, Panel};
use md_edit::session::{
    Effect, MdEdit, Notification, ReadKind, Severity, WriteKind, NOTIFICATION_MS,
};

fn children() -> Vec<DirChild> {
    vec![
        DirChild::new("b.md".to_string(), EntryKind::File),
        DirChild::new("sub".to_string(), EntryKind::Directory),
        DirChild::new("a.md".to_string(), EntryKind::File),
    ]
}

fn session() -> MdEdit {
    MdEdit::new("/work/notes".to_string(), false, children())
}

fn home() -> String {
    shellexpand::tilde("~").into_owned()
}

fn rejected() -> Effect {
    Effect::Notify { notification: Notification::unsaved() }
}

#[test]
fn new_session_is_clean_and_empty() {
    let s = session();
    assert_eq!(s.current_file(), None);
    assert_eq!(s.current_directory(), "/work/notes");
    assert_eq!(s.content(), "");
    assert_eq!(s.command_input(), "");
    assert_eq!(s.state(), Panel::Editor);
    assert!(!s.is_dirty());
    assert_eq!(s.files().len(), 4);
    assert_eq!(s.files_manager().len(), 4);
}

#[test]
fn notifications() {
    let n = Notification::unsaved();
    assert_eq!(n.text, "Please save file before opening another");
    assert_eq!(n.severity, Severity::Warning);
    assert_eq!(n.duration_ms, 2500);
    assert_eq!(NOTIFICATION_MS, 2500);
    let n = Notification::saved("/a.md");
    assert_eq!(n.text, "File saved to /a.md");
    assert_eq!(n.severity, Severity::Success);
    let n = Notification::failure(&MdError::Io("disk full".to_string()));
    assert_eq!(n.text, "IO error: disk full");
    assert_eq!(n.severity, Severity::Error);
    assert_eq!(n.duration_ms, 2500);
}

#[test]
fn error_texts() {
    assert_eq!(MdError::Io("x".to_string()).to_text(), "IO error: x");
    assert_eq!(MdError::InvalidAction("x".to_string()).to_text(), "Invalid action: x");
    assert_eq!(MdError::InvalidCommand("x".to_string()).to_text(), "Invalid command: x");
    assert_eq!(MdError::InvalidHotkey("x".to_string()).to_text(), "Invalid hotkey: x");
    assert_eq!(MdError::InvalidHotkey("x".to_string()).message(), "x");
}

#[test]
fn dirty_gate_rejects_selection_until_saved() {
    let mut s = session();
    // listing: "..", a.md, b.md, sub
    assert_eq!(s.files()[1].path, "/work/notes/a.md");
    s.edit("changed".to_string());
    assert!(s.is_dirty());
    assert_eq!(s.select(1), rejected());
    assert_eq!(s.select(2), rejected());
    assert_eq!(s.content(), "changed");

    let written = s.write_finished("/work/notes/x.md".to_string(), "changed", WriteKind::Save, Ok(()));
    assert_eq!(
        written,
        Ok(Effect::Notify { notification: Notification::saved("/work/notes/x.md") })
    );
    assert!(!s.is_dirty());
    assert_eq!(
        s.select(1),
        Effect::Read { path: "/work/notes/a.md".to_string(), reason: ReadKind::Open }
    );
}

#[test]
fn dirty_gate_opens_after_save_as_and_export() {
    for kind in [WriteKind::SaveAs, WriteKind::Export] {
        let mut s = session();
        s.edit("changed".to_string());
        assert_eq!(s.select(2), rejected());
        let written = if kind == WriteKind::Export { "<p>changed</p>\n" } else { "changed" };
        assert!(s.write_finished("/o/x".to_string(), written, kind, Ok(())).is_ok());
        assert!(!s.is_dirty());
        assert_eq!(
            s.select(2),
            Effect::Read { path: "/work/notes/b.md".to_string(), reason: ReadKind::Open }
        );
    }
}

#[test]
fn failed_write_leaves_the_session_dirty() {
    let mut s = session();
    s.edit("changed".to_string());
    let r = s.write_finished("/x.md".to_string(), "changed", WriteKind::SaveAs, Err("denied".to_string()));
    assert_eq!(r, Err(MdError::Io("denied".to_string())));
    assert!(s.is_dirty());
    assert_eq!(s.current_file(), None);
    assert_eq!(s.content(), "changed");
}

#[test]
fn write_of_older_content_leaves_the_buffer_dirty() {
    let mut s = session();
    s.edit("one".to_string());
    s.edit("two".to_string());
    assert!(s.write_finished("/x.md".to_string(), "one", WriteKind::Save, Ok(())).is_ok());
    assert!(s.is_dirty());
}

#[test]
fn only_save_as_adopts_the_path() {
    let mut s = session();
    assert!(s.write_finished("/a.md".to_string(), "", WriteKind::Save, Ok(())).is_ok());
    assert_eq!(s.current_file(), None);
    assert!(s.write_finished("/b.html".to_string(), "", WriteKind::Export, Ok(())).is_ok());
    assert_eq!(s.current_file(), None);
    assert!(s.write_finished("/c.md".to_string(), "", WriteKind::SaveAs, Ok(())).is_ok());
    assert_eq!(s.current_file(), Some("/c.md"));
}

#[test]
fn save_then_load_round_trip() {
    let content = "# Títle\n\nline two\r\n\ttabbed \u{1F600}\n";
    let mut s = session();
    s.edit(content.to_string());
    let effect = Command::Save("/store/doc.md".to_string()).execute(&mut s).unwrap();
    let (path, stored) = match effect {
        Effect::Write { path, content, kind } => {
            assert_eq!(kind, WriteKind::Save);
            (path, content)
        },
        other => panic!("unexpected effect {:?}", other),
    };
    assert_eq!(stored.as_bytes(), content.as_bytes());
    assert!(s.write_finished(path.clone(), &stored, WriteKind::Save, Ok(())).is_ok());

    let mut t = session();
    let effect = Command::Open("/store/doc.md".to_string()).execute(&mut t).unwrap();
    assert_eq!(effect, Effect::Read { path: path.clone(), reason: ReadKind::Open });
    assert_eq!(t.read_finished(path.clone(), ReadKind::Open, Ok(stored)), Ok(Effect::Nothing));
    assert_eq!(t.content().as_bytes(), content.as_bytes());
    assert_eq!(t.current_file(), Some("/store/doc.md"));
    assert!(!t.is_dirty());
}

#[test]
fn read_finished_is_refused_while_dirty() {
    let mut s = session();
    s.edit("mine".to_string());
    let r = s.read_finished("/a.md".to_string(), ReadKind::Open, Ok("theirs".to_string()));
    assert_eq!(r, Ok(rejected()));
    assert_eq!(s.content(), "mine");
    assert_eq!(s.current_file(), None);
}

#[test]
fn failed_read_changes_nothing() {
    let mut s = session();
    let r = s.read_finished("/a.md".to_string(), ReadKind::Open, Err("not found".to_string()));
    assert_eq!(r, Err(MdError::Io("not found".to_string())));
    assert_eq!(s.content(), "");
    assert_eq!(s.current_file(), None);
}

#[test]
fn template_seeds_a_document_without_a_file() {
    let mut s = session();
    assert!(s.read_finished("/a.md".to_string(), ReadKind::Open, Ok("old".to_string())).is_ok());
    assert_eq!(
        new(Some("/t/letter.md".to_string()), &mut s),
        Effect::Read { path: "/t/letter.md".to_string(), reason: ReadKind::Template }
    );
    assert_eq!(s.content(), "old");
    assert!(s.read_finished("/t/letter.md".to_string(), ReadKind::Template, Ok("Dear".to_string())).is_ok());
    assert_eq!(s.content(), "Dear");
    assert_eq!(s.current_file(), None);
    assert!(!s.is_dirty());
}

#[test]
fn select_parent_directory_and_file() {
    let s = session();
    assert_eq!(s.files()[0].path, "..");
    assert_eq!(s.select(0), Effect::List { directory: "/work".to_string() });
    assert_eq!(s.files()[3].path, "/work/notes/sub");
    assert_eq!(s.select(3), Effect::List { directory: "/work/notes/sub".to_string() });
    assert_eq!(
        s.select(2),
        Effect::Read { path: "/work/notes/b.md".to_string(), reason: ReadKind::Open }
    );
    assert_eq!(s.select(4), Effect::Nothing);
}

#[test]
fn select_parent_at_the_root_does_nothing() {
    let s = MdEdit::new("/".to_string(), false, children());
    assert_eq!(s.files()[0].path, "..");
    assert_eq!(s.select(0), Effect::Nothing);
    let mut dirty = MdEdit::new("/".to_string(), false, children());
    dirty.edit("x".to_string());
    assert_eq!(dirty.select(0), Effect::Nothing);
}

#[test]
fn changing_directory_is_gated_too() {
    let mut s = session();
    s.edit("x".to_string());
    assert_eq!(s.select(0), rejected());
    assert_eq!(s.select(3), rejected());
    assert_eq!(s.change_directory("/etc".to_string()), rejected());
    assert_eq!(s.change_directory("~/docs".to_string()), rejected());
    assert_eq!(s.show_directory("/etc".to_string()), rejected());
    assert_eq!(s.open_file("/etc/a.md".to_string()), rejected());
}

#[test]
fn change_directory_hands_out_the_expanded_name() {
    let mut s = session();
    assert_ne!(home(), "~");
    assert_eq!(
        s.change_directory("~/docs".to_string()),
        Effect::List { directory: format!("{}/docs", home()) }
    );
    assert_eq!(s.change_directory("~".to_string()), Effect::List { directory: home() });
    assert_eq!(
        s.change_directory("/etc".to_string()),
        Effect::List { directory: "/etc".to_string() }
    );
    assert_eq!(
        s.change_directory("/a/~/b".to_string()),
        Effect::List { directory: "/a/~/b".to_string() }
    );
    assert_eq!(
        s.show_directory("~/docs".to_string()),
        Effect::List { directory: "~/docs".to_string() }
    );
    let directory = match s.change_directory("~/docs".to_string()) {
        Effect::List { directory } => directory,
        other => panic!("unexpected effect {:?}", other),
    };
    let found = vec![DirChild::new("a.md".to_string(), EntryKind::File)];
    assert_eq!(s.directory_listed(directory, Ok(found)), Ok(Effect::Nothing));
    assert_eq!(s.current_directory(), format!("{}/docs", home()));
    assert_eq!(s.files()[1].path, format!("{}/docs/a.md", home()));
}

#[test]
fn first_read_and_session_of_a_tilde_directory() {
    assert_eq!(
        MdEdit::read_request("~/notes"),
        Effect::List { directory: format!("{}/notes", home()) }
    );
    assert_eq!(
        MdEdit::read_request("/work"),
        Effect::List { directory: "/work".to_string() }
    );
    let s = MdEdit::new("~/notes".to_string(), false, children());
    assert_eq!(s.current_directory(), format!("{}/notes", home()));
    assert_eq!(s.files()[1].path, format!("{}/notes/a.md", home()));
    assert_eq!(s.select(0), Effect::List { directory: home() });

    let mut t = session();
    let found = vec![DirChild::new("z.md".to_string(), EntryKind::File)];
    assert_eq!(t.directory_listed("~/other".to_string(), Ok(found)), Ok(Effect::Nothing));
    assert_eq!(t.current_directory(), format!("{}/other", home()));
    assert_eq!(t.files()[1].path, format!("{}/other/z.md", home()));
}

#[test]
fn directory_listed_swaps_directory_and_listing_together() {
    let mut s = session();
    s.edit("kept".to_string());
    let r = s.directory_listed("/other".to_string(), Ok(vec![DirChild::new("z.md".to_string(), EntryKind::File)]));
    assert_eq!(r, Ok(Effect::Nothing));
    assert_eq!(s.current_directory(), "/other");
    let paths: Vec<&str> = s.files().iter().map(|e| e.path.as_str()).collect();
    assert_eq!(paths, vec!["..", "/other/z.md"]);
    assert_eq!(s.content(), "kept");
    assert!(s.is_dirty());

    let r = s.directory_listed("/gone".to_string(), Err("no such directory".to_string()));
    assert_eq!(r, Err(MdError::Io("no such directory".to_string())));
    assert_eq!(s.current_directory(), "/other");
    assert_eq!(s.files().len(), 2);
}

#[test]
fn edits_track_the_fingerprint() {
    let mut s = session();
    s.edit("".to_string());
    assert!(!s.is_dirty());
    s.edit("a".to_string());
    assert!(s.is_dirty());
    assert_eq!(fingerprint(s.content()).checksum, 98);
}

#[test]
fn reset_is_gated() {
    let mut s = session();
    s.edit("x".to_string());
    assert!(!s.reset());
    assert_eq!(s.content(), "x");
    assert!(s.write_finished("/x.md".to_string(), "x", WriteKind::SaveAs, Ok(())).is_ok());
    assert!(s.reset());
    assert_eq!(s.content(), "");
    assert_eq!(s.current_file(), None);
}

#[test]
fn focus_moves_leave_the_session_alone() {
    let mut s = session();
    s.edit("x".to_string());
    s.move_focus(FocusMove::Forward);
    assert_eq!(s.state(), Panel::Command);
    s.move_focus(FocusMove::Forward);
    s.move_focus(FocusMove::Forward);
    assert_eq!(s.state(), Panel::Editor);
    s.move_focus(FocusMove::Backward);
    assert_eq!(s.state(), Panel::Files);
    assert_eq!(s.content(), "x");
    assert!(s.is_dirty());
}

#[test]
fn save_handler() {
    let mut s = session();
    assert_eq!(save(None, &s), Effect::PickPath { purpose: Action::Save });
    s.edit("text".to_string());
    assert_eq!(
        save(Some("/p.md".to_string()), &s),
        Effect::Write { path: "/p.md".to_string(), content: "text".to_string(), kind: WriteKind::Save }
    );
    assert!(s.write_finished("/c.md".to_string(), "text", WriteKind::SaveAs, Ok(())).is_ok());
    assert_eq!(
        save(None, &s),
        Effect::Write { path: "/c.md".to_string(), content: "text".to_string(), kind: WriteKind::Save }
    );
}

#[test]
fn save_as_handler() {
    let mut s = session();
    s.edit("text".to_string());
    assert_eq!(save_as(None, &s), Effect::PickPath { purpose: Action::SaveAs });
    assert_eq!(
        save_as(Some("/n.md".to_string()), &s),
        Effect::Write { path: "/n.md".to_string(), content: "text".to_string(), kind: WriteKind::SaveAs }
    );
}

#[test]
fn load_handler() {
    let mut s = session();
    assert_eq!(load(None, &mut s), Effect::PickPath { purpose: Action::Load });
    assert_eq!(
        load(Some("/l.md".to_string()), &mut s),
        Effect::Read { path: "/l.md".to_string(), reason: ReadKind::Open }
    );
    s.edit("x".to_string());
    assert_eq!(load(Some("/l.md".to_string()), &mut s), rejected());
    assert_eq!(load(None, &mut s), rejected());
}

#[test]
fn export_handler_leaves_the_session_alone() {
    let mut s = session();
    assert_eq!(export(None, &mut s), Effect::PickPath { purpose: Action::Export });
    assert!(s.write_finished("/c/doc.md".to_string(), "", WriteKind::SaveAs, Ok(())).is_ok());
    s.edit("body".to_string());
    assert_eq!(
        export(None, &mut s),
        Effect::Write {
            path: "/c/doc.html".to_string(),
            content: "<p>body</p>\n".to_string(),
            kind: WriteKind::Export
        }
    );
    assert_eq!(
        export(Some("/out/x.html".to_string()), &mut s),
        Effect::Write {
            path: "/out/x.html".to_string(),
            content: "<p>body</p>\n".to_string(),
            kind: WriteKind::Export
        }
    );
    assert!(s.is_dirty());
    assert_eq!(s.content(), "body");
    assert_eq!(s.current_file(), Some("/c/doc.md"));
}

#[test]
fn export_renders_markdown_to_html() {
    let mut s = session();
    let source = "# Title\n\nSome *text* & <more>.\n\n- one\n- two\n";
    s.edit(source.to_string());
    let content = match export(Some("/out/x.html".to_string()), &mut s) {
        Effect::Write { content, kind: WriteKind::Export, .. } => content,
        other => panic!("unexpected effect {:?}", other),
    };
    assert_ne!(content, source);
    let mut expected = String::new();
    pulldown_cmark::html::push_html(&mut expected, pulldown_cmark::Parser::new(source));
    assert_eq!(content, expected);
    assert!(content.starts_with("<h1>Title</h1>\n"));
    assert!(content.contains("<em>text</em> &amp; "));
    assert!(content.contains("<li>one</li>"));
}

#[test]
fn finished_export_takes_in_the_buffer_as_it_stands() {
    let mut s = session();
    s.edit("body".to_string());
    let r = s.write_finished("/out/x.html".to_string(), "<p>body</p>\n", WriteKind::Export, Ok(()));
    assert_eq!(r, Ok(Effect::Notify { notification: Notification::saved("/out/x.html") }));
    assert!(!s.is_dirty());
    assert_eq!(s.content(), "body");
    assert_eq!(s.current_file(), None);
    s.edit("body!".to_string());
    let r = s.write_finished("/o".to_string(), "x", WriteKind::Export, Err("denied".to_string()));
    assert_eq!(r, Err(MdError::Io("denied".to_string())));
    assert!(s.is_dirty());
}

#[test]
fn new_handler() {
    let mut s = session();
    s.edit("x".to_string());
    assert_eq!(new(None, &mut s), rejected());
    assert_eq!(s.content(), "x");
    assert!(s.write_finished("/x.md".to_string(), "x", WriteKind::SaveAs, Ok(())).is_ok());
    assert_eq!(new(None, &mut s), Effect::Nothing);
    assert_eq!(s.content(), "");
    assert_eq!(s.current_file(), None);
}

#[test]
fn picked_path_runs_the_action() {
    let mut s = session();
    s.edit("text".to_string());
    assert_eq!(path_picked(Action::Save, None, &mut s), Effect::Nothing);
    assert_eq!(
        path_picked(Action::SaveAs, Some("/n.md".to_string()), &mut s),
        Effect::Write { path: "/n.md".to_string(), content: "text".to_string(), kind: WriteKind::SaveAs }
    );
    assert_eq!(path_picked(Action::Load, Some("/n.md".to_string()), &mut s), rejected());
    assert_eq!(s.content(), "text");
}

#[test]
fn action_names() {
    assert_eq!(Action::from_name("save"), Ok(Action::Save));
    assert_eq!(Action::from_name("SaveAs"), Ok(Action::SaveAs));
    assert_eq!(Action::from_name("New"), Ok(Action::New));
    assert_eq!(Action::from_name("Load"), Ok(Action::Load));
    assert_eq!(Action::from_name("Export"), Ok(Action::Export));
    for a in [Action::Save, Action::SaveAs, Action::New, Action::Load, Action::Export] {
        assert_eq!(Action::from_name(a.name()), Ok(a));
    }
}

#[test]
fn unknown_action_names_fail() {
    let failure = Err(MdError::InvalidAction("Invalid action name".to_string()));
    assert_eq!(Action::from_name("Save"), failure);
    assert_eq!(Action::from_name("saveas"), failure);
    assert_eq!(Action::from_name(""), failure);
    assert_eq!(Action::from_name("new"), failure);
    assert_eq!(Action::from_name("Export "), failure);
}

#[test]
fn run_dispatches_to_the_handlers() {
    let mut s = session();
    assert_eq!(Action::Save.run(None, &mut s), Effect::PickPath { purpose: Action::Save });
    assert_eq!(Action::SaveAs.run(None, &mut s), Effect::PickPath { purpose: Action::SaveAs });
    assert_eq!(Action::Load.run(None, &mut s), Effect::PickPath { purpose: Action::Load });
    assert_eq!(Action::Export.run(None, &mut s), Effect::PickPath { purpose: Action::Export });
    assert_eq!(Action::New.run(None, &mut s), Effect::Nothing);
}
