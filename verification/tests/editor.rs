use demokit::editor::{
    cursor_text, default_file, extension_or_default, highlight_extension, status_text, Editor,
    EditorCommand, EditorMessage, Error,
};

#[test]
fn editor_file_operations() {
    let mut e = Editor::new(0u8);
    assert!(e.is_loading && !e.is_dirty && e.file.is_none());
    assert!(matches!(e.update(EditorMessage::OpenFile), EditorCommand::Nothing));
    let cmd = e.update(EditorMessage::FileOpened(Ok((String::from("/tmp/a.rs"), String::from("fn main() {}")))));
    assert!(matches!(cmd, EditorCommand::SetContent(ref c) if c == "fn main() {}"));
    assert_eq!(e.file.as_deref(), Some("/tmp/a.rs"));
    assert!(!e.is_loading);
    assert!(!e.can_save());
    assert!(matches!(e.update(EditorMessage::ActionPerformed { is_edit: false }), EditorCommand::PerformAction));
    assert!(!e.is_dirty);
    e.update(EditorMessage::ActionPerformed { is_edit: true });
    assert!(e.is_dirty && e.can_save());
    let cmd = e.update(EditorMessage::SaveFile);
    assert!(matches!(cmd, EditorCommand::StartSave(Some(ref p)) if p == "/tmp/a.rs"));
    assert!(e.is_loading && !e.can_open());
    assert!(matches!(e.update(EditorMessage::SaveFile), EditorCommand::Nothing));
    e.update(EditorMessage::FileSaved(Err(Error::DialogClosed)));
    assert!(!e.is_loading && e.is_dirty);
    e.update(EditorMessage::SaveFile);
    e.update(EditorMessage::FileSaved(Ok(String::from("/tmp/b.rs"))));
    assert!(!e.is_dirty);
    assert_eq!(e.file.as_deref(), Some("/tmp/b.rs"));
    assert!(matches!(e.update(EditorMessage::NewFile), EditorCommand::ClearContent));
    assert!(e.file.is_none());
    assert!(matches!(e.update(EditorMessage::OpenFile), EditorCommand::StartOpen));
    e.update(EditorMessage::FileOpened(Err(Error::IoError(std::io::ErrorKind::NotFound))));
    assert!(!e.is_loading);
    e.update(EditorMessage::ThemeSelected(7u8));
    assert_eq!(e.theme, 7);
    assert_eq!(e.title(), "Editor - Iced");
}

#[test]
fn editor_status_bar() {
    assert_eq!(status_text(None), "New File");
    assert_eq!(status_text(Some("/home/me/notes.txt")), "/home/me/notes.txt");
    let long = format!("/{}/{}", "d".repeat(30), "f".repeat(40));
    assert_eq!(long.len(), 72);
    assert_eq!(status_text(Some(&long)), format!("...{}", &long[long.len() - 40..]));
    let sixty = "x".repeat(60);
    assert_eq!(status_text(Some(&sixty)), sixty);
    assert_eq!(cursor_text(0, 0), "1:1");
    assert_eq!(cursor_text(9, 41), "10:42");
    assert_eq!(default_file("/src/demo"), "/src/demo/Cargo.toml");
}

#[test]
fn editor_failed_open_keeps_unsaved_changes() {
    let mut e = Editor::new(0u8);
    e.update(EditorMessage::FileOpened(Ok((String::from("/tmp/a.rs"), String::new()))));
    e.update(EditorMessage::ActionPerformed { is_edit: true });
    assert!(e.is_dirty);
    assert!(matches!(e.update(EditorMessage::OpenFile), EditorCommand::StartOpen));
    assert!(matches!(e.update(EditorMessage::FileOpened(Err(Error::DialogClosed))), EditorCommand::Nothing));
    assert!(!e.is_loading);
    assert!(e.is_dirty && e.can_save());
    assert_eq!(e.file.as_deref(), Some("/tmp/a.rs"));
}

#[test]
fn editor_edit_during_save_stays_dirty() {
    let mut e = Editor::new(0u8);
    e.update(EditorMessage::FileOpened(Ok((String::from("/tmp/a.rs"), String::new()))));
    e.update(EditorMessage::ActionPerformed { is_edit: true });
    e.update(EditorMessage::SaveFile);
    assert!(!e.edited_during_save);
    e.update(EditorMessage::ActionPerformed { is_edit: false });
    assert!(!e.edited_during_save);
    e.update(EditorMessage::ActionPerformed { is_edit: true });
    e.update(EditorMessage::FileSaved(Ok(String::from("/tmp/a.rs"))));
    assert!(!e.is_loading);
    assert!(e.is_dirty && e.can_save());
    // A second save with no edit in between leaves the buffer clean.
    e.update(EditorMessage::SaveFile);
    e.update(EditorMessage::FileSaved(Ok(String::from("/tmp/a.rs"))));
    assert!(!e.is_dirty);
}

#[test]
fn editor_highlights_by_extension() {
    assert_eq!(extension_or_default(Some(String::from("toml"))), "toml");
    assert_eq!(extension_or_default(None), "rs");
    assert_eq!(highlight_extension(None), "rs");
    assert_eq!(highlight_extension(Some("/src/demo/Cargo.toml")), "toml");
    assert_eq!(highlight_extension(Some("/src/archive.tar.gz")), "gz");
    assert_eq!(highlight_extension(Some("/src/Makefile")), "rs");
    assert_eq!(highlight_extension(Some("/home/me/.bashrc")), "rs");
}
