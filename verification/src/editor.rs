//! The text editor: which file it edits, whether it waits on a file
//! operation, whether it holds unsaved changes, and the text of its status
//! bar. The buffer itself and the file dialogs belong to the window.

use vstd::prelude::*;
use vstd::utf8::{decode_utf8, encode_utf8_decode_utf8};
use vstd::string::StringSliceAdditionalSpecFns;
use crate::decimal::{decimal, push_decimal};

verus! {

/// The kind of an I/O error, as `std::io` classifies it.
#[verifier::external_type_specification]
#[verifier::external_body]
pub struct ExIoErrorKind(std::io::ErrorKind);

/// Why a file could not be opened or saved.
#[derive(Debug, Clone, Copy)]
pub enum Error {
    DialogClosed,
    IoError(std::io::ErrorKind),
}

/// The path of the file that the editor opens at start: `Cargo.toml` in
/// the directory `manifest_dir` of the program's manifest.
pub fn default_file(manifest_dir: &str) -> (r: String)
    ensures
        r@ == manifest_dir@ + "/Cargo.toml"@,
{
    let mut s = String::from_str(manifest_dir);
    s.append("/Cargo.toml");
    s
}

/// What the window tells the editor. An action of the buffer comes with
/// whether it edits the text; a theme is of type `T`.
#[derive(Debug)]
pub enum EditorMessage<T> {
    ActionPerformed { is_edit: bool },
    ThemeSelected(T),
    NewFile,
    OpenFile,
    FileOpened(Result<(String, String), Error>),
    SaveFile,
    FileSaved(Result<String, Error>),
}

/// What the editor asks of the window.
#[derive(Debug)]
pub enum EditorCommand {
    Nothing,
    /// Apply the action to the buffer.
    PerformAction,
    /// Empty the buffer.
    ClearContent,
    /// Fill the buffer with the text.
    SetContent(String),
    /// Let the user pick a file and read it.
    StartOpen,
    /// Write the buffer to the file at the path, or to one the user picks.
    StartSave(Option<String>),
}

/// The editor: its file, theme, and whether it waits or holds changes.
#[derive(Debug)]
pub struct Editor<T> {
    pub file: Option<String>,
    pub theme: T,
    /// A file operation runs; new ones wait until it ends.
    pub is_loading: bool,
    /// The buffer holds changes that no save has written.
    pub is_dirty: bool,
    /// An edit came after the last save began, so that save's file lacks it.
    pub edited_during_save: bool,
}

impl<T> Editor<T> {
    /// The editor at start, reading its default file: no file yet, waiting.
    pub fn new(theme: T) -> (r: Self)
        ensures
            r.file is None,
            r.theme == theme,
            r.is_loading,
            !r.is_dirty,
            !r.edited_during_save,
    {
        Editor { file: None, theme, is_loading: true, is_dirty: false, edited_during_save: false }
    }

    /// The window title.
    pub fn title(&self) -> (r: String)
        ensures
            r@ == "Editor - Iced"@,
    {
        String::from_str("Editor - Iced")
    }

    /// Whether the open button works: not while a file operation runs.
    pub fn can_open(&self) -> (r: bool)
        ensures
            r == !self.is_loading,
    {
        !self.is_loading
    }

    /// Whether the save button works: only when there is something to save.
    pub fn can_save(&self) -> (r: bool)
        ensures
            r == self.is_dirty,
    {
        self.is_dirty
    }

    /// Handles one message of the window. A failed open leaves the buffer,
    /// and so whether it holds unsaved changes, as it was; a finished save
    /// leaves the buffer dirty when it was edited after the save began.
    pub fn update(&mut self, message: EditorMessage<T>) -> (cmd: EditorCommand)
        ensures
            match message {
                EditorMessage::ActionPerformed { is_edit } => {
                    &&& cmd is PerformAction
                    &&& *final(self) == Editor {
                        is_dirty: old(self).is_dirty || is_edit,
                        edited_during_save: old(self).edited_during_save || is_edit,
                        ..*old(self)
                    }
                },
                EditorMessage::ThemeSelected(t) => cmd is Nothing && *final(self) == Editor {
                    theme: t,
                    ..*old(self)
                },
                EditorMessage::NewFile => if old(self).is_loading {
                    cmd is Nothing && *final(self) == *old(self)
                } else {
                    cmd is ClearContent && *final(self) == Editor { file: None, ..*old(self) }
                },
                EditorMessage::OpenFile => if old(self).is_loading {
                    cmd is Nothing && *final(self) == *old(self)
                } else {
                    cmd is StartOpen && *final(self) == Editor { is_loading: true, ..*old(self) }
                },
                EditorMessage::FileOpened(result) => match result {
                    Ok((path, contents)) => {
                        &&& cmd matches EditorCommand::SetContent(c) && c == contents
                        &&& *final(self) == Editor {
                            file: Some(path),
                            is_loading: false,
                            is_dirty: false,
                            ..*old(self)
                        }
                    },
                    Err(_) => cmd is Nothing && *final(self) == Editor {
                        is_loading: false,
                        ..*old(self)
                    },
                },
                EditorMessage::SaveFile => if old(self).is_loading {
                    cmd is Nothing && *final(self) == *old(self)
                } else {
                    &&& cmd matches EditorCommand::StartSave(p) && p == old(self).file
                    &&& *final(self) == Editor {
                        is_loading: true,
                        edited_during_save: false,
                        ..*old(self)
                    }
                },
                EditorMessage::FileSaved(result) => cmd is Nothing && match result {
                    Ok(path) => *final(self) == Editor {
                        file: Some(path),
                        is_loading: false,
                        is_dirty: old(self).edited_during_save,
                        ..*old(self)
                    },
                    Err(_) => *final(self) == Editor { is_loading: false, ..*old(self) },
                },
            },
    {
        match message {
            EditorMessage::ActionPerformed { is_edit } => {
                self.is_dirty = self.is_dirty || is_edit;
                self.edited_during_save = self.edited_during_save || is_edit;
                EditorCommand::PerformAction
            },
            EditorMessage::ThemeSelected(theme) => {
                self.theme = theme;
                EditorCommand::Nothing
            },
            EditorMessage::NewFile => {
                if !self.is_loading {
                    self.file = None;
                    EditorCommand::ClearContent
                } else {
                    EditorCommand::Nothing
                }
            },
            EditorMessage::OpenFile => {
                if self.is_loading {
                    EditorCommand::Nothing
                } else {
                    self.is_loading = true;
                    EditorCommand::StartOpen
                }
            },
            EditorMessage::FileOpened(result) => {
                self.is_loading = false;
                match result {
                    Ok((path, contents)) => {
                        self.file = Some(path);
                        self.is_dirty = false;
                        EditorCommand::SetContent(contents)
                    },
                    Err(_) => EditorCommand::Nothing,
                }
            },
            EditorMessage::SaveFile => {
                if self.is_loading {
                    EditorCommand::Nothing
                } else {
                    self.is_loading = true;
                    self.edited_during_save = false;
                    let path = match &self.file {
                        Some(p) => Some(p.clone()),
                        None => None,
                    };
                    EditorCommand::StartSave(path)
                }
            },
            EditorMessage::FileSaved(result) => {
                self.is_loading = false;
                if let Ok(path) = result {
                    self.file = Some(path);
                    self.is_dirty = self.edited_during_save;
                }
                EditorCommand::Nothing
            },
        }
    }
}

/// The extension of the file at `path`, as `std::path::Path::extension`
/// finds it: the part of the file name after its last dot, if any.
pub uninterp spec fn path_extension_of(path: Seq<char>) -> Option<Seq<char>>;

/// The extension of the file at `path`.
///
/// Calls `std::path::Path::extension` on the path and turns the result back
/// into a `String`; a part of a `&str` is always valid text, so `to_str`
/// never fails here. The contract names the result `path_extension_of` of
/// the path: it depends on the path alone.
#[verifier::external_body]
fn path_extension(path: &str) -> (r: Option<String>)
    ensures
        match r {
            Some(e) => path_extension_of(path@) == Some(e@),
            None => path_extension_of(path@) is None,
        },
{
    match std::path::Path::new(path).extension() {
        Some(e) => e.to_str().map(String::from),
        None => None,
    }
}

/// The language that the buffer is highlighted as, given the extension of
/// its file: that extension, or Rust's `rs` when there is none.
pub fn extension_or_default(extension: Option<String>) -> (r: String)
    ensures
        r@ == match extension {
            Some(e) => e@,
            None => "rs"@,
        },
{
    match extension {
        Some(e) => e,
        None => String::from_str("rs"),
    }
}

/// The language that the buffer is highlighted as: the extension of its
/// file, or `rs` when it has no file or the file has no extension.
pub fn highlight_extension(file: Option<&str>) -> (r: String)
    ensures
        r@ == match file {
            Some(p) => match path_extension_of(p@) {
                Some(e) => e,
                None => "rs"@,
            },
            None => "rs"@,
        },
{
    match file {
        Some(p) => extension_or_default(path_extension(p)),
        None => extension_or_default(None),
    }
}

/// The path shown in the status bar: the whole path when it has at most
/// sixty bytes, else `...` and its last forty bytes.
pub open spec fn status_path_spec(path: Seq<char>) -> Seq<char> {
    let bytes = vstd::utf8::encode_utf8(path);
    if bytes.len() > 60 {
        "..."@ + decode_utf8(bytes.subrange(bytes.len() - 40, bytes.len() as int))
    } else {
        path
    }
}

/// The left part of the status bar: the file's path, shortened when long,
/// or `New File` when the buffer has no file. The path is cut at a byte
/// offset, which must fall between characters.
pub fn status_text(file: Option<&str>) -> (r: String)
    requires
        file matches Some(p) ==> p.spec_bytes().len() <= usize::MAX,
        file matches Some(p) ==> (p.spec_bytes().len() > 60 ==> vstd::utf8::is_char_boundary(
            p.spec_bytes(),
            p.spec_bytes().len() - 40,
        )),
    ensures
        r@ == match file {
            Some(p) => status_path_spec(p@),
            None => "New File"@,
        },
{
    match file {
        None => String::from_str("New File"),
        Some(path) => {
            let n: usize = path.len();
            if n > 60 {
                let (_, tail) = path.split_at(n - 40);
                proof {
                    encode_utf8_decode_utf8(tail@);
                }
                let mut s = String::from_str("...");
                s.append(tail);
                s
            } else {
                String::from_str(path)
            }
        },
    }
}

/// The right part of the status bar: the cursor's line and column,
/// counted from one.
pub fn cursor_text(line: usize, column: usize) -> (r: String)
    requires
        line < usize::MAX,
        column < usize::MAX,
    ensures
        r@ == decimal((line + 1) as nat) + ":"@ + decimal((column + 1) as nat),
{
    let mut s = String::new();
    push_decimal(&mut s, (line + 1) as u64);
    s.append(":");
    push_decimal(&mut s, (column + 1) as u64);
    s
}

} // verus!
