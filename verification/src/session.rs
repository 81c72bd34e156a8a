//! The editing session: the one value that every handler works on.
//!
//! The session does no input or output. A handler changes the session and
//! answers with an [`Effect`]; the host carries the effect out and reports
//! what came of it through one of the `..._finished` functions, and only
//! then does a write or a read take effect in the session.

use vstd::prelude::*;
use crate::actions::Action;
use crate::editor::{fingerprint_of, Editor, EditorView};
use crate::error::{MdError, MdErrorView, MdResult};
use crate::files::{
    parent_entry,
    DirChild,
    DirectoryEntry,
    EntryKind,
    FilesManager,
    FilesView,
};
use crate::panel::{FocusMove, Panel};
use crate::path::{parent, parent_of};
use crate::trusted::{expand_tilde, has_tilde_prefix, may_expand_to};

verus! {

/// How long a notification stays on the screen, in milliseconds.
pub const NOTIFICATION_MS: u64 = 2500;

/// How serious a notification is.
#[derive(Clone, Copy, Debug, PartialEq, Eq, Structural)]
pub enum Severity {
    Info,
    Success,
    Warning,
    Error,
}

/// A message for the notification sink of the host.
#[derive(Debug, PartialEq, Eq)]
pub struct Notification {
    pub text: String,
    pub severity: Severity,
    pub duration_ms: u64,
}

/// The mathematical value of a [`Notification`].
pub ghost struct NotificationView {
    pub text: Seq<char>,
    pub severity: Severity,
    pub duration_ms: u64,
}

impl View for Notification {
    type V = NotificationView;

    open spec fn view(&self) -> NotificationView {
        NotificationView {
            text: self.text@,
            severity: self.severity,
            duration_ms: self.duration_ms,
        }
    }
}

impl NotificationView {
    /// The warning shown when unsaved changes stand in the way.
    pub open spec fn unsaved() -> NotificationView {
        NotificationView {
            text: "Please save file before opening another"@,
            severity: Severity::Warning,
            duration_ms: 2500,
        }
    }

    /// The notice shown after the buffer was written to `path`.
    pub open spec fn saved(path: Seq<char>) -> NotificationView {
        NotificationView {
            text: "File saved to "@ + path,
            severity: Severity::Success,
            duration_ms: 2500,
        }
    }

    /// The notice that reports a failure.
    pub open spec fn failure(error: MdErrorView) -> NotificationView {
        NotificationView { text: error.rendered(), severity: Severity::Error, duration_ms: 2500 }
    }
}

impl Notification {
    /// The warning shown when unsaved changes stand in the way.
    pub fn unsaved() -> (n: Notification)
        ensures
            n@ == NotificationView::unsaved(),
    {
        Notification {
            text: String::from_str("Please save file before opening another"),
            severity: Severity::Warning,
            duration_ms: NOTIFICATION_MS,
        }
    }

    /// The notice shown after the buffer was written to `path`.
    pub fn saved(path: &str) -> (n: Notification)
        ensures
            n@ == NotificationView::saved(path@),
    {
        let mut text = String::from_str("File saved to ");
        text.append(path);
        Notification { text, severity: Severity::Success, duration_ms: NOTIFICATION_MS }
    }

    /// The notice that reports a failure.
    pub fn failure(error: &MdError) -> (n: Notification)
        ensures
            n@ == NotificationView::failure(error@),
    {
        Notification {
            text: error.to_text(),
            severity: Severity::Error,
            duration_ms: NOTIFICATION_MS,
        }
    }
}

/// Why the buffer is written.
#[derive(Clone, Copy, Debug, PartialEq, Eq, Structural)]
pub enum WriteKind {
    /// To keep the document where it is.
    Save,
    /// To keep the document in a file that becomes the current one.
    SaveAs,
    /// To hand the document out in another representation: the content to
    /// write is the rendering of the buffer.
    Export,
}

/// Why a file is read.
#[derive(Clone, Copy, Debug, PartialEq, Eq, Structural)]
pub enum ReadKind {
    /// To work on the file.
    Open,
    /// To start a new document from its content.
    Template,
}

/// What the host has to do after a handler returns.
#[derive(Debug, PartialEq, Eq)]
pub enum Effect {
    /// Nothing.
    Nothing,
    /// Write `content` to the file at `path`, then call `write_finished`.
    Write { path: String, content: String, kind: WriteKind },
    /// Read the file at `path`, then call `read_finished`.
    Read { path: String, reason: ReadKind },
    /// Read the children of `directory`, then call `directory_listed`.
    List { directory: String },
    /// Ask the user for a path, then call `path_picked`.
    PickPath { purpose: Action },
    /// Show a notification.
    Notify { notification: Notification },
}

/// The mathematical value of an [`Effect`].
pub ghost enum EffectView {
    Nothing,
    Write { path: Seq<char>, content: Seq<char>, kind: WriteKind },
    Read { path: Seq<char>, reason: ReadKind },
    List { directory: Seq<char> },
    PickPath { purpose: Action },
    Notify { notification: NotificationView },
}

impl View for Effect {
    type V = EffectView;

    open spec fn view(&self) -> EffectView {
        match self {
            Effect::Nothing => EffectView::Nothing,
            Effect::Write { path, content, kind } => EffectView::Write {
                path: path@,
                content: content@,
                kind: *kind,
            },
            Effect::Read { path, reason } => EffectView::Read { path: path@, reason: *reason },
            Effect::List { directory } => EffectView::List { directory: directory@ },
            Effect::PickPath { purpose } => EffectView::PickPath { purpose: *purpose },
            Effect::Notify { notification } => EffectView::Notify { notification: notification@ },
        }
    }
}

impl EffectView {
    /// The effect of an operation that unsaved changes have stopped: the
    /// warning is shown and nothing else happens.
    pub open spec fn rejected() -> EffectView {
        EffectView::Notify { notification: NotificationView::unsaved() }
    }
}

/// The text of an optional string.
pub open spec fn text_of(s: Option<String>) -> Option<Seq<char>> {
    match s {
        Some(t) => Some(t@),
        None => None,
    }
}

/// The editing session.
pub struct MdEdit {
    current_file: Option<String>,
    files: FilesManager,
    editor: Editor,
    command_input: String,
    state: Panel,
}

/// The mathematical value of a session.
pub ghost struct MdEditView {
    /// The file that the buffer belongs to, if any.
    pub current_file: Option<Seq<char>>,
    /// The navigator: the current directory and its listing.
    pub files: FilesView,
    /// The buffer and its tracker.
    pub editor: EditorView,
    /// What is typed into the command panel.
    pub command_input: Seq<char>,
    /// The panel that holds the focus.
    pub state: Panel,
}

impl View for MdEdit {
    type V = MdEditView;

    closed spec fn view(&self) -> MdEditView {
        MdEditView {
            current_file: text_of(self.current_file),
            files: self.files@,
            editor: self.editor@,
            command_input: self.command_input@,
            state: self.state,
        }
    }
}

impl MdEditView {
    /// The listing belongs to the current directory and the tracker to the
    /// buffer.
    pub open spec fn wf(self) -> bool {
        self.files.wf() && self.editor.wf()
    }

    /// Whether the buffer holds unsaved changes.
    pub open spec fn dirty(self) -> bool {
        self.editor.dirty()
    }

    /// The session with `text` in the command panel.
    pub open spec fn typed(self, text: Seq<char>) -> MdEditView {
        MdEditView { command_input: text, ..self }
    }

    /// The session with the focus moved one panel in direction `m`.
    pub open spec fn refocused(self, m: FocusMove) -> MdEditView {
        MdEditView { state: self.state.moved(m), ..self }
    }

    /// The session after the text panel reported `content`.
    pub open spec fn edited(self, content: Seq<char>) -> MdEditView {
        MdEditView { editor: self.editor.edited(content), ..self }
    }

    /// The session with an empty buffer that belongs to no file.
    pub open spec fn cleared(self) -> MdEditView {
        MdEditView { current_file: None, editor: self.editor.replaced(Seq::empty()), ..self }
    }

    /// The session after a write of `content` to `path` succeeded.
    ///
    /// After a save the written content is the new baseline. After an
    /// export, where what was written is a rendering, the buffer as it
    /// stands is the new baseline. A `SaveAs` makes `path` the current
    /// file.
    pub open spec fn written(self, path: Seq<char>, content: Seq<char>, kind: WriteKind) -> MdEditView {
        MdEditView {
            current_file: if kind == WriteKind::SaveAs {
                Some(path)
            } else {
                self.current_file
            },
            editor: if kind == WriteKind::Export {
                self.editor.saved(self.editor.content)
            } else {
                self.editor.saved(content)
            },
            ..self
        }
    }

    /// The session after `content` was read from `path` into a clean
    /// buffer: an opened file becomes the current one, a template leaves
    /// the new document without a file.
    pub open spec fn loaded(self, path: Seq<char>, content: Seq<char>, reason: ReadKind) -> MdEditView {
        MdEditView {
            current_file: if reason == ReadKind::Open {
                Some(path)
            } else {
                None
            },
            editor: self.editor.replaced(content),
            ..self
        }
    }

    /// What is asked of the host when the directory `dir`, taken as it is
    /// written, is to be shown: to read it, unless unsaved changes stop
    /// the move.
    pub open spec fn directory_requested(self, dir: Seq<char>) -> EffectView {
        if self.dirty() {
            EffectView::rejected()
        } else {
            EffectView::List { directory: dir }
        }
    }

    /// What is asked of the host when the file at `path` is to be opened:
    /// to read it, unless unsaved changes stop the move.
    pub open spec fn file_requested(self, path: Seq<char>) -> EffectView {
        if self.dirty() {
            EffectView::rejected()
        } else {
            EffectView::Read { path, reason: ReadKind::Open }
        }
    }

    /// What is asked of the host when the entry at `index` of the listing
    /// is selected.
    ///
    /// The entry `..` leads to the parent of the current directory, and
    /// nowhere at the root; a directory is entered; a file is opened.
    pub open spec fn selected(self, index: int) -> EffectView {
        if 0 <= index < self.files.files.len() {
            let entry = self.files.files[index];
            if entry.path == parent_entry().path {
                match parent_of(self.files.current_dir) {
                    Some(dir) => self.directory_requested(dir),
                    None => EffectView::Nothing,
                }
            } else if entry.kind == EntryKind::Directory {
                self.directory_requested(entry.path)
            } else {
                self.file_requested(entry.path)
            }
        } else {
            EffectView::Nothing
        }
    }
}

impl MdEdit {
    /// What is asked of the host so that the directory written as `dir`
    /// can be shown: to read the directory that `dir` stands for once a
    /// leading tilde is expanded. A directory without a tilde prefix is
    /// read as it is written.
    ///
    /// This is also the request for the first read, before a session
    /// exists: the host reads the directory named here and hands what it
    /// found to `new`.
    pub fn read_request(dir: &str) -> (e: Effect)
        ensures
            e@ matches EffectView::List { directory } && may_expand_to(dir@, directory),
            !has_tilde_prefix(dir@) ==> e@ == (EffectView::List { directory: dir@ }),
    {
        Effect::List { directory: expand_tilde(dir) }
    }

    /// A session in the directory written as `current_dir`, of which the
    /// host found `children`: the buffer is empty and belongs to no file,
    /// nothing is unsaved, and the editor panel holds the focus.
    ///
    /// A leading tilde in `current_dir` is expanded; the session keeps the
    /// expanded directory and builds the paths of the listing from it.
    pub fn new(current_dir: String, include_hidden_dirs: bool, children: Vec<DirChild>) -> (s:
        MdEdit)
        ensures
            s@.wf(),
            s@.current_file is None,
            may_expand_to(current_dir@, s@.files.current_dir),
            !has_tilde_prefix(current_dir@) ==> s@.files.current_dir == current_dir@,
            s@.files.include_hidden_dirs == include_hidden_dirs,
            s@.files.source == children.deep_view(),
            s@.editor == EditorView::empty(),
            s@.command_input == Seq::<char>::empty(),
            s@.state == Panel::Editor,
            !s@.dirty(),
    {
        MdEdit {
            current_file: None,
            files: FilesManager::new(current_dir, include_hidden_dirs, children),
            editor: Editor::new(),
            command_input: String::new(),
            state: Panel::initial(),
        }
    }

    /// The file that the buffer belongs to, if any.
    pub fn current_file(&self) -> (f: Option<&str>)
        ensures
            match f {
                Some(t) => self@.current_file == Some(t@),
                None => self@.current_file is None,
            },
    {
        match &self.current_file {
            Some(f) => Some(f.as_str()),
            None => None,
        }
    }

    /// The directory that the navigator shows.
    pub fn current_directory(&self) -> (d: &str)
        ensures
            d@ == self@.files.current_dir,
    {
        self.files.current_dir()
    }

    /// The listing of the current directory.
    pub fn files(&self) -> (l: &Vec<DirectoryEntry>)
        ensures
            l.deep_view() == self@.files.files,
            self@.files.wf(),
    {
        self.files.files()
    }

    /// The navigator.
    pub fn files_manager(&self) -> (m: &FilesManager)
        ensures
            m@ == self@.files,
    {
        &self.files
    }

    /// The text in the buffer.
    pub fn content(&self) -> (c: &str)
        ensures
            c@ == self@.editor.content,
    {
        self.editor.content()
    }

    /// Whether the buffer holds unsaved changes.
    pub fn is_dirty(&self) -> (r: bool)
        ensures
            r == self@.dirty(),
            self@.editor.wf(),
    {
        self.editor.is_dirty()
    }

    /// The panel that holds the focus.
    pub fn state(&self) -> (p: Panel)
        ensures
            p == self@.state,
    {
        self.state
    }

    /// What is typed into the command panel.
    pub fn command_input(&self) -> (c: &str)
        ensures
            c@ == self@.command_input,
    {
        self.command_input.as_str()
    }

    /// Takes what the user typed into the command panel.
    pub fn set_command_input(&mut self, text: String)
        ensures
            final(self)@ == old(self)@.typed(text@),
    {
        self.command_input = text;
    }

    /// Moves the focus one panel in direction `m`. Nothing else changes.
    pub fn move_focus(&mut self, m: FocusMove)
        ensures
            final(self)@ == old(self)@.refocused(m),
    {
        self.state = self.state.step(m);
    }

    /// Takes the text that the text panel reports after a change.
    pub fn edit(&mut self, content: String)
        ensures
            final(self)@ == old(self)@.edited(content@),
            fingerprint_of(content@) != old(self)@.editor.tracker.current && !fingerprint_of(
                content@,
            ).is_empty() ==> final(self)@.dirty(),
    {
        self.editor.edit(content);
    }

    /// Empties the buffer and parts it from its file, unless it holds
    /// unsaved changes. Returns whether it did.
    pub fn reset(&mut self) -> (done: bool)
        ensures
            done == !old(self)@.dirty(),
            done ==> final(self)@ == old(self)@.cleared(),
            !done ==> final(self)@ == old(self)@,
    {
        if self.editor.replace(String::new()) {
            self.current_file = None;
            true
        } else {
            false
        }
    }

    /// Asks for the directory written as `dir` to be shown.
    ///
    /// A leading tilde in `dir` is expanded, so that the host is handed the
    /// name of the directory to read; what the expansion gives is not
    /// fixed by the text alone, so the answer is stated for whatever it
    /// gave. The session does not change: the directory and its listing
    /// change together in `directory_listed`, once the host has read the
    /// directory. While the buffer holds unsaved changes the move is
    /// refused with a warning, as the opening of a file is.
    pub fn change_directory(&self, dir: String) -> (e: Effect)
        ensures
            exists|expanded: Seq<char>| #[trigger]
                may_expand_to(dir@, expanded) && e@ == self@.directory_requested(expanded),
            !has_tilde_prefix(dir@) ==> e@ == self@.directory_requested(dir@),
    {
        let expanded = expand_tilde(dir.as_str());
        assert(may_expand_to(dir@, expanded@));
        self.show_directory(expanded)
    }

    /// Asks for the directory `dir` to be shown, with `dir` taken as it is
    /// written: the name of a directory in which every tilde that stands
    /// for the home directory has been expanded already.
    ///
    /// The session does not change. While the buffer holds unsaved changes
    /// the move is refused with a warning.
    pub fn show_directory(&self, dir: String) -> (e: Effect)
        ensures
            e@ == self@.directory_requested(dir@),
    {
        if self.editor.is_dirty() {
            Effect::Notify { notification: Notification::unsaved() }
        } else {
            Effect::List { directory: dir }
        }
    }

    /// Asks for the file at `path` to be opened.
    ///
    /// The session does not change: the buffer is replaced in
    /// `read_finished`, once the host has read the file. While the buffer
    /// holds unsaved changes the request is refused with a warning.
    pub fn open_file(&self, path: String) -> (e: Effect)
        ensures
            e@ == self@.file_requested(path@),
    {
        if self.editor.is_dirty() {
            Effect::Notify { notification: Notification::unsaved() }
        } else {
            Effect::Read { path, reason: ReadKind::Open }
        }
    }

    /// Handles the selection of the entry at `index` of the listing.
    ///
    /// The session does not change. A position past the listing selects
    /// nothing. The paths of the listing are built from the directory as
    /// it was read, so they are handed on as they are.
    pub fn select(&self, index: usize) -> (e: Effect)
        ensures
            e@ == self@.selected(index as int),
    {
        match self.files.entry(index) {
            None => Effect::Nothing,
            Some(entry) => {
                if entry.is_parent() {
                    match parent(self.files.current_dir()) {
                        Some(dir) => self.show_directory(dir),
                        None => Effect::Nothing,
                    }
                } else {
                    match entry.kind {
                        EntryKind::Directory => self.show_directory(entry.path.clone()),
                        EntryKind::File => self.open_file(entry.path.clone()),
                    }
                }
            },
        }
    }

    /// Takes the outcome of a write of `content` to `path`.
    ///
    /// After a successful save the written content is the baseline of the
    /// tracker, so that the buffer is clean if it still holds what was
    /// written. After a successful export, where the written content is a
    /// rendering, the buffer as it stands is the baseline and nothing is
    /// unsaved. A `SaveAs` makes `path` the current file. The answer is the
    /// notice that the file was saved. After a failure the session is as it
    /// was and the failure is handed on.
    pub fn write_finished(
        &mut self,
        path: String,
        content: &str,
        kind: WriteKind,
        outcome: Result<(), String>,
    ) -> (r: MdResult<Effect>)
        ensures
            match outcome {
                Ok(_) => final(self)@ == old(self)@.written(path@, content@, kind) && (r matches Ok(
                    e,
                ) && e@ == (EffectView::Notify { notification: NotificationView::saved(path@) })),
                Err(reason) => final(self)@ == old(self)@ && (r matches Err(e) && e@
                    == MdErrorView::Io(reason@)),
            },
            outcome is Ok && (kind == WriteKind::Export || content@ == old(self)@.editor.content)
                ==> !final(self)@.dirty(),
    {
        match outcome {
            Ok(_) => {
                match kind {
                    WriteKind::Export => self.editor.kept(),
                    _ => self.editor.saved(content),
                }
                let notification = Notification::saved(path.as_str());
                match kind {
                    WriteKind::SaveAs => {
                        self.current_file = Some(path);
                    },
                    _ => {},
                }
                Ok(Effect::Notify { notification })
            },
            Err(reason) => Err(MdError::Io(reason)),
        }
    }

    /// Takes the outcome of a read of the file at `path`.
    ///
    /// After a success the content replaces the buffer and counts as saved;
    /// an opened file becomes the current one, and a template leaves the
    /// document without a file. While the buffer holds unsaved changes it
    /// is not replaced: the session stays as it was and the answer is the
    /// warning. After a failure the session is as it was and the failure
    /// is handed on.
    pub fn read_finished(&mut self, path: String, reason: ReadKind, outcome: Result<String, String>) -> (r:
        MdResult<Effect>)
        ensures
            match outcome {
                Ok(content) => if old(self)@.dirty() {
                    final(self)@ == old(self)@ && (r matches Ok(e) && e@ == EffectView::rejected())
                } else {
                    final(self)@ == old(self)@.loaded(path@, content@, reason) && (r matches Ok(e)
                        && e@ == EffectView::Nothing)
                },
                Err(reason) => final(self)@ == old(self)@ && (r matches Err(e) && e@
                    == MdErrorView::Io(reason@)),
            },
            final(self)@.editor.content != old(self)@.editor.content ==> !old(self)@.dirty(),
    {
        match outcome {
            Ok(content) => {
                if self.editor.replace(content) {
                    match reason {
                        ReadKind::Open => {
                            self.current_file = Some(path);
                        },
                        ReadKind::Template => {
                            self.current_file = None;
                        },
                    }
                    Ok(Effect::Nothing)
                } else {
                    Ok(Effect::Notify { notification: Notification::unsaved() })
                }
            },
            Err(reason) => Err(MdError::Io(reason)),
        }
    }

    /// Takes the outcome of reading the directory written as `directory`.
    ///
    /// After a success the navigator shows the directory with the listing
    /// made of the children that were found: a leading tilde in
    /// `directory` is expanded, and the expanded directory and the listing
    /// built from it change together. A name that `read_request` or
    /// `change_directory` handed out is expanded already. After a failure
    /// the session is as it was and the failure is handed on. The editor is
    /// never touched.
    pub fn directory_listed(&mut self, directory: String, outcome: Result<Vec<DirChild>, String>) -> (r:
        MdResult<Effect>)
        ensures
            final(self)@.files.wf(),
            final(self)@ == (MdEditView { files: final(self)@.files, ..old(self)@ }),
            match outcome {
                Ok(found) => final(self)@.files.shows(
                    old(self)@.files,
                    directory@,
                    found.deep_view(),
                ) && (!has_tilde_prefix(directory@) ==> final(self)@.files.current_dir
                    == directory@) && (r matches Ok(e) && e@ == EffectView::Nothing),
                Err(reason) => final(self)@ == old(self)@ && (r matches Err(e) && e@
                    == MdErrorView::Io(reason@)),
            },
    {
        match self.files.update_current_dir(directory, outcome) {
            Ok(_) => Ok(Effect::Nothing),
            Err(e) => Err(e),
        }
    }
}

/// The tracker follows the buffer through every change of the session:
/// an edit, a reset, a finished write and a finished read each leave a
/// well-formed session well-formed.
pub proof fn lemma_session_stays_well_formed(
    s: MdEditView,
    path: Seq<char>,
    content: Seq<char>,
    written_as: WriteKind,
    read_as: ReadKind,
)
    requires
        s.wf(),
    ensures
        s.edited(content).wf(),
        s.cleared().wf(),
        s.written(path, content, written_as).wf(),
        s.loaded(path, content, read_as).wf(),
{
}

/// Unsaved changes bar the way to another file until a write takes them in.
///
/// After an edit that changes the fingerprint of the buffer to one that is
/// not empty, the session is dirty: selecting a file of the listing is
/// answered with the warning, and so is every request to open a file.
/// Once a write of the buffer has succeeded, be it a save, a save under a
/// new name or an export, the session is clean and the same selection asks
/// for the file to be read.
pub proof fn lemma_dirty_gate(
    s: MdEditView,
    content: Seq<char>,
    index: int,
    other: Seq<char>,
    target: Seq<char>,
    kind: WriteKind,
)
    requires
        fingerprint_of(content) != s.editor.tracker.current,
        !fingerprint_of(content).is_empty(),
        0 <= index < s.files.files.len(),
        s.files.files[index].kind == EntryKind::File,
        s.files.files[index].path != parent_entry().path,
    ensures
        s.edited(content).dirty(),
        s.edited(content).selected(index) == EffectView::rejected(),
        s.edited(content).file_requested(other) == EffectView::rejected(),
        !s.edited(content).written(target, content, kind).dirty(),
        s.edited(content).written(target, content, kind).selected(index) == (EffectView::Read {
            path: s.files.files[index].path,
            reason: ReadKind::Open,
        }),
        s.edited(content).written(target, content, kind).file_requested(other) == (
        EffectView::Read { path: other, reason: ReadKind::Open }),
{
}

/// What a save hands to the host comes back unchanged from a load.
///
/// The write that `Save` asks for carries the buffer as it is. After the
/// write has succeeded nothing is unsaved. Where a read of the same file
/// then gives back what was written, the buffer after the load holds the
/// content it held before the save, the file is the current one, and
/// nothing is unsaved.
pub proof fn lemma_save_then_load_keeps_content(s: MdEditView, path: Seq<char>)
    requires
        s.wf(),
    ensures
        crate::actions::save_effect(s, Some(path)) == (EffectView::Write {
            path,
            content: s.editor.content,
            kind: WriteKind::Save,
        }),
        !s.written(path, s.editor.content, WriteKind::Save).dirty(),
        s.written(path, s.editor.content, WriteKind::Save).loaded(
            path,
            s.editor.content,
            ReadKind::Open,
        ).editor.content == s.editor.content,
        s.written(path, s.editor.content, WriteKind::Save).loaded(
            path,
            s.editor.content,
            ReadKind::Open,
        ).current_file == Some(path),
        !s.written(path, s.editor.content, WriteKind::Save).loaded(
            path,
            s.editor.content,
            ReadKind::Open,
        ).dirty(),
{
}

} // verus!
