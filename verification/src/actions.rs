//! The actions that a chord or a button can ask for.

use vstd::prelude::*;
use crate::error::{MdError, MdErrorView, MdResult};
use crate::path::{export_path, export_target};
use crate::session::{Effect, EffectView, MdEdit, MdEditView, ReadKind, WriteKind};
use crate::text::same_text;
use crate::trusted::{render_html, rendered_html};

verus! {

/// One of the five things the editor can be asked to do with a document.
#[derive(Clone, Copy, Debug, PartialEq, Eq, Structural)]
pub enum Action {
    /// Write the buffer to the current file.
    Save,
    /// Write the buffer to a new file and go on working there.
    SaveAs,
    /// Start a new document.
    New,
    /// Read a file into the buffer.
    Load,
    /// Write the buffer in another representation.
    Export,
}

/// The action with the given name, if there is one. Names are matched
/// exactly, letter case included.
pub open spec fn action_named(name: Seq<char>) -> Option<Action> {
    if name == "save"@ {
        Some(Action::Save)
    } else if name == "SaveAs"@ {
        Some(Action::SaveAs)
    } else if name == "New"@ {
        Some(Action::New)
    } else if name == "Load"@ {
        Some(Action::Load)
    } else if name == "Export"@ {
        Some(Action::Export)
    } else {
        None
    }
}

/// The failure that an unknown action name gives.
pub open spec fn unknown_action() -> MdErrorView {
    MdErrorView::InvalidAction("Invalid action name"@)
}

impl Action {
    /// The action with the given name.
    ///
    /// Fails with `InvalidAction` for every name but `save`, `SaveAs`,
    /// `New`, `Load` and `Export`.
    pub fn from_name(name: &str) -> (r: MdResult<Action>)
        ensures
            match action_named(name@) {
                Some(action) => r == Ok::<Action, MdError>(action),
                None => r matches Err(e) && e@ == unknown_action(),
            },
    {
        if same_text(name, "save") {
            Ok(Action::Save)
        } else if same_text(name, "SaveAs") {
            Ok(Action::SaveAs)
        } else if same_text(name, "New") {
            Ok(Action::New)
        } else if same_text(name, "Load") {
            Ok(Action::Load)
        } else if same_text(name, "Export") {
            Ok(Action::Export)
        } else {
            Err(MdError::InvalidAction(String::from_str("Invalid action name")))
        }
    }

    /// The name under which `from_name` finds the action.
    pub fn name(self) -> (n: &'static str)
        ensures
            action_named(n@) == Some(self),
    {
        proof {
            reveal_strlit("save");
            reveal_strlit("SaveAs");
            reveal_strlit("New");
            reveal_strlit("Load");
            reveal_strlit("Export");
        }
        match self {
            Action::Save => "save",
            Action::SaveAs => {
                assert("SaveAs"@.len() != "save"@.len());
                "SaveAs"
            },
            Action::New => {
                assert("New"@.len() == 3);
                "New"
            },
            Action::Load => {
                assert("Load"@[0] == 'L');
                assert("save"@[0] == 's');
                "Load"
            },
            Action::Export => {
                assert("Export"@[0] == 'E');
                assert("SaveAs"@[0] == 'S');
                "Export"
            },
        }
    }
}

/// What `Save` asks of the host: to write the buffer to `path` where one
/// is given, else to the current file, and to ask for a path where the
/// document has no file yet.
pub open spec fn save_effect(s: MdEditView, path: Option<Seq<char>>) -> EffectView {
    match path {
        Some(p) => EffectView::Write { path: p, content: s.editor.content, kind: WriteKind::Save },
        None => match s.current_file {
            Some(f) => EffectView::Write {
                path: f,
                content: s.editor.content,
                kind: WriteKind::Save,
            },
            None => EffectView::PickPath { purpose: Action::Save },
        },
    }
}

/// What `SaveAs` asks of the host: to write the buffer to `path`, and to
/// ask for a path where none is given.
pub open spec fn save_as_effect(s: MdEditView, path: Option<Seq<char>>) -> EffectView {
    match path {
        Some(p) => EffectView::Write {
            path: p,
            content: s.editor.content,
            kind: WriteKind::SaveAs,
        },
        None => EffectView::PickPath { purpose: Action::SaveAs },
    }
}

/// What `Export` asks of the host: to write the buffer, rendered to HTML,
/// to `path` where one is given, else to the path derived from the current
/// file, and to ask for a path where the document has no file.
pub open spec fn export_effect(s: MdEditView, path: Option<Seq<char>>) -> EffectView {
    match path {
        Some(p) => EffectView::Write {
            path: p,
            content: rendered_html(s.editor.content),
            kind: WriteKind::Export,
        },
        None => match s.current_file {
            Some(f) => EffectView::Write {
                path: export_target(f),
                content: rendered_html(s.editor.content),
                kind: WriteKind::Export,
            },
            None => EffectView::PickPath { purpose: Action::Export },
        },
    }
}

/// What `Load` asks of the host: nothing but a warning while the buffer
/// holds unsaved changes; else to read the file at `path`, and to ask for
/// a path where none is given.
pub open spec fn load_effect(s: MdEditView, path: Option<Seq<char>>) -> EffectView {
    if s.dirty() {
        EffectView::rejected()
    } else {
        match path {
            Some(p) => EffectView::Read { path: p, reason: ReadKind::Open },
            None => EffectView::PickPath { purpose: Action::Load },
        }
    }
}

/// What `New` does: nothing but a warning while the buffer holds unsaved
/// changes; else it asks for the template at `path` to be read, or empties
/// the buffer at once where no template is given.
pub open spec fn new_outcome(s: MdEditView, path: Option<Seq<char>>) -> (MdEditView, EffectView) {
    if s.dirty() {
        (s, EffectView::rejected())
    } else {
        match path {
            Some(p) => (s, EffectView::Read { path: p, reason: ReadKind::Template }),
            None => (s.cleared(), EffectView::Nothing),
        }
    }
}

/// The session and the effect that `action` leaves when it runs with
/// `path`.
pub open spec fn acted(s: MdEditView, action: Action, path: Option<Seq<char>>) -> (
    MdEditView,
    EffectView,
) {
    match action {
        Action::Save => (s, save_effect(s, path)),
        Action::SaveAs => (s, save_as_effect(s, path)),
        Action::New => new_outcome(s, path),
        Action::Load => (s, load_effect(s, path)),
        Action::Export => (s, export_effect(s, path)),
    }
}

/// The handler of `Save`.
pub fn save(path: Option<String>, md_edit: &MdEdit) -> (e: Effect)
    ensures
        e@ == save_effect(md_edit@, crate::session::text_of(path)),
{
    let target = match path {
        Some(p) => Some(p),
        None => match md_edit.current_file() {
            Some(f) => Some(String::from_str(f)),
            None => None,
        },
    };
    match target {
        Some(p) => Effect::Write {
            path: p,
            content: String::from_str(md_edit.content()),
            kind: WriteKind::Save,
        },
        None => Effect::PickPath { purpose: Action::Save },
    }
}

/// The handler of `SaveAs`.
pub fn save_as(path: Option<String>, md_edit: &MdEdit) -> (e: Effect)
    ensures
        e@ == save_as_effect(md_edit@, crate::session::text_of(path)),
{
    match path {
        Some(p) => Effect::Write {
            path: p,
            content: String::from_str(md_edit.content()),
            kind: WriteKind::SaveAs,
        },
        None => Effect::PickPath { purpose: Action::SaveAs },
    }
}

/// The handler of `New`.
pub fn new(path: Option<String>, md_edit: &mut MdEdit) -> (e: Effect)
    ensures
        (final(md_edit)@, e@) == new_outcome(old(md_edit)@, crate::session::text_of(path)),
{
    if md_edit.is_dirty() {
        return Effect::Notify { notification: crate::session::Notification::unsaved() };
    }
    match path {
        Some(p) => Effect::Read { path: p, reason: ReadKind::Template },
        None => {
            md_edit.reset();
            Effect::Nothing
        },
    }
}

/// The handler of `Load`. The session does not change.
pub fn load(path: Option<String>, md_edit: &mut MdEdit) -> (e: Effect)
    ensures
        final(md_edit)@ == old(md_edit)@,
        e@ == load_effect(old(md_edit)@, crate::session::text_of(path)),
{
    if md_edit.is_dirty() {
        return Effect::Notify { notification: crate::session::Notification::unsaved() };
    }
    match path {
        Some(p) => Effect::Read { path: p, reason: ReadKind::Open },
        None => Effect::PickPath { purpose: Action::Load },
    }
}

/// The handler of `Export`. The session does not change: neither the
/// buffer nor what is known of its changes.
pub fn export(path: Option<String>, md_edit: &mut MdEdit) -> (e: Effect)
    ensures
        final(md_edit)@ == old(md_edit)@,
        e@ == export_effect(old(md_edit)@, crate::session::text_of(path)),
{
    let target = match path {
        Some(p) => Some(p),
        None => match md_edit.current_file() {
            Some(f) => Some(export_path(f)),
            None => None,
        },
    };
    match target {
        Some(p) => Effect::Write {
            path: p,
            content: render_html(md_edit.content()),
            kind: WriteKind::Export,
        },
        None => Effect::PickPath { purpose: Action::Export },
    }
}

/// Takes the answer of the path picker that was asked on behalf of
/// `purpose`: with a path the action runs on it, and a cancelled dialog
/// changes nothing.
pub fn path_picked(purpose: Action, choice: Option<String>, md_edit: &mut MdEdit) -> (e: Effect)
    ensures
        match choice {
            Some(p) => (final(md_edit)@, e@) == acted(old(md_edit)@, purpose, Some(p@)),
            None => final(md_edit)@ == old(md_edit)@ && e@ == EffectView::Nothing,
        },
{
    match choice {
        Some(p) => purpose.run(Some(p), md_edit),
        None => Effect::Nothing,
    }
}

impl Action {
    /// Runs the handler of the action on the session, with the path that
    /// applies, if any.
    pub fn run(self, path: Option<String>, md_edit: &mut MdEdit) -> (e: Effect)
        ensures
            (final(md_edit)@, e@) == acted(old(md_edit)@, self, crate::session::text_of(path)),
    {
        match self {
            Action::Save => save(path, md_edit),
            Action::SaveAs => save_as(path, md_edit),
            Action::New => new(path, md_edit),
            Action::Load => load(path, md_edit),
            Action::Export => export(path, md_edit),
        }
    }
}

/// No action replaces the buffer while it holds unsaved changes: a dirty
/// session comes out of every action as it went in. Of all actions only
/// `New` without a template touches the session at all.
pub proof fn lemma_actions_keep_unsaved_work(s: MdEditView, action: Action, path: Option<Seq<char>>)
    ensures
        s.dirty() ==> acted(s, action, path).0 == s,
        acted(s, action, path).0.editor.content != s.editor.content ==> !s.dirty(),
        acted(s, action, path).0 != s ==> action == Action::New && path is None && !s.dirty(),
        s.wf() ==> acted(s, action, path).0.wf(),
{
}

} // verus!
