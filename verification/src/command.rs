//! The command line of the editor: reading a line into a [`Command`] and
//! carrying the command out on the session.

use vstd::prelude::*;
use crate::actions::{load, load_effect, new, new_outcome, save, save_effect};
use crate::error::{result_view, MdError, MdErrorView, MdResult};
use crate::path::{resolve, resolved};
use crate::session::{Effect, EffectView, MdEdit, MdEditView};
use crate::text::{same_text, split_whitespace, tokens};
use crate::trusted::{expand_tilde, has_tilde_prefix, may_expand_to};

verus! {

/// A command typed into the command panel.
#[derive(Debug, PartialEq, Eq)]
pub enum Command {
    /// Write the buffer to the named file.
    Save(String),
    /// Load the named file into the buffer.
    Open(String),
    /// Start an empty document.
    New,
    /// Make the named directory the current one.
    SetDirectory(String),
    /// A line that is no command.
    Invalid,
}

/// The mathematical value of a [`Command`].
pub ghost enum CommandView {
    Save(Seq<char>),
    Open(Seq<char>),
    New,
    SetDirectory(Seq<char>),
    Invalid,
}

impl View for Command {
    type V = CommandView;

    open spec fn view(&self) -> CommandView {
        match self {
            Command::Save(p) => CommandView::Save(p@),
            Command::Open(p) => CommandView::Open(p@),
            Command::New => CommandView::New,
            Command::SetDirectory(p) => CommandView::SetDirectory(p@),
            Command::Invalid => CommandView::Invalid,
        }
    }
}

/// Whether `word` is one of the keywords that take a path.
pub open spec fn takes_path(word: Seq<char>) -> bool {
    word == "save"@ || word == "open"@ || word == "setdir"@
}

/// Whether `word` is one of the four keywords.
pub open spec fn is_keyword(word: Seq<char>) -> bool {
    word == "new"@ || takes_path(word)
}

/// The command that a line stands for.
///
/// The first word selects the command. `save`, `open` and `setdir` take
/// exactly one more word, the path; `new` takes none and ignores what
/// follows. Every other line is `Invalid`.
pub open spec fn parsed(line: Seq<char>) -> CommandView {
    let words = tokens(line);
    if words.len() == 0 {
        CommandView::Invalid
    } else if words[0] == "new"@ {
        CommandView::New
    } else if words.len() != 2 {
        CommandView::Invalid
    } else if words[0] == "save"@ {
        CommandView::Save(words[1])
    } else if words[0] == "open"@ {
        CommandView::Open(words[1])
    } else if words[0] == "setdir"@ {
        CommandView::SetDirectory(words[1])
    } else {
        CommandView::Invalid
    }
}

impl CommandView {
    /// The path that the command names, as it was typed; empty for a
    /// command that names none.
    pub open spec fn path_argument(self) -> Seq<char> {
        match self {
            CommandView::Save(p) => p,
            CommandView::Open(p) => p,
            CommandView::SetDirectory(p) => p,
            CommandView::New => Seq::empty(),
            CommandView::Invalid => Seq::empty(),
        }
    }
}

/// The failure that an invalid command gives.
pub open spec fn invalid_command() -> MdErrorView {
    MdErrorView::InvalidCommand("Invalid command"@)
}

/// The session and the answer that `command` leaves, where `expanded` is
/// the path it names after the expansion of a leading tilde.
///
/// The expanded path is read in the current directory. `Save` asks for the
/// buffer to be written there, `Open` for the file there to be read and
/// `SetDirectory` for the directory there to be shown, the last two only
/// while nothing is unsaved. `New` empties the buffer under the same
/// condition. `Invalid` changes nothing and fails.
pub open spec fn executed(s: MdEditView, command: CommandView, expanded: Seq<char>) -> (
    MdEditView,
    Result<EffectView, MdErrorView>,
) {
    let target = resolved(s.files.current_dir, expanded);
    match command {
        CommandView::Save(_) => (s, Ok(save_effect(s, Some(target)))),
        CommandView::Open(_) => (s, Ok(load_effect(s, Some(target)))),
        CommandView::New => (new_outcome(s, None).0, Ok(new_outcome(s, None).1)),
        CommandView::SetDirectory(_) => (s, Ok(s.directory_requested(target))),
        CommandView::Invalid => (s, Err(invalid_command())),
    }
}

/// Whether `after` and `answer` are the session and the answer that
/// `command` leaves of the session `before`, where the expansion of a
/// leading tilde in its path gave `expanded`.
pub open spec fn carries_out(
    before: MdEditView,
    command: CommandView,
    expanded: Seq<char>,
    after: MdEditView,
    answer: Result<EffectView, MdErrorView>,
) -> bool {
    (after, answer) == executed(before, command, expanded)
}

impl Command {
    /// Carries the command out on the session.
    ///
    /// A leading tilde in the path of the command is expanded to the home
    /// directory of the user first; what the expansion gives is not fixed
    /// by the path alone, so the answer is stated for whatever it gave. A
    /// path without a tilde prefix is taken as it is.
    pub fn execute(&self, md_edit: &mut MdEdit) -> (r: MdResult<Effect>)
        ensures
            exists|expanded: Seq<char>| #[trigger]
                may_expand_to(self@.path_argument(), expanded) && carries_out(
                    old(md_edit)@,
                    self@,
                    expanded,
                    final(md_edit)@,
                    result_view(r),
                ),
            !has_tilde_prefix(self@.path_argument()) ==> carries_out(
                old(md_edit)@,
                self@,
                self@.path_argument(),
                final(md_edit)@,
                result_view(r),
            ),
            self@ == CommandView::Invalid ==> final(md_edit)@ == old(md_edit)@ && r is Err,
    {
        let expanded = match self {
            Command::Save(p) => expand_tilde(p.as_str()),
            Command::Open(p) => expand_tilde(p.as_str()),
            Command::SetDirectory(p) => expand_tilde(p.as_str()),
            Command::New => String::new(),
            Command::Invalid => String::new(),
        };
        assert(may_expand_to(self@.path_argument(), expanded@));
        self.execute_expanded(expanded.as_str(), md_edit)
    }

    /// Carries the command out on the session, with `expanded` for the path
    /// of the command after the expansion of a leading tilde.
    pub fn execute_expanded(&self, expanded: &str, md_edit: &mut MdEdit) -> (r: MdResult<Effect>)
        ensures
            carries_out(old(md_edit)@, self@, expanded@, final(md_edit)@, result_view(r)),
    {
        match self {
            Command::Save(_) => {
                let target = resolve(md_edit.current_directory(), expanded);
                Ok(save(Some(target), md_edit))
            },
            Command::Open(_) => {
                let target = resolve(md_edit.current_directory(), expanded);
                Ok(load(Some(target), md_edit))
            },
            Command::New => Ok(new(None, md_edit)),
            Command::SetDirectory(_) => {
                let target = resolve(md_edit.current_directory(), expanded);
                Ok(md_edit.show_directory(target))
            },
            Command::Invalid => Err(MdError::InvalidCommand(String::from_str("Invalid command"))),
        }
    }

    /// Reads a line into a command.
    ///
    /// A line without a known keyword, or without the path that its keyword
    /// asks for, gives `Invalid`.
    pub fn parse(line: &str) -> (c: Command)
        ensures
            c@ == parsed(line@),
    {
        let words = split_whitespace(line);
        if words.len() == 0 {
            return Command::Invalid;
        }
        assert(words.deep_view()[0] == words[0]@);
        let keyword = words[0].as_str();
        if same_text(keyword, "new") {
            return Command::New;
        }
        if words.len() != 2 {
            return Command::Invalid;
        }
        assert(words.deep_view()[1] == words[1]@);
        if same_text(keyword, "save") {
            Command::Save(words[1].clone())
        } else if same_text(keyword, "open") {
            Command::Open(words[1].clone())
        } else if same_text(keyword, "setdir") {
            Command::SetDirectory(words[1].clone())
        } else {
            Command::Invalid
        }
    }

    /// Whether the command is `Invalid`.
    pub fn is_invalid(&self) -> (r: bool)
        ensures
            r == (self@ == CommandView::Invalid),
    {
        match self {
            Command::Invalid => true,
            _ => false,
        }
    }
}

/// A line whose first word is a keyword, followed by the path where the
/// keyword takes one, stands for the command of that keyword; every other
/// line stands for `Invalid`.
pub proof fn lemma_parsed_by_keyword(line: Seq<char>)
    ensures
        tokens(line).len() == 2 && tokens(line)[0] == "save"@ ==> parsed(line) == CommandView::Save(
            tokens(line)[1],
        ),
        tokens(line).len() == 2 && tokens(line)[0] == "open"@ ==> parsed(line) == CommandView::Open(
            tokens(line)[1],
        ),
        tokens(line).len() == 2 && tokens(line)[0] == "setdir"@ ==> parsed(line)
            == CommandView::SetDirectory(tokens(line)[1]),
        tokens(line).len() >= 1 && tokens(line)[0] == "new"@ ==> parsed(line) == CommandView::New,
        parsed(line) == CommandView::Invalid <==> {
            ||| tokens(line).len() == 0
            ||| !is_keyword(tokens(line)[0])
            ||| (takes_path(tokens(line)[0]) && tokens(line).len() != 2)
        },
{
    reveal_strlit("new");
    reveal_strlit("save");
    reveal_strlit("open");
    reveal_strlit("setdir");
    let words = tokens(line);
    if words.len() > 0 {
        if words[0] == "save"@ {
            assert(words[0].len() == 4);
            assert(words[0][0] == 's');
        }
        if words[0] == "open"@ {
            assert(words[0].len() == 4);
            assert(words[0][0] == 'o');
        }
        if words[0] == "setdir"@ {
            assert(words[0].len() == 6);
        }
        if words[0] == "new"@ {
            assert(words[0].len() == 3);
        }
    }
}

/// Handles the line in the command panel: the line is read into a
/// command, the panel is emptied, and the command is carried out.
pub fn handle_command(md_edit: &mut MdEdit) -> (r: MdResult<Effect>)
    ensures
        exists|expanded: Seq<char>| #[trigger]
            may_expand_to(parsed(old(md_edit)@.command_input).path_argument(), expanded)
                && carries_out(
                old(md_edit)@.typed(Seq::empty()),
                parsed(old(md_edit)@.command_input),
                expanded,
                final(md_edit)@,
                result_view(r),
            ),
        !has_tilde_prefix(parsed(old(md_edit)@.command_input).path_argument()) ==> carries_out(
            old(md_edit)@.typed(Seq::empty()),
            parsed(old(md_edit)@.command_input),
            parsed(old(md_edit)@.command_input).path_argument(),
            final(md_edit)@,
            result_view(r),
        ),
        parsed(old(md_edit)@.command_input) == CommandView::Invalid ==> r is Err && final(md_edit)@
            == old(md_edit)@.typed(Seq::empty()),
{
    let command = Command::parse(md_edit.command_input());
    md_edit.set_command_input(String::new());
    command.execute(md_edit)
}

} // verus!
