//! The failures that the editor reports.

use vstd::prelude::*;

verus! {

/// What can go wrong while the editor handles an event.
///
/// Every failure is recoverable: the operation that met it leaves the session
/// as it was, and the host shows the message to the user.
#[derive(Debug, PartialEq, Eq)]
pub enum MdError {
    /// The file system refused a read, a write or a directory listing.
    Io(String),
    /// An action name that is none of the known ones.
    InvalidAction(String),
    /// A command line that names no command or lacks its argument.
    InvalidCommand(String),
    /// The text of a chord that cannot be read.
    InvalidHotkey(String),
}

/// Result of an operation of the editor.
pub type MdResult<T> = Result<T, MdError>;

/// The mathematical value of an [`MdError`]: its kind and its message.
pub ghost enum MdErrorView {
    Io(Seq<char>),
    InvalidAction(Seq<char>),
    InvalidCommand(Seq<char>),
    InvalidHotkey(Seq<char>),
}

impl View for MdError {
    type V = MdErrorView;

    open spec fn view(&self) -> MdErrorView {
        match self {
            MdError::Io(m) => MdErrorView::Io(m@),
            MdError::InvalidAction(m) => MdErrorView::InvalidAction(m@),
            MdError::InvalidCommand(m) => MdErrorView::InvalidCommand(m@),
            MdError::InvalidHotkey(m) => MdErrorView::InvalidHotkey(m@),
        }
    }
}

impl MdErrorView {
    /// The text that the error carries.
    pub open spec fn message(self) -> Seq<char> {
        match self {
            MdErrorView::Io(m) => m,
            MdErrorView::InvalidAction(m) => m,
            MdErrorView::InvalidCommand(m) => m,
            MdErrorView::InvalidHotkey(m) => m,
        }
    }

    /// The words that introduce an error of this kind when it is shown.
    pub open spec fn label(self) -> Seq<char> {
        match self {
            MdErrorView::Io(_) => "IO error: "@,
            MdErrorView::InvalidAction(_) => "Invalid action: "@,
            MdErrorView::InvalidCommand(_) => "Invalid command: "@,
            MdErrorView::InvalidHotkey(_) => "Invalid hotkey: "@,
        }
    }

    /// The line shown to the user: the label followed by the message.
    pub open spec fn rendered(self) -> Seq<char> {
        self.label() + self.message()
    }
}

impl MdError {
    /// The text that the error carries, without its label.
    pub fn message(&self) -> (m: &str)
        ensures
            m@ == self@.message(),
    {
        match self {
            MdError::Io(m) => m.as_str(),
            MdError::InvalidAction(m) => m.as_str(),
            MdError::InvalidCommand(m) => m.as_str(),
            MdError::InvalidHotkey(m) => m.as_str(),
        }
    }

    /// The line shown to the user: the label of the kind, then the message.
    pub fn to_text(&self) -> (s: String)
        ensures
            s@ == self@.rendered(),
    {
        let label = match self {
            MdError::Io(_) => "IO error: ",
            MdError::InvalidAction(_) => "Invalid action: ",
            MdError::InvalidCommand(_) => "Invalid command: ",
            MdError::InvalidHotkey(_) => "Invalid hotkey: ",
        };
        let mut s = String::from_str(label);
        s.append(self.message());
        s
    }
}

/// The mathematical value of a result whose success and failure both have one.
pub open spec fn result_view<T: View>(r: MdResult<T>) -> Result<T::V, MdErrorView> {
    match r {
        Ok(v) => Ok(v@),
        Err(e) => Err(e@),
    }
}

} // verus!
