use vstd::prelude::*;

verus! {

/// A well-formed request.
#[derive(Debug, PartialEq, Eq)]
pub enum Command {
    /// Store a message; the message holds no newline and may be empty.
    Publish(String),
    /// Fetch a message; carries nothing.
    Retrieve,
}

/// Why a line was rejected.
#[derive(Debug, Clone, Copy, PartialEq, Eq, Structural)]
pub enum Error {
    /// The verb is neither `PUBLISH` nor `RETRIEVE`.
    UnknownVerb,
    /// The line is not terminated by exactly one final newline, or carries
    /// a payload where none belongs.
    UnexpectedPayload,
    /// `PUBLISH` with nothing after it, not even a separating space.
    MissingPayload,
    /// No verb can be read: the line is empty or blank before the first space.
    EmptyMessage,
    /// The line stops before its terminating newline (a bare `RETRIEVE`).
    IncompleteMessage,
}

/// What a `Command` stands for, with the message as a sequence of characters.
pub enum CommandView {
    Publish(Seq<char>),
    Retrieve,
}

impl View for Command {
    type V = CommandView;

    open spec fn view(&self) -> CommandView {
        match self {
            Command::Publish(m) => CommandView::Publish(m@),
            Command::Retrieve => CommandView::Retrieve,
        }
    }
}

/// The view of a decoding result: the command by its view, the error as it is.
pub open spec fn result_view(r: Result<Command, Error>) -> Result<CommandView, Error> {
    match r {
        Ok(c) => Ok(c@),
        Err(e) => Err(e),
    }
}

} // verus!
