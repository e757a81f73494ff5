//! The failures a menu and its handlers can report, and how each is treated.

use vstd::prelude::*;

verus! {

/// What went wrong, by who caused it.
#[derive(Clone, Copy, Debug, PartialEq, Eq, Structural, Hash)]
pub enum ErrorKind {
    /// The user asked for something that is not on offer.
    Input,
    /// A data provider could not deliver.
    Upstream,
    /// The chat platform refused or lost the message.
    Platform,
    /// The menu itself was handed something malformed.
    Internal,
}

/// How a failure is made known.
#[derive(Clone, Copy, Debug, PartialEq, Eq, Structural, Hash)]
pub enum Report {
    /// Nothing to make known.
    Silent,
    /// Answer the user directly with the message.
    TellUser,
    /// Show the message as a notice in the menu's own message.
    ShowNotice,
    /// Write the message to the log.
    Log,
}

/// A failure with its kind and a message for whoever gets to read it.
#[derive(Debug, PartialEq, Eq)]
pub struct Error {
    pub kind: ErrorKind,
    pub message: String,
}

/// An [`Error`] with its message as a sequence of characters.
pub struct ErrorView {
    pub kind: ErrorKind,
    pub message: Seq<char>,
}

impl View for Error {
    type V = ErrorView;

    open spec fn view(&self) -> ErrorView {
        ErrorView { kind: self.kind, message: self.message@ }
    }
}

/// Where a failure of a command run came up.
#[derive(Clone, Copy, Debug, PartialEq, Eq, Structural, Hash)]
pub enum Failure {
    /// A command returned it.
    Command(ErrorKind),
    /// An event listener returned it.
    Listener(ErrorKind),
    /// The framework itself reports it; there is no kind to go by.
    Framework,
}

/// What is done about a failure of a command run.
#[derive(Clone, Copy, Debug, PartialEq, Eq, Structural, Hash)]
pub enum Handling {
    /// Answer the user with the message.
    TellUser,
    /// Write the failure to the log.
    Log,
    /// Leave it to the framework's own handling.
    Delegate,
}

/// What is done about a failure of a command run: the user hears of what
/// the user caused, the log of everything else that a command or a listener
/// returned, and the framework deals with its own.
pub open spec fn handling_of(failure: Failure) -> Handling {
    match failure {
        Failure::Command(ErrorKind::Input) => Handling::TellUser,
        Failure::Command(_) => Handling::Log,
        Failure::Listener(_) => Handling::Log,
        Failure::Framework => Handling::Delegate,
    }
}

/// What is done about a failure of a command run.
pub fn on_error(failure: Failure) -> (handling: Handling)
    ensures
        handling == handling_of(failure),
{
    match failure {
        Failure::Command(ErrorKind::Input) => Handling::TellUser,
        Failure::Command(_) => Handling::Log,
        Failure::Listener(_) => Handling::Log,
        Failure::Framework => Handling::Delegate,
    }
}

impl ErrorKind {
    /// Whether a menu cannot go on after a failure of this kind.
    pub open spec fn fatal(self) -> bool {
        self == ErrorKind::Platform
    }

    /// How a failure of this kind is made known.
    pub open spec fn report(self) -> Report {
        match self {
            ErrorKind::Input => Report::TellUser,
            ErrorKind::Upstream => Report::ShowNotice,
            ErrorKind::Platform => Report::Log,
            ErrorKind::Internal => Report::Log,
        }
    }

    /// Whether a menu cannot go on after a failure of this kind.
    pub fn is_fatal(self) -> (fatal: bool)
        ensures
            fatal == self.fatal(),
    {
        match self {
            ErrorKind::Platform => true,
            _ => false,
        }
    }

    /// How a failure of this kind is made known.
    pub fn how_reported(self) -> (report: Report)
        ensures
            report == self.report(),
    {
        match self {
            ErrorKind::Input => Report::TellUser,
            ErrorKind::Upstream => Report::ShowNotice,
            ErrorKind::Platform => Report::Log,
            ErrorKind::Internal => Report::Log,
        }
    }
}

impl Error {
    /// A failure of the given kind.
    pub fn new(kind: ErrorKind, message: &str) -> (error: Error)
        ensures
            error@ == (ErrorView { kind, message: message@ }),
    {
        Error { kind, message: message.to_owned() }
    }

    /// A failure the user caused.
    pub fn input(message: &str) -> (error: Error)
        ensures
            error@ == (ErrorView { kind: ErrorKind::Input, message: message@ }),
    {
        Error::new(ErrorKind::Input, message)
    }

    /// A failure of a data provider.
    pub fn upstream(message: &str) -> (error: Error)
        ensures
            error@ == (ErrorView { kind: ErrorKind::Upstream, message: message@ }),
    {
        Error::new(ErrorKind::Upstream, message)
    }

    /// A failure of the chat platform.
    pub fn platform(message: &str) -> (error: Error)
        ensures
            error@ == (ErrorView { kind: ErrorKind::Platform, message: message@ }),
    {
        Error::new(ErrorKind::Platform, message)
    }

    /// A failure inside the menu.
    pub fn internal(message: &str) -> (error: Error)
        ensures
            error@ == (ErrorView { kind: ErrorKind::Internal, message: message@ }),
    {
        Error::new(ErrorKind::Internal, message)
    }
}

} // verus!
