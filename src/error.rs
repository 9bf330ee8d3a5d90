use vstd::prelude::*;

verus! {

/// Everything that can make a launch fail.
#[derive(Debug, PartialEq, Eq)]
pub enum ExecError {
    /// The entry declares no `Exec` key.
    MissingExecKey { desktop_entry: String },
    /// The named action declares no `Exec` key of its own.
    ActionExecKeyNotFound { action: String, desktop_entry: String },
    /// The entry declares no action of that name.
    ActionNotFound { action: String, desktop_entry: String },
    /// A field code that the desktop-entry format has deprecated.
    DeprecatedFieldCode(String),
    /// A `%` token that is no field code at all.
    UnknownFieldCode(String),
    /// The exec string opens a quote that it does not close.
    UnmatchedQuote { command: String },
    /// Nothing is left to run once the field codes are substituted.
    EmptyExecString,
    /// The `SHELL` variable is not set.
    MissingShellEnvironment,
    /// The spawned process already exited with a failure code.
    NonZeroStatusCode { status: i32, command: String },
    /// Spawning failed; the operating system's message.
    IoError(String),
}

/// The mathematical value of an [`ExecError`]: strings become character sequences.
pub enum ExecErrorView {
    MissingExecKey { desktop_entry: Seq<char> },
    ActionExecKeyNotFound { action: Seq<char>, desktop_entry: Seq<char> },
    ActionNotFound { action: Seq<char>, desktop_entry: Seq<char> },
    DeprecatedFieldCode(Seq<char>),
    UnknownFieldCode(Seq<char>),
    UnmatchedQuote { command: Seq<char> },
    EmptyExecString,
    MissingShellEnvironment,
    NonZeroStatusCode { status: i32, command: Seq<char> },
    IoError(Seq<char>),
}

impl View for ExecError {
    type V = ExecErrorView;

    open spec fn view(&self) -> ExecErrorView {
        match self {
            ExecError::MissingExecKey { desktop_entry } => ExecErrorView::MissingExecKey {
                desktop_entry: desktop_entry@,
            },
            ExecError::ActionExecKeyNotFound { action, desktop_entry } =>
                ExecErrorView::ActionExecKeyNotFound {
                action: action@,
                desktop_entry: desktop_entry@,
            },
            ExecError::ActionNotFound { action, desktop_entry } => ExecErrorView::ActionNotFound {
                action: action@,
                desktop_entry: desktop_entry@,
            },
            ExecError::DeprecatedFieldCode(t) => ExecErrorView::DeprecatedFieldCode(t@),
            ExecError::UnknownFieldCode(t) => ExecErrorView::UnknownFieldCode(t@),
            ExecError::UnmatchedQuote { command } => ExecErrorView::UnmatchedQuote { command: command@ },
            ExecError::EmptyExecString => ExecErrorView::EmptyExecString,
            ExecError::MissingShellEnvironment => ExecErrorView::MissingShellEnvironment,
            ExecError::NonZeroStatusCode { status, command } => ExecErrorView::NonZeroStatusCode {
                status: *status,
                command: command@,
            },
            ExecError::IoError(m) => ExecErrorView::IoError(m@),
        }
    }
}

} // verus!
