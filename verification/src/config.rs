//! The input of one dispatch call: a command selection plus shared settings.
//!
//! A [`Config`] is built once per process invocation by an argument parser
//! outside this crate, consumed exactly once by the dispatcher, and then
//! discarded. The command set is closed: the dispatcher matches every
//! variant exhaustively, so a new variant without a handling branch fails
//! to build rather than falling through silently.

use vstd::prelude::*;

verus! {

/// The external program used to locate cheatsheet repositories.
///
/// The dispatcher never inspects it; it only hands it to the repository
/// flows, identified here by the program's name.
pub struct Finder {
    pub program: String,
}

impl View for Finder {
    type V = Seq<char>;

    open spec fn view(&self) -> Seq<char> {
        self.program@
    }
}

/// Subcommands of the repository flow.
pub enum RepoCommand {
    /// Import cheatsheets from the repository at `uri`.
    Add { uri: String },
    /// Browse the featured repositories.
    Browse,
}

/// Subcommands of the Alfred integration flow. None carries data.
#[derive(Clone, Copy, PartialEq, Eq, Structural, Debug)]
pub enum AlfredCommand {
    Start,
    Suggestions,
    Check,
    Transform,
}

/// One command selected on the command line; at most one is active per call.
#[allow(inconsistent_fields)]
pub enum Command {
    /// Preview the snippet on the given line.
    Preview { line: String },
    /// Filter cheatsheets by a query.
    Query { query: String },
    /// Execute the snippet most similar to the query.
    Best { query: String, args: Vec<String> },
    /// Search online cheatsheets.
    Search { query: String },
    /// Print the shell widget code for the named shell.
    Widget { shell: String },
    /// Execute a named internal function.
    Fn { func: String, args: Vec<String> },
    /// Repository management.
    Repo { cmd: RepoCommand },
    /// Alfred integration.
    Alfred { cmd: AlfredCommand },
}

/// The immutable input of one dispatch call.
pub struct Config {
    /// The selected command; absence selects the default interactive flow.
    pub cmd: Option<Command>,
    /// Shared setting: the repository locator handed to the repository flows.
    pub finder: Finder,
}

/// Mathematical model of [`RepoCommand`].
pub enum RepoCommandView {
    Add { uri: Seq<char> },
    Browse,
}

/// Mathematical model of [`Command`]: every string becomes its character
/// sequence. [`AlfredCommand`] carries no data and models itself.
#[allow(inconsistent_fields)]
pub enum CommandView {
    Preview { line: Seq<char> },
    Query { query: Seq<char> },
    Best { query: Seq<char>, args: Seq<Seq<char>> },
    Search { query: Seq<char> },
    Widget { shell: Seq<char> },
    Fn { func: Seq<char>, args: Seq<Seq<char>> },
    Repo { cmd: RepoCommandView },
    Alfred { cmd: AlfredCommand },
}

/// Mathematical model of [`Config`].
pub struct ConfigView {
    pub cmd: Option<CommandView>,
    pub finder: Seq<char>,
}

impl View for RepoCommand {
    type V = RepoCommandView;

    open spec fn view(&self) -> RepoCommandView {
        match self {
            RepoCommand::Add { uri } => RepoCommandView::Add { uri: uri@ },
            RepoCommand::Browse => RepoCommandView::Browse,
        }
    }
}

impl View for Command {
    type V = CommandView;

    open spec fn view(&self) -> CommandView {
        match self {
            Command::Preview { line } => CommandView::Preview { line: line@ },
            Command::Query { query } => CommandView::Query { query: query@ },
            Command::Best { query, args } => CommandView::Best {
                query: query@,
                args: args.deep_view(),
            },
            Command::Search { query } => CommandView::Search { query: query@ },
            Command::Widget { shell } => CommandView::Widget { shell: shell@ },
            Command::Fn { func, args } => CommandView::Fn {
                func: func@,
                args: args.deep_view(),
            },
            Command::Repo { cmd } => CommandView::Repo { cmd: cmd@ },
            Command::Alfred { cmd } => CommandView::Alfred { cmd: *cmd },
        }
    }
}

impl View for Config {
    type V = ConfigView;

    open spec fn view(&self) -> ConfigView {
        ConfigView {
            cmd: match self.cmd {
                Option::None => Option::None,
                Option::Some(c) => Option::Some(c@),
            },
            finder: self.finder@,
        }
    }
}

} // verus!
