//! The dispatcher: select one collaborator per configuration, and enrich
//! its failure with one context layer.
//!
//! Control flow of one call is: select the variant, invoke the
//! collaborator, wrap a failure, return. The two decisions are verified
//! here; the invocation itself (interactive browsing, shell widgets,
//! repository imports, ...) is outside work that an embedding program
//! performs between [`plan`] and [`handle_outcome`].
//!
//! Exactly one collaborator is invoked per dispatch: [`plan`] returns a
//! single [`Invocation`], with no fan-out and no retries.

use vstd::prelude::*;
use vstd::string::StringExecFns;

use crate::config::{
    AlfredCommand, Command, CommandView, Config, ConfigView, Finder, RepoCommand, RepoCommandView,
};
use crate::error::{Error, ErrorView};

verus! {

/// The one collaborator call a configuration selects, with the arguments
/// the dispatcher computes for it.
///
/// The `Core`, `Query`, `Best`, `Search`, `AlfredMain` and
/// `AlfredSuggestions` collaborators additionally receive the whole
/// configuration; the embedding program, which still holds it, passes it
/// along.
pub enum Invocation {
    /// The default flow; `interactive` is forced on when no command is given.
    Core { interactive: bool },
    /// Preview the snippet on the given line.
    Preview { line: String },
    /// Filter cheatsheets by the query.
    Query { query: String },
    /// Execute the snippet most similar to the query.
    Best { query: String, args: Vec<String> },
    /// Search online cheatsheets.
    Search { query: String },
    /// Print the widget code for the named shell.
    Widget { shell: String },
    /// Execute the named internal function.
    Func { func: String, args: Vec<String> },
    /// Import cheatsheets from the repository at `uri`, using the finder.
    RepoAdd { uri: String, finder: Finder },
    /// Browse the featured repositories, using the finder.
    RepoBrowse { finder: Finder },
    /// Start the Alfred integration.
    AlfredMain,
    /// Produce Alfred suggestions; `check_mode` distinguishes the check run.
    AlfredSuggestions { check_mode: bool },
    /// The Alfred transform hook.
    AlfredTransform,
}

/// Mathematical model of [`Invocation`].
pub enum InvocationView {
    Core { interactive: bool },
    Preview { line: Seq<char> },
    Query { query: Seq<char> },
    Best { query: Seq<char>, args: Seq<Seq<char>> },
    Search { query: Seq<char> },
    Widget { shell: Seq<char> },
    Func { func: Seq<char>, args: Seq<Seq<char>> },
    RepoAdd { uri: Seq<char>, finder: Seq<char> },
    RepoBrowse { finder: Seq<char> },
    AlfredMain,
    AlfredSuggestions { check_mode: bool },
    AlfredTransform,
}

impl View for Invocation {
    type V = InvocationView;

    open spec fn view(&self) -> InvocationView {
        match self {
            Invocation::Core { interactive } => InvocationView::Core { interactive: *interactive },
            Invocation::Preview { line } => InvocationView::Preview { line: line@ },
            Invocation::Query { query } => InvocationView::Query { query: query@ },
            Invocation::Best { query, args } => InvocationView::Best {
                query: query@,
                args: args.deep_view(),
            },
            Invocation::Search { query } => InvocationView::Search { query: query@ },
            Invocation::Widget { shell } => InvocationView::Widget { shell: shell@ },
            Invocation::Func { func, args } => InvocationView::Func {
                func: func@,
                args: args.deep_view(),
            },
            Invocation::RepoAdd { uri, finder } => InvocationView::RepoAdd {
                uri: uri@,
                finder: finder@,
            },
            Invocation::RepoBrowse { finder } => InvocationView::RepoBrowse { finder: finder@ },
            Invocation::AlfredMain => InvocationView::AlfredMain,
            Invocation::AlfredSuggestions { check_mode } => InvocationView::AlfredSuggestions {
                check_mode: *check_mode,
            },
            Invocation::AlfredTransform => InvocationView::AlfredTransform,
        }
    }
}

/// Which collaborator a configuration selects, and with which arguments.
///
/// Every command variant maps to exactly one invocation; the absence of a
/// command maps to the default flow with `interactive` forced on.
pub open spec fn spec_plan(c: ConfigView) -> InvocationView {
    match c.cmd {
        Option::None => InvocationView::Core { interactive: true },
        Option::Some(cmd) => match cmd {
            CommandView::Preview { line } => InvocationView::Preview { line },
            CommandView::Query { query } => InvocationView::Query { query },
            CommandView::Best { query, args } => InvocationView::Best { query, args },
            CommandView::Search { query } => InvocationView::Search { query },
            CommandView::Widget { shell } => InvocationView::Widget { shell },
            CommandView::Fn { func, args } => InvocationView::Func { func, args },
            CommandView::Repo { cmd } => match cmd {
                RepoCommandView::Add { uri } => InvocationView::RepoAdd {
                    uri,
                    finder: c.finder,
                },
                RepoCommandView::Browse => InvocationView::RepoBrowse { finder: c.finder },
            },
            CommandView::Alfred { cmd } => match cmd {
                AlfredCommand::Start => InvocationView::AlfredMain,
                AlfredCommand::Suggestions => InvocationView::AlfredSuggestions {
                    check_mode: false,
                },
                AlfredCommand::Check => InvocationView::AlfredSuggestions { check_mode: true },
                AlfredCommand::Transform => InvocationView::AlfredTransform,
            },
        },
    }
}

/// The context message layered onto a failure of the given invocation;
/// `None` where the error is passed through unchanged (the default flow
/// and the preview flow add no context).
pub open spec fn context_message(inv: InvocationView) -> Option<Seq<char>> {
    match inv {
        InvocationView::Core { .. } => Option::None,
        InvocationView::Preview { .. } => Option::None,
        InvocationView::Query { query } => Option::Some(
            "Failed to filter cheatsheets for "@ + query,
        ),
        InvocationView::Best { query, .. } => Option::Some(
            "Failed to execute snippet similar to "@ + query,
        ),
        InvocationView::Search { .. } => Option::Some("Failed to search for online cheatsheets"@),
        InvocationView::Widget { .. } => Option::Some("Failed to print shell widget code"@),
        InvocationView::Func { func, .. } => Option::Some(
            "Failed to execute function `"@ + func + "`"@,
        ),
        InvocationView::RepoAdd { uri, .. } => Option::Some(
            "Failed to import cheatsheets from `"@ + uri + "`"@,
        ),
        InvocationView::RepoBrowse { .. } => Option::Some(
            "Failed to browse featured cheatsheets"@,
        ),
        InvocationView::AlfredMain => Option::Some("Failed to call Alfred starting function"@),
        InvocationView::AlfredSuggestions { check_mode } => if check_mode {
            Option::Some("Failed to call Alfred check function"@)
        } else {
            Option::Some("Failed to call Alfred suggestion function"@)
        },
        InvocationView::AlfredTransform => Option::Some(
            "Failed to call Alfred transform function"@,
        ),
    }
}

/// A collaborator failure as the dispatcher returns it: the invocation's
/// context message becomes the new outermost layer, added once; where the
/// invocation has none, the error is unchanged. The cause underneath is
/// never replaced.
pub open spec fn wrapped_error(inv: InvocationView, e: ErrorView) -> ErrorView {
    match context_message(inv) {
        Option::None => e,
        Option::Some(msg) => ErrorView { contexts: e.contexts.insert(0, msg), root: e.root },
    }
}

/// The model of a `Result` the dispatcher takes or returns.
pub open spec fn outcome_view(r: Result<(), Error>) -> Result<(), ErrorView> {
    match r {
        Result::Ok(u) => Result::Ok(u),
        Result::Err(e) => Result::Err(e@),
    }
}

/// The dispatcher's result for an invocation's outcome: success is passed
/// through with no effect of the dispatcher's own; a failure is wrapped
/// once by [`wrapped_error`].
pub open spec fn dispatch_result(
    inv: InvocationView,
    outcome: Result<(), ErrorView>,
) -> Result<(), ErrorView> {
    match outcome {
        Result::Ok(u) => Result::Ok(u),
        Result::Err(e) => Result::Err(wrapped_error(inv, e)),
    }
}

/// Clone of an argument vector, element for element.
fn clone_args(args: &Vec<String>) -> (r: Vec<String>)
    ensures
        r.deep_view() == args.deep_view(),
{
    let r = args.clone();
    proof {
        assert forall|i: int| 0 <= i < args.len() implies r.deep_view()[i]
            == args.deep_view()[i] by {
            assert(cloned::<String>(args[i], r[i]));
        }
        assert(r.deep_view() =~= args.deep_view());
    }
    r
}

/// Select the one collaborator invocation for the configuration.
///
/// Exactly one collaborator is selected, whatever the command: the result
/// is a single [`Invocation`]. No command at all selects the default flow
/// with `interactive = true`.
pub fn plan(config: &Config) -> (inv: Invocation)
    ensures
        inv@ == spec_plan(config@),
{
    match &config.cmd {
        Option::None => Invocation::Core { interactive: true },
        Option::Some(c) => match c {
            Command::Preview { line } => Invocation::Preview { line: line.clone() },
            Command::Query { query } => Invocation::Query { query: query.clone() },
            Command::Best { query, args } => Invocation::Best {
                query: query.clone(),
                args: clone_args(args),
            },
            Command::Search { query } => Invocation::Search { query: query.clone() },
            Command::Widget { shell } => Invocation::Widget { shell: shell.clone() },
            Command::Fn { func, args } => Invocation::Func {
                func: func.clone(),
                args: clone_args(args),
            },
            Command::Repo { cmd } => match cmd {
                RepoCommand::Add { uri } => Invocation::RepoAdd {
                    uri: uri.clone(),
                    finder: Finder { program: config.finder.program.clone() },
                },
                RepoCommand::Browse => Invocation::RepoBrowse {
                    finder: Finder { program: config.finder.program.clone() },
                },
            },
            Command::Alfred { cmd } => match cmd {
                AlfredCommand::Start => Invocation::AlfredMain,
                AlfredCommand::Suggestions => Invocation::AlfredSuggestions { check_mode: false },
                AlfredCommand::Check => Invocation::AlfredSuggestions { check_mode: true },
                AlfredCommand::Transform => Invocation::AlfredTransform,
            },
        },
    }
}

/// Wrap a collaborator failure with the invocation's context message —
/// one new outermost layer, or none for the flows that pass the error
/// through unchanged.
pub fn wrap_failure(inv: &Invocation, e: Error) -> (r: Error)
    ensures
        r@ == wrapped_error(inv@, e@),
{
    match inv {
        Invocation::Core { .. } => e,
        Invocation::Preview { .. } => e,
        Invocation::Query { query } => e.context(
            "Failed to filter cheatsheets for ".to_owned().concat(query.as_str()),
        ),
        Invocation::Best { query, .. } => e.context(
            "Failed to execute snippet similar to ".to_owned().concat(query.as_str()),
        ),
        Invocation::Search { .. } => e.context(
            "Failed to search for online cheatsheets".to_owned(),
        ),
        Invocation::Widget { .. } => e.context("Failed to print shell widget code".to_owned()),
        Invocation::Func { func, .. } => e.context(
            "Failed to execute function `".to_owned().concat(func.as_str()).concat("`"),
        ),
        Invocation::RepoAdd { uri, .. } => e.context(
            "Failed to import cheatsheets from `".to_owned().concat(uri.as_str()).concat("`"),
        ),
        Invocation::RepoBrowse { .. } => e.context(
            "Failed to browse featured cheatsheets".to_owned(),
        ),
        Invocation::AlfredMain => e.context("Failed to call Alfred starting function".to_owned()),
        Invocation::AlfredSuggestions { check_mode } => if *check_mode {
            e.context("Failed to call Alfred check function".to_owned())
        } else {
            e.context("Failed to call Alfred suggestion function".to_owned())
        },
        Invocation::AlfredTransform => e.context(
            "Failed to call Alfred transform function".to_owned(),
        ),
    }
}

/// Turn the collaborator's outcome into the dispatcher's result: success
/// is returned as is; a failure gains the invocation's context layer.
pub fn handle_outcome(inv: &Invocation, outcome: Result<(), Error>) -> (r: Result<(), Error>)
    ensures
        outcome_view(r) == dispatch_result(inv@, outcome_view(outcome)),
{
    match outcome {
        Result::Ok(u) => Result::Ok(u),
        Result::Err(e) => Result::Err(wrap_failure(inv, e)),
    }
}

/// One whole dispatch decision: which result the dispatcher returns for a
/// configuration, given the outcome of the collaborator that [`plan`]
/// selects for it. The embedding program performs the invocation between
/// the two halves; this function composes them.
pub fn handle_config(config: Config, outcome: Result<(), Error>) -> (r: Result<(), Error>)
    ensures
        outcome_view(r) == dispatch_result(spec_plan(config@), outcome_view(outcome)),
{
    let inv = plan(&config);
    handle_outcome(&inv, outcome)
}

/// Law: the absence of a command invokes the default collaborator with
/// `interactive = true`.
pub proof fn lemma_no_command_runs_interactive_core(c: ConfigView)
    requires
        c.cmd is None,
    ensures
        spec_plan(c) == (InvocationView::Core { interactive: true }),
{
}

/// Law: the Alfred suggestion and check commands select the same
/// collaborator with identical arguments but for the check-mode flag,
/// which is `false` for `Suggestions` and `true` for `Check`.
pub proof fn lemma_alfred_check_mode(c_suggestions: ConfigView, c_check: ConfigView)
    requires
        c_suggestions.cmd == Option::Some(
            CommandView::Alfred { cmd: AlfredCommand::Suggestions },
        ),
        c_check.cmd == Option::Some(CommandView::Alfred { cmd: AlfredCommand::Check }),
    ensures
        spec_plan(c_suggestions) == (InvocationView::AlfredSuggestions { check_mode: false }),
        spec_plan(c_check) == (InvocationView::AlfredSuggestions { check_mode: true }),
{
}

/// Law: a preview failure propagates the collaborator's error with no
/// added context layer.
pub proof fn lemma_preview_error_unchanged(c: ConfigView, e: ErrorView)
    requires
        c.cmd matches Option::Some(CommandView::Preview { .. }),
    ensures
        dispatch_result(spec_plan(c), Result::Err(e)) == Result::Err::<(), ErrorView>(e),
{
}

/// Law: dispatch is deterministic. Any two results that [`handle_config`]
/// may return for the same configuration value and the same collaborator
/// outcome carry the same error chain (collaborators being deterministic
/// is the embedding program's concern; here their one outcome is given).
pub proof fn lemma_dispatch_deterministic(
    config: Config,
    outcome: Result<(), Error>,
    r1: Result<(), Error>,
    r2: Result<(), Error>,
)
    requires
        call_ensures(handle_config, (config, outcome), r1),
        call_ensures(handle_config, (config, outcome), r2),
    ensures
        outcome_view(r1) == outcome_view(r2),
{
}

} // verus!
