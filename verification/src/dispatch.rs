//! What one invocation leads to: the actions of a run, in their order.
//!
//! The dispatcher decides and the caller performs. [`dispatch`] turns a parsed
//! invocation into the list of actions to carry out, one after the other;
//! printing, logging and looking for updates are left to the caller.

use crate::cli::{Cli, Commands};
use crate::greet;
use crate::greeting;
use crate::logging::LogLevel;
use clap_complete::Shell;
use vstd::prelude::*;

verus! {

/// One thing for the caller to do.
#[derive(Debug, PartialEq, Eq)]
pub enum Action {
    /// Print the documentation of the whole command tree as markdown to
    /// standard output.
    MarkdownHelp,
    /// Install the logger with `level` as its default.
    InitLogging {
        /// The level selected by the verbose flag.
        level: LogLevel,
    },
    /// Log, at info level, that the application starts.
    LogStartup,
    /// Print `line` and a newline to standard output.
    Print {
        /// The text of the line.
        line: String,
    },
    /// Write the completion script for `shell` to standard output.
    Completions {
        /// The shell that the script is for.
        shell: Shell,
    },
    /// Print the full help text to standard output.
    Help,
    /// Look for a newer release and tell the user on standard error.
    UpdateCheck,
}

/// An [`Action`] as the contracts see it: the same, with the characters of
/// the line in place of the string.
pub enum Step {
    MarkdownHelp,
    InitLogging { level: LogLevel },
    LogStartup,
    Print { line: Seq<char> },
    Completions { shell: Shell },
    Help,
    UpdateCheck,
}

impl View for Action {
    type V = Step;

    open spec fn view(&self) -> Step {
        match self {
            Action::MarkdownHelp => Step::MarkdownHelp,
            Action::InitLogging { level } => Step::InitLogging { level: *level },
            Action::LogStartup => Step::LogStartup,
            Action::Print { line } => Step::Print { line: line@ },
            Action::Completions { shell } => Step::Completions { shell: *shell },
            Action::Help => Step::Help,
            Action::UpdateCheck => Step::UpdateCheck,
        }
    }
}

/// The steps that a list of actions stands for.
pub open spec fn steps(actions: Seq<Action>) -> Seq<Step> {
    Seq::new(actions.len(), |i: int| actions[i]@)
}

/// The step that the subcommand selects: the greeting for `greet`, the
/// completion script for `completions`, and the help when there is none.
pub open spec fn command_step(command: Option<Commands>) -> Step {
    match command {
        Some(Commands::Greet { name }) => Step::Print { line: greeting(name@) },
        Some(Commands::Completions { shell }) => Step::Completions { shell },
        None => Step::Help,
    }
}

/// The update check that ends a run, where the tool was built with it.
pub open spec fn closing_steps(update_check: bool) -> Seq<Step> {
    if update_check {
        seq![Step::UpdateCheck]
    } else {
        Seq::empty()
    }
}

/// The steps of a run, in their order.
///
/// The markdown help stands alone. Every other run installs the logger,
/// logs its start, performs what the subcommand selects and, where the tool
/// was built with the update check, ends with it.
pub open spec fn planned(cli: Cli, update_check: bool) -> Seq<Step> {
    if cli.markdown_help {
        seq![Step::MarkdownHelp]
    } else {
        seq![
            Step::InitLogging { level: LogLevel::of_verbosity(cli.verbose) },
            Step::LogStartup,
            command_step(cli.command),
        ] + closing_steps(update_check)
    }
}

/// The order of every run.
///
/// A run for the markdown help does that and nothing else, whatever else
/// the invocation holds. Any other run begins by installing the logger at the
/// level that the verbose flag selects, then logs its start, then performs
/// the one action of the subcommand. It never prints the markdown help, and
/// it ends with the update check exactly when the tool was built with it.
pub proof fn lemma_run_order(cli: Cli, update_check: bool)
    ensures
        cli.markdown_help ==> planned(cli, update_check) == seq![Step::MarkdownHelp],
        !cli.markdown_help ==> ({
            let plan = planned(cli, update_check);
            &&& plan.len() == if update_check { 4nat } else { 3nat }
            &&& plan[0] == (Step::InitLogging { level: LogLevel::of_verbosity(cli.verbose) })
            &&& plan[1] == Step::LogStartup
            &&& plan[2] == command_step(cli.command)
            &&& update_check ==> plan[3] == Step::UpdateCheck
            &&& forall|i: int| 0 <= i < plan.len() ==> plan[i] != Step::MarkdownHelp
        }),
{
}

/// What a subcommand leads to does not depend on the verbose flag, and the
/// verbose flag decides nothing but the level of the logger.
pub proof fn lemma_verbosity_only_sets_level(cli: Cli, other: Cli, update_check: bool)
    requires
        !cli.markdown_help,
        !other.markdown_help,
        cli.command == other.command,
    ensures
        planned(cli, update_check).subrange(1, planned(cli, update_check).len() as int)
            == planned(other, update_check).subrange(
            1,
            planned(other, update_check).len() as int,
        ),
{
    let a = planned(cli, update_check);
    let b = planned(other, update_check);
    assert(a.subrange(1, a.len() as int) =~= b.subrange(1, b.len() as int));
}

/// The action that the subcommand selects.
fn command_action(command: &Option<Commands>) -> (action: Action)
    ensures
        action@ == command_step(*command),
{
    match command {
        Some(Commands::Greet { name }) => Action::Print { line: greet(name.as_str()) },
        Some(Commands::Completions { shell }) => Action::Completions { shell: *shell },
        None => Action::Help,
    }
}

/// Returns the actions of the run that `cli` asks for, in the order in which
/// they are to be carried out. `update_check` says whether the tool was built
/// with the update check.
pub fn dispatch(cli: &Cli, update_check: bool) -> (actions: Vec<Action>)
    ensures
        steps(actions@) == planned(*cli, update_check),
{
    let mut actions: Vec<Action> = Vec::new();
    if cli.handle_markdown_help() {
        actions.push(Action::MarkdownHelp);
        assert(steps(actions@) =~= planned(*cli, update_check));
        return actions;
    }
    actions.push(Action::InitLogging { level: LogLevel::from_verbosity(cli.verbose) });
    actions.push(Action::LogStartup);
    actions.push(command_action(&cli.command));
    if update_check {
        actions.push(Action::UpdateCheck);
    }
    assert(steps(actions@) =~= planned(*cli, update_check));
    actions
}

} // verus!
