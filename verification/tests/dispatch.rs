use clap_complete::Shell;
use rust_template::cli::{Cli, Commands, BIN_NAME, DEFAULT_NAME};
use rust_template::dispatch::{dispatch, Action};
use rust_template::logging::LogLevel;

fn run(command: Option<Commands>, verbose: u8, markdown_help: bool) -> Cli {
    Cli { command, verbose, markdown_help }
}

fn greet_command(name: &str) -> Option<Commands> {
    Some(Commands::Greet { name: name.to_string() })
}

#[test]
fn no_args_shows_help() {
    let actions = dispatch(&run(None, 0, false), false);
    assert_eq!(
        actions,
        vec![Action::InitLogging { level: LogLevel::Warn }, Action::LogStartup, Action::Help]
    );
}

#[test]
fn greet_default_name() {
    assert_eq!(DEFAULT_NAME, "World");
    let actions = dispatch(&run(greet_command(DEFAULT_NAME), 0, false), false);
    assert_eq!(actions[2], Action::Print { line: "Hello, World!".to_string() });
}

#[test]
fn greet_custom_name() {
    let actions = dispatch(&run(greet_command("Rust"), 0, false), false);
    assert_eq!(
        actions,
        vec![
            Action::InitLogging { level: LogLevel::Warn },
            Action::LogStartup,
            Action::Print { line: "Hello, Rust!".to_string() },
        ]
    );
}

#[test]
fn completions_bash() {
    assert_eq!(BIN_NAME, "rust-template");
    let cli = run(Some(Commands::Completions { shell: Shell::Bash }), 0, false);
    let actions = dispatch(&cli, false);
    assert_eq!(
        actions,
        vec![
            Action::InitLogging { level: LogLevel::Warn },
            Action::LogStartup,
            Action::Completions { shell: Shell::Bash },
        ]
    );
}

#[test]
fn completions_keep_the_shell() {
    for shell in [Shell::Bash, Shell::Elvish, Shell::Fish, Shell::PowerShell, Shell::Zsh] {
        let actions = dispatch(&run(Some(Commands::Completions { shell }), 0, false), false);
        assert_eq!(actions[2], Action::Completions { shell });
    }
}

#[test]
fn markdown_help_produces_output() {
    let actions = dispatch(&run(None, 0, true), false);
    assert_eq!(actions, vec![Action::MarkdownHelp]);
}

#[test]
fn markdown_help_skips_everything_else() {
    let cli = run(greet_command("Rust"), 3, true);
    assert!(cli.handle_markdown_help());
    assert_eq!(dispatch(&cli, true), vec![Action::MarkdownHelp]);
    let cli = run(Some(Commands::Completions { shell: Shell::Zsh }), 1, true);
    assert_eq!(dispatch(&cli, false), vec![Action::MarkdownHelp]);
}

#[test]
fn markdown_help_is_off_by_default() {
    assert!(!run(None, 0, false).handle_markdown_help());
    assert!(!run(greet_command("x"), 2, false).handle_markdown_help());
}

#[test]
fn verbosity_sets_the_logging_level() {
    let expected = [
        (0, LogLevel::Warn),
        (1, LogLevel::Info),
        (2, LogLevel::Debug),
        (3, LogLevel::Trace),
        (9, LogLevel::Trace),
    ];
    for (verbose, level) in expected {
        let actions = dispatch(&run(None, verbose, false), false);
        assert_eq!(actions[0], Action::InitLogging { level });
        assert_eq!(actions[1], Action::LogStartup);
    }
}

#[test]
fn update_check_comes_last_when_built_in() {
    let actions = dispatch(&run(greet_command("Rust"), 1, false), true);
    assert_eq!(
        actions,
        vec![
            Action::InitLogging { level: LogLevel::Info },
            Action::LogStartup,
            Action::Print { line: "Hello, Rust!".to_string() },
            Action::UpdateCheck,
        ]
    );
    let actions = dispatch(&run(None, 0, false), true);
    assert_eq!(actions.len(), 4);
    assert_eq!(actions[2], Action::Help);
    assert_eq!(actions[3], Action::UpdateCheck);
}

#[test]
fn greeting_an_empty_name() {
    let actions = dispatch(&run(greet_command(""), 0, false), false);
    assert_eq!(actions[2], Action::Print { line: "Hello, !".to_string() });
}
