use std::path::PathBuf;
use vstd::prelude::*;
use crate::completion::Shell;

verus! {

/// Where the completion script goes when no path is given.
pub const DEFAULT_COMPLETION_PATH: &'static str = "~/.config/fish/completions/bo.fish";

/// A subcommand.
#[derive(Debug, Clone)]
pub enum Command {
    /// Write a completion script for `shell` to `path`.
    GenerateCompletion { shell: Shell, path: String },
}

/// The arguments of one run.
#[derive(Debug, Clone)]
pub struct Args {
    /// The bookmark to open and, behind it, the words of a query.
    pub args: Option<Vec<String>>,
    /// The path of the configuration file, where it is not the default one.
    pub config: Option<PathBuf>,
    /// The subcommand, where one was given.
    pub command: Option<Command>,
}

/// What one run does.
#[derive(Debug, Clone)]
pub enum Action {
    /// Write the completion script to `path`.
    GenerateCompletion { path: String },
    /// Open the bookmark that the token asks for.
    Open(String),
    /// Open the bookmark that the first word asks for, with the rest as query.
    Search(Vec<String>),
    /// Let the user pick a bookmark.
    Prompt,
}

/// What a run with the given subcommand and words does: the subcommand where
/// there is one; else a plain opening for one word, a search for more, and
/// the picker for none.
pub open spec fn planned(command: Option<Command>, args: Option<Vec<String>>) -> Action {
    match command {
        Some(Command::GenerateCompletion { shell, path }) => Action::GenerateCompletion { path },
        None => match args {
            Some(words) => if words@.len() == 1 {
                Action::Open(words@[0])
            } else if words@.len() > 1 {
                Action::Search(words)
            } else {
                Action::Prompt
            },
            None => Action::Prompt,
        },
    }
}

impl Args {
    /// The path of the configuration file, where one was given, and what the
    /// run does.
    pub fn plan(self) -> (out: (Option<PathBuf>, Action))
        ensures
            out.0 == self.config,
            out.1 == planned(self.command, self.args),
    {
        let Args { args, config, command } = self;
        let action = match command {
            Some(Command::GenerateCompletion { shell: _, path }) => Action::GenerateCompletion {
                path,
            },
            None => match args {
                Some(mut words) => if words.len() == 1 {
                    match words.pop() {
                        Some(name) => Action::Open(name),
                        None => Action::Prompt,
                    }
                } else if words.len() > 1 {
                    Action::Search(words)
                } else {
                    Action::Prompt
                },
                None => Action::Prompt,
            },
        };
        (config, action)
    }
}

} // verus!
