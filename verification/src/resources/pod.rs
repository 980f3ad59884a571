//! The options of running a command in a pod, and the query pairs they
//! become.

use crate::location::pairs_view;
use crate::resources::list_query::optional_pair;
use crate::resources::metadata::opt_string_view;
use crate::text::{bool_string, bool_text, join, joined, views};
use vstd::prelude::*;

verus! {

/// The options of running a command in a pod.
#[derive(Clone, Debug)]
pub struct PodExec {
    stdin: Option<bool>,
    stdout: Option<bool>,
    stderr: Option<bool>,
    tty: Option<bool>,
    container: Option<String>,
    command: Option<Vec<String>>,
}

/// The mathematical content of a [`PodExec`].
pub struct PodExecView {
    pub stdin: Option<bool>,
    pub stdout: Option<bool>,
    pub stderr: Option<bool>,
    pub tty: Option<bool>,
    pub container: Option<Seq<char>>,
    pub command: Option<Seq<Seq<char>>>,
}

/// The text of an optional flag.
pub open spec fn flag_text(flag: Option<bool>) -> Option<Seq<char>> {
    match flag {
        Some(b) => Some(bool_text(b)),
        None => None,
    }
}

impl PodExecView {
    /// The options with nothing set.
    pub open spec fn empty() -> PodExecView {
        PodExecView {
            stdin: None,
            stdout: None,
            stderr: None,
            tty: None,
            container: None,
            command: None,
        }
    }

    /// The command as one string, its words separated by single spaces.
    pub open spec fn command_line(self) -> Option<Seq<char>> {
        match self.command {
            Some(words) => Some(joined(words, " "@)),
            None => None,
        }
    }

    /// The query pairs of the options that are set, in the alphabetical
    /// order of their names: `command`, `container`, `stdin`, `stdout`,
    /// `tty`. The option for standard error is kept but never sent.
    pub open spec fn pairs(self) -> Seq<(Seq<char>, Seq<char>)> {
        optional_pair("command"@, self.command_line()) + optional_pair("container"@, self.container)
            + optional_pair("stdin"@, flag_text(self.stdin)) + optional_pair(
            "stdout"@,
            flag_text(self.stdout),
        ) + optional_pair("tty"@, flag_text(self.tty))
    }
}

impl View for PodExec {
    type V = PodExecView;

    closed spec fn view(&self) -> PodExecView {
        PodExecView {
            stdin: self.stdin,
            stdout: self.stdout,
            stderr: self.stderr,
            tty: self.tty,
            container: opt_string_view(self.container),
            command: match self.command {
                Some(words) => Some(views(words@)),
                None => None,
            },
        }
    }
}

impl Default for PodExec {
    fn default() -> (exec: PodExec)
        ensures
            exec@ == PodExecView::empty(),
    {
        PodExec {
            stdin: None,
            stdout: None,
            stderr: None,
            tty: None,
            container: None,
            command: None,
        }
    }
}

/// Appends the pair of `name` and `value` to `pairs` where there is a value.
fn push_text(pairs: &mut Vec<(String, String)>, name: &str, value: Option<String>)
    ensures
        pairs_view(final(pairs)@) == pairs_view(old(pairs)@) + optional_pair(
            name@,
            opt_string_view(value),
        ),
{
    if let Some(v) = value {
        pairs.push((String::from_str(name), v));
    }
}

/// The text of an optional flag.
fn flag_string(flag: Option<bool>) -> (text: Option<String>)
    ensures
        opt_string_view(text) == flag_text(flag),
{
    match flag {
        Some(b) => Some(bool_string(b)),
        None => None,
    }
}

impl PodExec {
    /// These options, with a terminal asked for.
    pub fn tty(self) -> (exec: PodExec)
        ensures
            exec@ == (PodExecView { tty: Some(true), ..self@ }),
    {
        let mut exec = self;
        exec.tty = Some(true);
        exec
    }

    /// These options, with the command to run, word by word.
    pub fn command(self, command: Vec<String>) -> (exec: PodExec)
        ensures
            exec@ == (PodExecView { command: Some(views(command@)), ..self@ }),
    {
        let mut exec = self;
        exec.command = Some(command);
        exec
    }

    /// The query pairs of the options that are set, in the alphabetical
    /// order of their names. The words of the command are joined by single
    /// spaces.
    pub fn as_query_pairs(&self) -> (pairs: Vec<(String, String)>)
        ensures
            pairs_view(pairs@) == self@.pairs(),
    {
        let mut pairs: Vec<(String, String)> = Vec::new();
        let command_line = match &self.command {
            Some(words) => Some(join(words, " ")),
            None => None,
        };
        let container = match &self.container {
            Some(c) => Some(c.clone()),
            None => None,
        };
        push_text(&mut pairs, "command", command_line);
        push_text(&mut pairs, "container", container);
        push_text(&mut pairs, "stdin", flag_string(self.stdin));
        push_text(&mut pairs, "stdout", flag_string(self.stdout));
        push_text(&mut pairs, "tty", flag_string(self.tty));
        pairs
    }
}

} // verus!
