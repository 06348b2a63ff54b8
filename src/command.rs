use vstd::prelude::*;

use crate::config::{commands_of, get_commands, views, CommandVariants, ConfigValue, TomlError, TomlErrorView};
use crate::substitute::{substitute, substitute_tokens};

verus! {

/// The characters that `u8::is_ascii_whitespace` accepts.
pub open spec fn is_ascii_space(c: char) -> bool {
    c == ' ' || c == '\t' || c == '\n' || c == '\x0C' || c == '\r'
}

/// The words of `s` split on ASCII whitespace, continuing a word that began as `word`.
pub open spec fn split_from(s: Seq<char>, word: Seq<char>) -> Seq<Seq<char>>
    decreases s.len(),
{
    if s.len() == 0 {
        if word.len() == 0 { Seq::empty() } else { seq![word] }
    } else if is_ascii_space(s[0]) {
        (if word.len() == 0 { Seq::empty() } else { seq![word] }) + split_from(s.drop_first(), Seq::empty())
    } else {
        split_from(s.drop_first(), word.push(s[0]))
    }
}

/// The non-empty runs of non-whitespace characters of `s`, in order.
pub open spec fn words(s: Seq<char>) -> Seq<Seq<char>> {
    split_from(s, Seq::empty())
}

/// The words of a command line once its tokens are replaced.
pub open spec fn command_words(line: Seq<char>, name: Seq<char>, out: Seq<char>) -> Seq<Seq<char>> {
    words(substitute(line, name, out))
}

/// Every character of `s` is ASCII whitespace.
pub open spec fn all_space(s: Seq<char>) -> bool {
    forall|i: int| 0 <= i < s.len() ==> is_ascii_space(#[trigger] s[i])
}

proof fn lemma_split_from_empty(s: Seq<char>, word: Seq<char>)
    ensures
        split_from(s, word).len() == 0 <==> (word.len() == 0 && all_space(s)),
    decreases s.len(),
{
    if s.len() > 0 {
        if is_ascii_space(s[0]) {
            lemma_split_from_empty(s.drop_first(), Seq::empty());
        } else {
            lemma_split_from_empty(s.drop_first(), word.push(s[0]));
        }
        if all_space(s.drop_first()) && is_ascii_space(s[0]) {
            assert forall|i: int| 0 <= i < s.len() implies is_ascii_space(#[trigger] s[i]) by {
                if i > 0 {
                    assert(s[i] == s.drop_first()[i - 1]);
                }
            }
        }
        if all_space(s) {
            assert forall|i: int| 0 <= i < s.drop_first().len() implies is_ascii_space(
                #[trigger] s.drop_first()[i],
            ) by {
                assert(s.drop_first()[i] == s[i + 1]);
            }
        }
    }
}

/// A command line has no words exactly when it is empty or holds only ASCII whitespace.
pub proof fn lemma_no_words_iff_blank(s: Seq<char>)
    ensures
        words(s).len() == 0 <==> all_space(s),
{
    lemma_split_from_empty(s, Seq::empty());
}

/// Relies on `str::split_ascii_whitespace`: the words of `s`, in order.
#[verifier::external_body]
fn split_words(s: &str) -> (r: Vec<String>)
    ensures
        views(r@) == words(s@),
{
    s.split_ascii_whitespace().map(|w| w.to_string()).collect()
}

/// Why a command could not be run to success.
#[derive(Debug)]
pub enum ExecError {
    /// The command line holds no program name.
    EmptyCommand,
    /// The program could not be started; holds the cause the system gave.
    LaunchFailed(String),
    /// The program ran and reported failure; holds its exit status.
    CommandFailed(String),
}

/// The message shown to the user for an error.
pub open spec fn exec_error_message(e: ExecError) -> Seq<char> {
    match e {
        ExecError::EmptyCommand => "Cannot execute empty command."@,
        ExecError::LaunchFailed(cause) => "Failed to execute command: "@ + cause@,
        ExecError::CommandFailed(status) => "Command failed: "@ + status@,
    }
}

impl ExecError {
    /// The message shown to the user.
    pub fn to_string(&self) -> (r: String)
        ensures
            r@ == exec_error_message(*self),
    {
        match self {
            ExecError::EmptyCommand => String::from_str("Cannot execute empty command."),
            ExecError::LaunchFailed(cause) => {
                let mut s = String::from_str("Failed to execute command: ");
                s.append(cause.as_str());
                s
            },
            ExecError::CommandFailed(status) => {
                let mut s = String::from_str("Command failed: ");
                s.append(status.as_str());
                s
            },
        }
    }
}

/// A program to start, with its arguments.
pub struct Invocation {
    pub program: String,
    pub args: Vec<String>,
}

/// The words of an invocation: the program, then its arguments.
pub open spec fn invocation_words(inv: Invocation) -> Seq<Seq<char>> {
    seq![inv.program@] + views(inv.args@)
}

/// Prepares the command line `s` for execution: replaces its tokens with the project name and
/// output path, then splits it on ASCII whitespace into the program and its arguments.
pub fn exec(s: &str, proj_name: &str, proj_output: &str) -> (r: Result<Invocation, ExecError>)
    ensures
        match r {
            Ok(inv) => invocation_words(inv) == command_words(s@, proj_name@, proj_output@),
            Err(e) => e is EmptyCommand && command_words(s@, proj_name@, proj_output@).len() == 0,
        },
{
    let replaced = substitute_tokens(s, proj_name, proj_output);
    let mut parts = split_words(replaced.as_str());
    if parts.len() == 0 {
        return Err(ExecError::EmptyCommand);
    }
    let ghost all = parts@;
    let program = parts.remove(0);
    assert(views(all) =~= seq![program@] + views(parts@));
    Ok(Invocation { program, args: parts })
}

/// What became of the last step of a command run.
pub enum CommandEvent {
    /// Nothing has run yet.
    Start,
    /// The last program ran and reported success.
    Succeeded,
    /// The last program could not be started; holds the cause.
    LaunchFailed(String),
    /// The last program reported failure; holds its exit status.
    Exited(String),
}

/// What to do next in a command run.
pub enum RunAction {
    /// Start this program and report how it went.
    Spawn(Invocation),
    /// Every command succeeded.
    Finished,
    /// Stop: the run failed.
    Abort(ExecError),
}

/// The commands of one phase, run in order until the first failure.
pub struct CommandRun {
    pub commands: Vec<String>,
    /// Index of the next command to start.
    pub next: usize,
    pub project_name: String,
    pub output_path: String,
}

impl CommandRun {
    /// A run of `commands`, none of them started yet.
    pub fn new(commands: Vec<String>, project_name: &str, output_path: &str) -> (r: CommandRun)
        ensures
            r.commands == commands,
            r.next == 0,
            r.project_name@ == project_name@,
            r.output_path@ == output_path@,
    {
        CommandRun {
            commands,
            next: 0,
            project_name: project_name.to_owned(),
            output_path: output_path.to_owned(),
        }
    }

    /// The run of the commands that the configuration gives `lang_name` for one phase; a run
    /// of no commands where none are configured.
    pub fn from_config(
        doc: &ConfigValue,
        lang_name: &str,
        variant: CommandVariants,
        project_name: &str,
        output_path: &str,
    ) -> (r: Result<CommandRun, TomlError>)
        ensures
            match r {
                Ok(run) => {
                    &&& run.next == 0
                    &&& run.project_name@ == project_name@
                    &&& run.output_path@ == output_path@
                    &&& match commands_of(*doc, lang_name@, variant) {
                        Ok(Some(list)) => views(run.commands@) == list,
                        Ok(None) => run.commands@.len() == 0,
                        Err(_) => false,
                    }
                },
                Err(e) => commands_of(*doc, lang_name@, variant) == Err::<
                    Option<Seq<Seq<char>>>,
                    TomlErrorView,
                >(e@),
            },
    {
        let commands = match get_commands(doc, lang_name, variant)? {
            Some(list) => list,
            None => Vec::new(),
        };
        Ok(CommandRun::new(commands, project_name, output_path))
    }

    /// Decides the next action from what became of the last one.
    ///
    /// A failure ends the run with its error. Otherwise the next command is prepared: it is
    /// handed out to be started, or ends the run when it holds no program; after the last
    /// command the run is finished.
    pub fn step(&mut self, last: CommandEvent) -> (r: RunAction)
        ensures
            final(self).commands == old(self).commands,
            final(self).project_name == old(self).project_name,
            final(self).output_path == old(self).output_path,
            match last {
                CommandEvent::LaunchFailed(cause) => {
                    &&& r matches RunAction::Abort(ExecError::LaunchFailed(c)) && c@ == cause@
                    &&& final(self).next == old(self).next
                },
                CommandEvent::Exited(status) => {
                    &&& r matches RunAction::Abort(ExecError::CommandFailed(s)) && s@ == status@
                    &&& final(self).next == old(self).next
                },
                _ => if old(self).next >= old(self).commands@.len() {
                    r is Finished && final(self).next == old(self).next
                } else {
                    let w = command_words(
                        old(self).commands@[old(self).next as int]@,
                        old(self).project_name@,
                        old(self).output_path@,
                    );
                    if w.len() == 0 {
                        &&& r matches RunAction::Abort(e) && e is EmptyCommand
                        &&& final(self).next == old(self).next
                    } else {
                        &&& r matches RunAction::Spawn(inv) && invocation_words(inv) == w
                        &&& final(self).next == old(self).next + 1
                    }
                },
            },
    {
        match last {
            CommandEvent::LaunchFailed(cause) => RunAction::Abort(ExecError::LaunchFailed(cause)),
            CommandEvent::Exited(status) => RunAction::Abort(ExecError::CommandFailed(status)),
            _ => {
                if self.next >= self.commands.len() {
                    return RunAction::Finished;
                }
                match exec(
                    self.commands[self.next].as_str(),
                    self.project_name.as_str(),
                    self.output_path.as_str(),
                ) {
                    Ok(inv) => {
                        self.next = self.next + 1;
                        RunAction::Spawn(inv)
                    },
                    Err(e) => RunAction::Abort(e),
                }
            },
        }
    }
}

} // verus!
