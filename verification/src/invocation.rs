//! From a detected emulator and a command to the process that is to be
//! started. Nothing is started here: the result says what to start.

use vstd::prelude::*;
use crate::emulator::{Descriptor, TerminalEmulator};
use crate::syntax::ExecutionSyntax;

verus! {

/// A process that is ready to be started: a program and its arguments.
#[derive(Debug, Clone, PartialEq, Eq)]
pub struct ProcessSpec {
    /// The executable to start.
    pub program: String,
    /// The arguments handed to it, in their order.
    pub arguments: Vec<String>,
}

impl View for ProcessSpec {
    type V = Seq<Seq<char>>;

    /// The argument vector: the program, then its arguments.
    open spec fn view(&self) -> Seq<Seq<char>> {
        seq![self.program@] + self.arguments.deep_view()
    }
}

/// The argument vector that runs `command` in the emulator: the emulator's
/// path, the prefix of its syntax if it has one, then the command as it is.
/// With the native syntax there is none.
pub open spec fn invocation(terminal: Descriptor, command: Seq<Seq<char>>) -> Option<Seq<Seq<char>>> {
    if terminal.execution_syntax == ExecutionSyntax::NativeApi {
        None
    } else {
        Some(seq![terminal.executable_path] + terminal.execution_syntax.prefix_tokens() + command)
    }
}

/// What a process specification holds, if there is one.
pub open spec fn argv(process: Option<ProcessSpec>) -> Option<Seq<Seq<char>>> {
    match process {
        Some(process) => Some(process@),
        None => None,
    }
}

/// Builds a command to run a given command in the specified terminal
/// emulator: the emulator with the prefix of its syntax, to which the caller
/// adds the command.
///
/// Returns `None` if the terminal emulator uses a native API for command
/// execution.
pub fn build_command_in_terminal(terminal: &TerminalEmulator) -> (process: Option<ProcessSpec>)
    ensures
        argv(process) == invocation(terminal@, Seq::empty()),
{
    let syntax = terminal.execution_syntax();
    if syntax == ExecutionSyntax::NativeApi {
        return None;
    }
    let program = terminal.executable_path().to_owned();
    let mut arguments: Vec<String> = Vec::new();
    if let Some(token) = syntax.as_arg() {
        arguments.push(token.to_owned());
    }
    let process = ProcessSpec { program, arguments };
    assert(process@ =~= invocation(terminal@, Seq::empty()).unwrap());
    Some(process)
}

/// Builds the process that runs `command` in the specified terminal
/// emulator, or `None` if the emulator uses a native API and no process is
/// to be started.
pub fn build_invocation(terminal: &TerminalEmulator, command: &Vec<String>) -> (process: Option<
    ProcessSpec,
>)
    ensures
        argv(process) == invocation(terminal@, command.deep_view()),
{
    match build_command_in_terminal(terminal) {
        None => None,
        Some(launcher) => {
            let ProcessSpec { program, mut arguments } = launcher;
            let ghost head = arguments.deep_view();
            let mut next: usize = 0;
            while next < command.len()
                invariant
                    next <= command.len(),
                    arguments.deep_view() == head + command.deep_view().take(next as int),
                decreases command.len() - next,
            {
                let ghost before = arguments.deep_view();
                arguments.push(command[next].clone());
                assert(arguments.deep_view() =~= before.push(command[next as int]@));
                assert(command.deep_view().take(next + 1) =~= command.deep_view().take(
                    next as int,
                ).push(command[next as int]@));
                next = next + 1;
            }
            assert(command.deep_view().take(next as int) =~= command.deep_view());
            let process = ProcessSpec { program, arguments };
            assert(process@ =~= invocation(terminal@, command.deep_view()).unwrap());
            Some(process)
        },
    }
}

/// With the native syntax no process is specified, whatever the command.
pub proof fn native_syntax_has_no_invocation(terminal: Descriptor, command: Seq<Seq<char>>)
    requires
        terminal.execution_syntax == ExecutionSyntax::NativeApi,
    ensures
        invocation(terminal, command) is None,
{
}

/// With every other syntax there is a process, it starts the emulator, and
/// it ends with the command, unchanged: what lies between is the prefix of
/// the syntax and nothing else.
pub proof fn invocation_wraps_the_command(terminal: Descriptor, command: Seq<Seq<char>>)
    requires
        terminal.execution_syntax != ExecutionSyntax::NativeApi,
    ensures
        invocation(terminal, command) matches Some(argv) && {
            let prefix = terminal.execution_syntax.prefix_tokens();
            &&& argv.len() == 1 + prefix.len() + command.len()
            &&& argv[0] == terminal.executable_path
            &&& argv.subrange(1, 1 + prefix.len() as int) == prefix
            &&& argv.skip(1 + prefix.len() as int) == command
        },
{
    let prefix = terminal.execution_syntax.prefix_tokens();
    let argv = invocation(terminal, command).unwrap();
    assert(argv.subrange(1, 1 + prefix.len() as int) =~= prefix);
    assert(argv.skip(1 + prefix.len() as int) =~= command);
}

/// With the double-dash syntax exactly one `--` is put in, right behind the
/// emulator: the command follows from the third place on, so a `--` further
/// on is the command's own.
pub proof fn double_dash_is_inserted_once(terminal: Descriptor, command: Seq<Seq<char>>)
    requires
        terminal.execution_syntax == ExecutionSyntax::DoubleDash,
    ensures
        invocation(terminal, command) == Some(
            seq![terminal.executable_path, "--"@] + command,
        ),
        invocation(terminal, command).unwrap().len() == command.len() + 2,
        invocation(terminal, command).unwrap()[1] == "--"@,
        invocation(terminal, command).unwrap().skip(2) == command,
{
    let argv = invocation(terminal, command).unwrap();
    assert(argv =~= seq![terminal.executable_path, "--"@] + command);
    assert(argv.skip(2) =~= command);
}

/// To build the whole invocation is to build the launcher and to add the
/// command behind it.
pub proof fn invocation_extends_the_launcher(terminal: Descriptor, command: Seq<Seq<char>>)
    ensures
        invocation(terminal, command) == match invocation(terminal, Seq::empty()) {
            Some(launcher) => Some(launcher + command),
            None => None,
        },
{
    if terminal.execution_syntax != ExecutionSyntax::NativeApi {
        assert(invocation(terminal, command).unwrap() =~= invocation(
            terminal,
            Seq::empty(),
        ).unwrap() + command);
    }
}

} // verus!
