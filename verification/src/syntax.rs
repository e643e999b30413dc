//! How a command line is handed to a terminal emulator.

use vstd::prelude::*;

verus! {

/// The way a terminal emulator takes the command it is to run.
#[derive(Debug, Clone, Copy, PartialEq, Eq, Structural, Hash, PartialOrd, Ord)]
pub enum ExecutionSyntax {
    /// `terminal [command]`
    Command,
    /// `terminal -- command`
    DoubleDash,
    /// `terminal -e command`
    E,
    /// No process is started: the platform's own console facility is used.
    NativeApi,
}

impl ExecutionSyntax {
    /// The token that stands between the emulator and the command, where the
    /// syntax has one.
    pub open spec fn prefix(self) -> Option<Seq<char>> {
        match self {
            ExecutionSyntax::DoubleDash => Some("--"@),
            ExecutionSyntax::E => Some("-e"@),
            ExecutionSyntax::Command | ExecutionSyntax::NativeApi => None,
        }
    }

    /// The tokens that the syntax puts before the command: the prefix alone,
    /// or nothing.
    pub open spec fn prefix_tokens(self) -> Seq<Seq<char>> {
        match self.prefix() {
            Some(token) => seq![token],
            None => Seq::empty(),
        }
    }

    /// The text that describes the syntax to a reader.
    pub open spec fn label_text(self) -> Seq<char> {
        match self {
            ExecutionSyntax::Command => "[command]"@,
            ExecutionSyntax::DoubleDash => "-- [command]"@,
            ExecutionSyntax::E => "-e [command]"@,
            ExecutionSyntax::NativeApi => "Native API"@,
        }
    }

    /// Returns the execution syntax as the argument.
    pub fn as_arg(&self) -> (arg: Option<&'static str>)
        ensures
            arg.is_some() == self.prefix().is_some(),
            arg matches Some(token) ==> self.prefix() == Some(token@),
    {
        match self {
            ExecutionSyntax::DoubleDash => Some("--"),
            ExecutionSyntax::E => Some("-e"),
            _ => None,
        }
    }

    /// The syntax as a person would write it down.
    pub fn label(&self) -> (text: &'static str)
        ensures
            text@ == self.label_text(),
    {
        match self {
            ExecutionSyntax::Command => "[command]",
            ExecutionSyntax::DoubleDash => "-- [command]",
            ExecutionSyntax::E => "-e [command]",
            ExecutionSyntax::NativeApi => "Native API",
        }
    }
}

impl Default for ExecutionSyntax {
    /// `-e` is the syntax that most emulators understand.
    fn default() -> (syntax: ExecutionSyntax)
        ensures
            syntax == ExecutionSyntax::E,
    {
        ExecutionSyntax::E
    }
}

/// The two prefixes are what they look like: two characters each, and
/// different from each other.
pub proof fn prefixes_are_distinct()
    ensures
        ExecutionSyntax::DoubleDash.prefix() == Some(seq!['-', '-']),
        ExecutionSyntax::E.prefix() == Some(seq!['-', 'e']),
        ExecutionSyntax::DoubleDash.prefix() != ExecutionSyntax::E.prefix(),
{
    reveal_strlit("--");
    reveal_strlit("-e");
    assert("--"@ =~= seq!['-', '-']);
    assert("-e"@ =~= seq!['-', 'e']);
    assert(seq!['-', '-'][1] != seq!['-', 'e'][1]);
}

} // verus!
