//! The strategies by which a terminal emulator can be found, in the order in
//! which they are tried.

use std::cmp::Ordering;
use vstd::prelude::*;
use crate::syntax::ExecutionSyntax;

verus! {

/// Methods used to detect the default terminal emulator.
///
/// The variants are declared in the order of their priority, and they are
/// ordered by it: a method is less than another if its stage is tried
/// before the other's.
#[derive(Debug, Clone, Copy, PartialEq, Eq, Structural, Hash, Ord)]
pub enum DetectionMethod {
    /// The host is Windows: the console comes from the Windows API.
    Windows,
    /// The `TERMINAL_EMULATOR` environment variable names the emulator.
    EnvironmentVariable,
    /// Terminal.app on macOS.
    TerminalApp,
    /// The `xdg-terminal-exec` helper.
    XdgTerminalExec,
    /// The `x-terminal-emulator` alternative of Debian-style systems.
    XTerminalEmulator,
    /// The terminal configured in the GNOME settings.
    GnomeSettings,
    /// The terminal configured in the KDE settings.
    KdeSettings,
    /// The list of emulators that belong to a desktop environment.
    HardcodedDesktopEnv,
    /// The list of modern emulators.
    HardcodedModern,
    /// The list of traditional emulators.
    HardcodedTraditional,
    /// The list of further known emulators.
    HardcodedExtended,
}

impl DetectionMethod {
    /// The place of the method in the order of priority, from 0.
    pub open spec fn rank(self) -> nat {
        match self {
            DetectionMethod::Windows => 0,
            DetectionMethod::EnvironmentVariable => 1,
            DetectionMethod::TerminalApp => 2,
            DetectionMethod::XdgTerminalExec => 3,
            DetectionMethod::XTerminalEmulator => 4,
            DetectionMethod::GnomeSettings => 5,
            DetectionMethod::KdeSettings => 6,
            DetectionMethod::HardcodedDesktopEnv => 7,
            DetectionMethod::HardcodedModern => 8,
            DetectionMethod::HardcodedTraditional => 9,
            DetectionMethod::HardcodedExtended => 10,
        }
    }

    /// Whether the method walks a fixed list of known emulators.
    pub open spec fn hardcoded(self) -> bool {
        self.rank() >= DetectionMethod::HardcodedDesktopEnv.rank()
    }

    /// The syntax by which an emulator found by this method takes a command.
    pub open spec fn syntax(self) -> ExecutionSyntax {
        match self {
            DetectionMethod::Windows | DetectionMethod::TerminalApp => ExecutionSyntax::NativeApi,
            DetectionMethod::XdgTerminalExec => ExecutionSyntax::Command,
            _ => ExecutionSyntax::E,
        }
    }

    /// The text that names the method to a reader.
    pub open spec fn label_text(self) -> Seq<char> {
        match self {
            DetectionMethod::Windows => "Windows"@,
            DetectionMethod::EnvironmentVariable => "Environment Variable"@,
            DetectionMethod::TerminalApp => "Terminal.app"@,
            DetectionMethod::XdgTerminalExec => "xdg-terminal-exec"@,
            DetectionMethod::XTerminalEmulator => "x-terminal-emulator"@,
            DetectionMethod::GnomeSettings => "GNOME Settings"@,
            DetectionMethod::KdeSettings => "KDE Settings"@,
            DetectionMethod::HardcodedDesktopEnv => "Hardcoded Desktop Environment List"@,
            DetectionMethod::HardcodedModern => "Hardcoded Modern List"@,
            DetectionMethod::HardcodedTraditional => "Hardcoded Traditional List"@,
            DetectionMethod::HardcodedExtended => "Hardcoded Extended List"@,
        }
    }

    /// Returns `true` if the detection method is a hardcoded list.
    pub fn is_hardcoded(&self) -> (answer: bool)
        ensures
            answer == self.hardcoded(),
            answer <==> *self == DetectionMethod::HardcodedDesktopEnv
                || *self == DetectionMethod::HardcodedModern
                || *self == DetectionMethod::HardcodedTraditional
                || *self == DetectionMethod::HardcodedExtended,
    {
        matches!(
            self,
            DetectionMethod::HardcodedDesktopEnv
                | DetectionMethod::HardcodedModern
                | DetectionMethod::HardcodedTraditional
                | DetectionMethod::HardcodedExtended
        )
    }

    /// The place of the method in the order of priority, from 0.
    pub fn priority(&self) -> (place: u8)
        ensures
            place == self.rank(),
    {
        match self {
            DetectionMethod::Windows => 0,
            DetectionMethod::EnvironmentVariable => 1,
            DetectionMethod::TerminalApp => 2,
            DetectionMethod::XdgTerminalExec => 3,
            DetectionMethod::XTerminalEmulator => 4,
            DetectionMethod::GnomeSettings => 5,
            DetectionMethod::KdeSettings => 6,
            DetectionMethod::HardcodedDesktopEnv => 7,
            DetectionMethod::HardcodedModern => 8,
            DetectionMethod::HardcodedTraditional => 9,
            DetectionMethod::HardcodedExtended => 10,
        }
    }

    /// The syntax by which an emulator found by this method takes a command.
    pub fn execution_syntax(&self) -> (syntax: ExecutionSyntax)
        ensures
            syntax == self.syntax(),
    {
        match self {
            DetectionMethod::Windows | DetectionMethod::TerminalApp => ExecutionSyntax::NativeApi,
            DetectionMethod::XdgTerminalExec => ExecutionSyntax::Command,
            _ => ExecutionSyntax::E,
        }
    }

    /// The method's name as a person would write it down.
    pub fn label(&self) -> (text: &'static str)
        ensures
            text@ == self.label_text(),
    {
        match self {
            DetectionMethod::Windows => "Windows",
            DetectionMethod::EnvironmentVariable => "Environment Variable",
            DetectionMethod::TerminalApp => "Terminal.app",
            DetectionMethod::XdgTerminalExec => "xdg-terminal-exec",
            DetectionMethod::XTerminalEmulator => "x-terminal-emulator",
            DetectionMethod::GnomeSettings => "GNOME Settings",
            DetectionMethod::KdeSettings => "KDE Settings",
            DetectionMethod::HardcodedDesktopEnv => "Hardcoded Desktop Environment List",
            DetectionMethod::HardcodedModern => "Hardcoded Modern List",
            DetectionMethod::HardcodedTraditional => "Hardcoded Traditional List",
            DetectionMethod::HardcodedExtended => "Hardcoded Extended List",
        }
    }
}

impl PartialOrd for DetectionMethod {
    /// A method comes before another if it is tried before it.
    fn partial_cmp(&self, other: &DetectionMethod) -> (order: Option<Ordering>) {
        let mine = self.priority();
        let theirs = other.priority();
        if mine < theirs {
            Some(Ordering::Less)
        } else if mine == theirs {
            Some(Ordering::Equal)
        } else {
            Some(Ordering::Greater)
        }
    }
}

impl vstd::std_specs::cmp::PartialOrdSpecImpl for DetectionMethod {
    open spec fn obeys_partial_cmp_spec() -> bool {
        true
    }

    open spec fn partial_cmp_spec(&self, other: &DetectionMethod) -> Option<Ordering> {
        if self.rank() < other.rank() {
            Some(Ordering::Less)
        } else if self.rank() == other.rank() {
            Some(Ordering::Equal)
        } else {
            Some(Ordering::Greater)
        }
    }
}

/// Every method, in the order of priority.
pub open spec fn priority_order() -> Seq<DetectionMethod> {
    seq![
        DetectionMethod::Windows,
        DetectionMethod::EnvironmentVariable,
        DetectionMethod::TerminalApp,
        DetectionMethod::XdgTerminalExec,
        DetectionMethod::XTerminalEmulator,
        DetectionMethod::GnomeSettings,
        DetectionMethod::KdeSettings,
        DetectionMethod::HardcodedDesktopEnv,
        DetectionMethod::HardcodedModern,
        DetectionMethod::HardcodedTraditional,
        DetectionMethod::HardcodedExtended,
    ]
}

/// The rank is the method's place in the order of priority, so two methods
/// of one rank are one method, and every method has its place.
pub proof fn rank_is_place_in_priority_order(method: DetectionMethod, other: DetectionMethod)
    ensures
        method.rank() < priority_order().len(),
        priority_order()[method.rank() as int] == method,
        method.rank() == other.rank() ==> method == other,
{
}

} // verus!
