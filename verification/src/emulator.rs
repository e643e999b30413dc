//! The result of a detection: which emulator, where it is, how it takes a
//! command, and how it was found.

use vstd::prelude::*;
use crate::method::DetectionMethod;
use crate::syntax::ExecutionSyntax;

verus! {

/// What a [`TerminalEmulator`] holds, as plain mathematical values.
pub struct Descriptor {
    /// The emulator's name as a person would recognise it.
    pub display_name: Seq<char>,
    /// The path of the emulator's executable; empty where none is started.
    pub executable_path: Seq<char>,
    /// How the emulator takes a command.
    pub execution_syntax: ExecutionSyntax,
    /// The method that found the emulator.
    pub detection_method: DetectionMethod,
}

impl Descriptor {
    /// A descriptor names an executable exactly when a process is to be
    /// started: with the native syntax the path is empty, with every other
    /// syntax it is not.
    pub open spec fn well_formed(self) -> bool {
        (self.execution_syntax == ExecutionSyntax::NativeApi) <==> (self.executable_path.len() == 0)
    }

    /// The name under which an emulator is shown that `method` found as
    /// `name`: that name, but for Terminal.app, which is found at a place
    /// and shown under its own name.
    pub open spec fn shown_name(method: DetectionMethod, name: Seq<char>) -> Seq<char> {
        if method == DetectionMethod::TerminalApp {
            "Terminal.app"@
        } else {
            name
        }
    }

    /// The emulator that `method` found under `name`, resolved to `path`.
    /// It takes commands in the method's syntax; where that is the native
    /// one, no process is started and the path is left out.
    pub open spec fn found(method: DetectionMethod, name: Seq<char>, path: Seq<char>) -> Descriptor {
        Descriptor {
            display_name: Descriptor::shown_name(method, name),
            executable_path: if method.syntax() == ExecutionSyntax::NativeApi {
                Seq::empty()
            } else {
                path
            },
            execution_syntax: method.syntax(),
            detection_method: method,
        }
    }

    /// The console of Windows: it has no name and no path, and comes from
    /// the system's own facility.
    pub open spec fn windows() -> Descriptor {
        Descriptor::found(DetectionMethod::Windows, Seq::empty(), Seq::empty())
    }
}

/// Represents a terminal emulator.
#[derive(Debug, PartialEq, Eq)]
pub struct TerminalEmulator {
    display_name: String,
    execution_syntax: ExecutionSyntax,
    executable_path: String,
    detection_method: DetectionMethod,
}

impl View for TerminalEmulator {
    type V = Descriptor;

    closed spec fn view(&self) -> Descriptor {
        Descriptor {
            display_name: self.display_name@,
            executable_path: self.executable_path@,
            execution_syntax: self.execution_syntax,
            detection_method: self.detection_method,
        }
    }
}

impl Clone for TerminalEmulator {
    fn clone(&self) -> (copy: TerminalEmulator)
        ensures
            copy@ == self@,
    {
        proof {
            use_type_invariant(self);
        }
        TerminalEmulator {
            display_name: self.display_name.clone(),
            execution_syntax: self.execution_syntax,
            executable_path: self.executable_path.clone(),
            detection_method: self.detection_method,
        }
    }
}

impl TerminalEmulator {
    #[verifier::type_invariant]
    closed spec fn holds_a_path_unless_native(&self) -> bool {
        self@.well_formed()
    }

    /// Makes a descriptor of the four values, if they fit together: `None`
    /// where a path comes with the native syntax, or none with another.
    pub fn new(
        display_name: String,
        executable_path: String,
        execution_syntax: ExecutionSyntax,
        detection_method: DetectionMethod,
    ) -> (made: Option<TerminalEmulator>)
        ensures
            made.is_some() == (Descriptor {
                display_name: display_name@,
                executable_path: executable_path@,
                execution_syntax,
                detection_method,
            }).well_formed(),
            made matches Some(terminal) ==> terminal@ == (Descriptor {
                display_name: display_name@,
                executable_path: executable_path@,
                execution_syntax,
                detection_method,
            }),
    {
        let native = execution_syntax == ExecutionSyntax::NativeApi;
        let pathless = executable_path.as_str().is_empty();
        if native == pathless {
            Some(TerminalEmulator { display_name, execution_syntax, executable_path, detection_method })
        } else {
            None
        }
    }

    /// The emulator that `method` found under `name`, resolved to `path`.
    pub(crate) fn found(method: DetectionMethod, name: String, path: String) -> (terminal:
        TerminalEmulator)
        requires
            path@.len() > 0,
        ensures
            terminal@ == Descriptor::found(method, name@, path@),
    {
        let execution_syntax = method.execution_syntax();
        let executable_path = if execution_syntax == ExecutionSyntax::NativeApi {
            String::new()
        } else {
            path
        };
        let display_name = if method == DetectionMethod::TerminalApp {
            "Terminal.app".to_owned()
        } else {
            name
        };
        TerminalEmulator {
            display_name,
            execution_syntax,
            executable_path,
            detection_method: method,
        }
    }

    /// The console of Windows.
    pub fn windows() -> (terminal: TerminalEmulator)
        ensures
            terminal@ == Descriptor::windows(),
    {
        TerminalEmulator {
            display_name: String::new(),
            execution_syntax: ExecutionSyntax::NativeApi,
            executable_path: String::new(),
            detection_method: DetectionMethod::Windows,
        }
    }

    /// The emulator's name as a person would recognise it.
    pub fn display_name(&self) -> (name: &str)
        ensures
            name@ == self@.display_name,
    {
        self.display_name.as_str()
    }

    /// The path of the emulator's executable; empty where none is started.
    pub fn executable_path(&self) -> (path: &str)
        ensures
            path@ == self@.executable_path,
            (path@.len() == 0) == (self@.execution_syntax == ExecutionSyntax::NativeApi),
    {
        proof {
            use_type_invariant(self);
        }
        self.executable_path.as_str()
    }

    /// How the emulator takes a command.
    pub fn execution_syntax(&self) -> (syntax: ExecutionSyntax)
        ensures
            syntax == self@.execution_syntax,
    {
        self.execution_syntax
    }

    /// The method that found the emulator.
    pub fn detection_method(&self) -> (method: DetectionMethod)
        ensures
            method == self@.detection_method,
    {
        self.detection_method
    }
}

} // verus!
