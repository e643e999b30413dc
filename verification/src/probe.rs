//! The questions that detection asks of its surroundings, and the answers
//! that it takes. To ask is the caller's part; what an answer is worth is
//! decided here.

use vstd::prelude::*;
use vstd::string::*;
use crate::text::{extract, extracted};

verus! {

/// The environment variable that names the terminal emulator to use.
pub const TERMINAL_EMULATOR: &'static str = "TERMINAL_EMULATOR";

/// A helper program or settings store that can be asked for the configured
/// terminal emulator.
#[derive(Debug, Clone, Copy, PartialEq, Eq, Structural, Hash)]
pub enum Helper {
    /// The `xdg-terminal-exec` helper.
    XdgTerminalExec,
    /// The GNOME preference store.
    GnomeSettings,
    /// The KDE configuration.
    KdeSettings,
}

impl Helper {
    /// The command line that asks the helper: the program, then its
    /// arguments. It only reads what is configured.
    pub open spec fn command(self) -> Seq<Seq<char>> {
        match self {
            Helper::XdgTerminalExec => seq!["xdg-terminal-exec"@, "--print-id"@],
            Helper::GnomeSettings => seq![
                "gsettings"@,
                "get"@,
                "org.gnome.desktop.default-applications.terminal"@,
                "exec"@,
            ],
            Helper::KdeSettings => seq![
                "kreadconfig5"@,
                "--file"@,
                "kdeglobals"@,
                "--group"@,
                "General"@,
                "--key"@,
                "TerminalApplication"@,
            ],
        }
    }

    /// The command line that asks the helper: the program, then its
    /// arguments.
    pub fn command_line(&self) -> (words: Vec<&'static str>)
        ensures
            words.deep_view() == self.command(),
            words.len() >= 2,
    {
        let words = match self {
            Helper::XdgTerminalExec => vec!["xdg-terminal-exec", "--print-id"],
            Helper::GnomeSettings => vec![
                "gsettings",
                "get",
                "org.gnome.desktop.default-applications.terminal",
                "exec",
            ],
            Helper::KdeSettings => vec![
                "kreadconfig5",
                "--file",
                "kdeglobals",
                "--group",
                "General",
                "--key",
                "TerminalApplication",
            ],
        };
        assert(words.deep_view() =~= self.command());
        words
    }
}

/// A question, as plain mathematical values.
pub enum ProbeView {
    /// What does the variable `TERMINAL_EMULATOR` hold?
    Variable,
    /// What does this helper give as the configured emulator?
    Query(Helper),
    /// Is the file at this absolute path an executable?
    Executable(Seq<char>),
    /// Where on `PATH` is an executable of this name?
    Search(Seq<char>),
}

/// A question that detection asks of its surroundings.
#[derive(Debug, PartialEq, Eq)]
pub enum Probe {
    /// What does the variable `TERMINAL_EMULATOR` hold?
    Variable,
    /// What does this helper give as the configured emulator? The helper
    /// is run with its command line and only asked; it is never used to
    /// start a terminal.
    Query(Helper),
    /// Is the file at this absolute path an executable? The answer is the
    /// path itself if it is, and nothing if not.
    Executable(String),
    /// Where on `PATH` is an executable of this name? The answer is the path
    /// of the first match, and nothing if there is none.
    Search(String),
}

impl View for Probe {
    type V = ProbeView;

    open spec fn view(&self) -> ProbeView {
        match self {
            Probe::Variable => ProbeView::Variable,
            Probe::Query(helper) => ProbeView::Query(*helper),
            Probe::Executable(path) => ProbeView::Executable(path@),
            Probe::Search(name) => ProbeView::Search(name@),
        }
    }
}

impl Clone for Probe {
    fn clone(&self) -> (copy: Probe)
        ensures
            copy@ == self@,
    {
        match self {
            Probe::Variable => Probe::Variable,
            Probe::Query(helper) => Probe::Query(*helper),
            Probe::Executable(path) => Probe::Executable(path.clone()),
            Probe::Search(name) => Probe::Search(name.clone()),
        }
    }
}

/// Whether the name is an absolute path: it begins with a slash.
pub open spec fn is_absolute(name: Seq<char>) -> bool {
    name.len() > 0 && name[0] == '/'
}

/// The probe that resolves the name to an executable: an absolute path is
/// taken as it is, and everything else is looked for on `PATH`.
pub open spec fn resolution(name: Seq<char>) -> ProbeView {
    if is_absolute(name) {
        ProbeView::Executable(name)
    } else {
        ProbeView::Search(name)
    }
}

impl Probe {
    /// The probe that resolves the name to an executable: an absolute path
    /// is taken as it is, and everything else is looked for on `PATH`.
    pub fn resolve(name: String) -> (probe: Probe)
        ensures
            probe@ == resolution(name@),
    {
        let absolute = !name.as_str().is_empty() && name.as_str().get_char(0) == '/';
        if absolute {
            Probe::Executable(name)
        } else {
            Probe::Search(name)
        }
    }
}

/// An answer, as plain mathematical values.
pub enum ReplyView {
    /// See [`Reply::Value`].
    Value(Seq<char>),
    /// See [`Reply::Exited`].
    Exited { status: i32, output: Seq<char> },
    /// See [`Reply::Nothing`].
    Nothing,
    /// See [`Reply::TimedOut`].
    TimedOut,
    /// See [`Reply::Malformed`].
    Malformed,
}

/// What the surroundings answered to a probe.
#[derive(Debug, PartialEq, Eq)]
pub enum Reply {
    /// A value as it stands: what the variable holds, or the path that the
    /// name resolved to.
    Value(String),
    /// The helper ran to its end, with this exit status and this text on
    /// its standard output.
    Exited { status: i32, output: String },
    /// There is nothing: the variable is not set, the name does not
    /// resolve, the helper could not be started or ended without a status.
    Nothing,
    /// The helper did not end in the time it was given.
    TimedOut,
    /// The helper's output was not text.
    Malformed,
}

impl View for Reply {
    type V = ReplyView;

    open spec fn view(&self) -> ReplyView {
        match self {
            Reply::Value(text) => ReplyView::Value(text@),
            Reply::Exited { status, output } => ReplyView::Exited {
                status: *status,
                output: output@,
            },
            Reply::Nothing => ReplyView::Nothing,
            Reply::TimedOut => ReplyView::TimedOut,
            Reply::Malformed => ReplyView::Malformed,
        }
    }
}

impl Clone for Reply {
    fn clone(&self) -> (copy: Reply)
        ensures
            copy@ == self@,
    {
        match self {
            Reply::Value(text) => Reply::Value(text.clone()),
            Reply::Exited { status, output } => Reply::Exited {
                status: *status,
                output: output.clone(),
            },
            Reply::Nothing => Reply::Nothing,
            Reply::TimedOut => Reply::TimedOut,
            Reply::Malformed => Reply::Malformed,
        }
    }
}

/// The text that an answer gives, if it gives any. A value counts unless it
/// is empty. A helper's output counts if the helper ended with status 0 and
/// something is left of the output once the blanks and quotes around it
/// are gone. Every other answer is a decline, never an error.
pub open spec fn usable(reply: ReplyView) -> Option<Seq<char>> {
    match reply {
        ReplyView::Value(text) => if text.len() > 0 {
            Some(text)
        } else {
            None
        },
        ReplyView::Exited { status, output } => if status == 0 && extracted(output).len() > 0 {
            Some(extracted(output))
        } else {
            None
        },
        ReplyView::Nothing | ReplyView::TimedOut | ReplyView::Malformed => None,
    }
}

impl Reply {
    /// The answer that carries `value` if there is one, and nothing if not.
    pub fn from_value(value: Option<String>) -> (reply: Reply)
        ensures
            reply@ == match value {
                Some(text) => ReplyView::Value(text@),
                None => ReplyView::Nothing,
            },
    {
        match value {
            Some(text) => Reply::Value(text),
            None => Reply::Nothing,
        }
    }

    /// The text that the answer gives, if it gives any.
    pub fn usable(&self) -> (text: Option<String>)
        ensures
            text.deep_view() == usable(self@),
    {
        match self {
            Reply::Value(text) => {
                if text.as_str().is_empty() {
                    None
                } else {
                    Some(text.clone())
                }
            },
            Reply::Exited { status, output } => {
                if *status != 0 {
                    return None;
                }
                let value = extract(output.as_str());
                if value.is_empty() {
                    None
                } else {
                    Some(value.to_owned())
                }
            },
            _ => None,
        }
    }
}

/// A helper that failed, in whatever way, gives nothing to go on: a status
/// other than 0, a timeout, output that is no text, nothing at all.
pub proof fn failures_are_declines(reply: ReplyView)
    requires
        match reply {
            ReplyView::Value(text) => false,
            ReplyView::Exited { status, output } => status != 0,
            ReplyView::Nothing | ReplyView::TimedOut | ReplyView::Malformed => true,
        },
    ensures
        usable(reply) is None,
{
}

/// A usable text is never empty.
pub proof fn usable_text_is_not_empty(reply: ReplyView)
    ensures
        usable(reply) matches Some(text) ==> text.len() > 0,
{
}

} // verus!
