//! The names under which terminal emulators are looked for: the four lists
//! of known emulators, each in its order of preference, and the names and
//! places that the other methods look for.

use vstd::prelude::*;
use crate::method::DetectionMethod;

verus! {

/// The traditional emulators, `xterm` first.
pub open spec fn traditional() -> Seq<Seq<char>> {
    seq![
        "xterm"@,
        "rxvt"@,
        "urxvt"@,
        "aterm"@,
        "eterm"@,
        "pterm"@,
        "mrxvt"@,
        "st"@,
        "mlterm"@,
        "fbterm"@,
        "kmscon"@,
    ]
}

/// The emulators that belong to a desktop environment.
pub open spec fn desktop_environment() -> Seq<Seq<char>> {
    seq![
        "kgx"@,
        "gnome-terminal"@,
        "konsole"@,
        "xfce4-terminal"@,
        "mate-terminal"@,
        "lxterminal"@,
        "qterminal"@,
        "ptyxis"@,
        "deepin-terminal"@,
        "io.elementary.terminal"@,
    ]
}

/// The modern emulators.
pub open spec fn modern() -> Seq<Seq<char>> {
    seq![
        "kitty"@,
        "alacritty"@,
        "wezterm"@,
        "ghostty"@,
        "foot"@,
        "rio"@,
        "contour"@,
        "hyper"@,
        "tabby"@,
        "blackbox"@,
        "warp"@,
        "extraterm"@,
    ]
}

/// Further known emulators.
pub open spec fn extended() -> Seq<Seq<char>> {
    seq![
        "terminator"@,
        "tilix"@,
        "guake"@,
        "yakuake"@,
        "tilda"@,
        "terminology"@,
        "cool-retro-term"@,
        "sakura"@,
        "roxterm"@,
        "edex-ui"@,
    ]
}

/// The places of Terminal.app's executable: where macOS has it today, and
/// where it had it before.
pub open spec fn terminal_app() -> Seq<Seq<char>> {
    seq![
        "/System/Applications/Utilities/Terminal.app/Contents/MacOS/Terminal"@,
        "/Applications/Utilities/Terminal.app/Contents/MacOS/Terminal"@,
    ]
}

/// The names that a method looks for whatever its surroundings say, in the
/// order in which it tries them. The methods that take their one name from
/// the surroundings have none.
pub open spec fn fixed_names(method: DetectionMethod) -> Seq<Seq<char>> {
    match method {
        DetectionMethod::Windows => Seq::empty(),
        DetectionMethod::EnvironmentVariable => Seq::empty(),
        DetectionMethod::TerminalApp => terminal_app(),
        DetectionMethod::XdgTerminalExec => seq!["xdg-terminal-exec"@],
        DetectionMethod::XTerminalEmulator => seq!["x-terminal-emulator"@],
        DetectionMethod::GnomeSettings => Seq::empty(),
        DetectionMethod::KdeSettings => Seq::empty(),
        DetectionMethod::HardcodedDesktopEnv => desktop_environment(),
        DetectionMethod::HardcodedModern => modern(),
        DetectionMethod::HardcodedTraditional => traditional(),
        DetectionMethod::HardcodedExtended => extended(),
    }
}

/// The names that a method looks for whatever its surroundings say, in the
/// order in which it tries them.
pub fn names(method: DetectionMethod) -> (list: Vec<&'static str>)
    ensures
        list.deep_view() == fixed_names(method),
{
    let list = match method {
        DetectionMethod::Windows => Vec::new(),
        DetectionMethod::EnvironmentVariable => Vec::new(),
        DetectionMethod::TerminalApp => vec![
            "/System/Applications/Utilities/Terminal.app/Contents/MacOS/Terminal",
            "/Applications/Utilities/Terminal.app/Contents/MacOS/Terminal",
        ],
        DetectionMethod::XdgTerminalExec => vec!["xdg-terminal-exec"],
        DetectionMethod::XTerminalEmulator => vec!["x-terminal-emulator"],
        DetectionMethod::GnomeSettings => Vec::new(),
        DetectionMethod::KdeSettings => Vec::new(),
        DetectionMethod::HardcodedDesktopEnv => vec![
            "kgx",
            "gnome-terminal",
            "konsole",
            "xfce4-terminal",
            "mate-terminal",
            "lxterminal",
            "qterminal",
            "ptyxis",
            "deepin-terminal",
            "io.elementary.terminal",
        ],
        DetectionMethod::HardcodedModern => vec![
            "kitty",
            "alacritty",
            "wezterm",
            "ghostty",
            "foot",
            "rio",
            "contour",
            "hyper",
            "tabby",
            "blackbox",
            "warp",
            "extraterm",
        ],
        DetectionMethod::HardcodedTraditional => vec![
            "xterm",
            "rxvt",
            "urxvt",
            "aterm",
            "eterm",
            "pterm",
            "mrxvt",
            "st",
            "mlterm",
            "fbterm",
            "kmscon",
        ],
        DetectionMethod::HardcodedExtended => vec![
            "terminator",
            "tilix",
            "guake",
            "yakuake",
            "tilda",
            "terminology",
            "cool-retro-term",
            "sakura",
            "roxterm",
            "edex-ui",
        ],
    };
    assert(list.deep_view() =~= fixed_names(method));
    list
}

/// Each list of known emulators has its names, and the methods that look
/// for one fixed name have one.
pub proof fn fixed_names_are_counted()
    ensures
        traditional().len() == 11,
        desktop_environment().len() == 10,
        modern().len() == 12,
        extended().len() == 10,
        forall|method: DetectionMethod| method.hardcoded() ==> fixed_names(method).len() >= 10,
        traditional()[0] == "xterm"@,
{
}

} // verus!
