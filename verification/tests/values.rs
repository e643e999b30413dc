use terminal_emulator::catalogue::names;
use terminal_emulator::plan::{applies_on, methods_by_priority, stage_plan};
use terminal_emulator::stage::{confirmation_of, source_of};
use terminal_emulator::text::{blank, extract, trim, unquote};
use terminal_emulator::{
    DetectionMethod, ExecutionSyntax, Helper, Platform, Probe, Reply, StageSet, TERMINAL_EMULATOR,
};

fn all_methods() -> [DetectionMethod; 11] {
    [
        DetectionMethod::Windows,
        DetectionMethod::EnvironmentVariable,
        DetectionMethod::TerminalApp,
        DetectionMethod::XdgTerminalExec,
        DetectionMethod::XTerminalEmulator,
        DetectionMethod::GnomeSettings,
        DetectionMethod::KdeSettings,
        DetectionMethod::HardcodedDesktopEnv,
        DetectionMethod::HardcodedModern,
        DetectionMethod::HardcodedTraditional,
        DetectionMethod::HardcodedExtended,
    ]
}

#[test]
fn hardcoded_methods_are_the_last_four() {
    let hardcoded: Vec<bool> = all_methods().iter().map(|method| method.is_hardcoded()).collect();
    assert_eq!(
        hardcoded,
        vec![false, false, false, false, false, false, false, true, true, true, true]
    );
}

#[test]
fn method_labels() {
    let labels: Vec<&str> = all_methods().iter().map(|method| method.label()).collect();
    assert_eq!(
        labels,
        vec![
            "Windows",
            "Environment Variable",
            "Terminal.app",
            "xdg-terminal-exec",
            "x-terminal-emulator",
            "GNOME Settings",
            "KDE Settings",
            "Hardcoded Desktop Environment List",
            "Hardcoded Modern List",
            "Hardcoded Traditional List",
            "Hardcoded Extended List",
        ]
    );
}

#[test]
fn methods_are_ordered_by_priority() {
    let methods = all_methods();
    assert_eq!(methods_by_priority(), methods.to_vec());
    for (place, method) in methods.iter().enumerate() {
        assert_eq!(method.priority() as usize, place);
    }
    for first in methods {
        for second in methods {
            assert_eq!(first.cmp(&second), first.priority().cmp(&second.priority()));
            assert_eq!(first < second, first.priority() < second.priority());
            assert_eq!(first == second, first.priority() == second.priority());
        }
    }
}

#[test]
fn methods_have_their_syntax() {
    let syntaxes: Vec<ExecutionSyntax> =
        all_methods().iter().map(|method| method.execution_syntax()).collect();
    assert_eq!(
        syntaxes,
        vec![
            ExecutionSyntax::NativeApi,
            ExecutionSyntax::E,
            ExecutionSyntax::NativeApi,
            ExecutionSyntax::Command,
            ExecutionSyntax::E,
            ExecutionSyntax::E,
            ExecutionSyntax::E,
            ExecutionSyntax::E,
            ExecutionSyntax::E,
            ExecutionSyntax::E,
            ExecutionSyntax::E,
        ]
    );
}

#[test]
fn sources_of_the_methods() {
    assert_eq!(source_of(DetectionMethod::EnvironmentVariable), Some(Probe::Variable));
    assert_eq!(source_of(DetectionMethod::GnomeSettings), Some(Probe::Query(Helper::GnomeSettings)));
    assert_eq!(source_of(DetectionMethod::KdeSettings), Some(Probe::Query(Helper::KdeSettings)));
    for method in [
        DetectionMethod::Windows,
        DetectionMethod::TerminalApp,
        DetectionMethod::XdgTerminalExec,
        DetectionMethod::XTerminalEmulator,
        DetectionMethod::HardcodedDesktopEnv,
        DetectionMethod::HardcodedModern,
        DetectionMethod::HardcodedTraditional,
        DetectionMethod::HardcodedExtended,
    ] {
        assert_eq!(source_of(method), None);
    }
    assert_eq!(TERMINAL_EMULATOR, "TERMINAL_EMULATOR");
}

#[test]
fn confirmations_of_the_methods() {
    for method in all_methods() {
        let expected = if method == DetectionMethod::XdgTerminalExec {
            Some(Probe::Query(Helper::XdgTerminalExec))
        } else {
            None
        };
        assert_eq!(confirmation_of(method), expected);
    }
}

#[test]
fn fixed_names_of_the_methods() {
    assert!(names(DetectionMethod::Windows).is_empty());
    assert!(names(DetectionMethod::EnvironmentVariable).is_empty());
    assert!(names(DetectionMethod::GnomeSettings).is_empty());
    assert!(names(DetectionMethod::KdeSettings).is_empty());
    assert_eq!(
        names(DetectionMethod::TerminalApp),
        vec![
            "/System/Applications/Utilities/Terminal.app/Contents/MacOS/Terminal",
            "/Applications/Utilities/Terminal.app/Contents/MacOS/Terminal",
        ]
    );
    assert_eq!(names(DetectionMethod::XdgTerminalExec), vec!["xdg-terminal-exec"]);
    assert_eq!(names(DetectionMethod::XTerminalEmulator), vec!["x-terminal-emulator"]);
    assert_eq!(names(DetectionMethod::HardcodedTraditional).len(), 11);
    assert_eq!(names(DetectionMethod::HardcodedTraditional)[0], "xterm");
    assert_eq!(names(DetectionMethod::HardcodedDesktopEnv).len(), 10);
    assert_eq!(names(DetectionMethod::HardcodedModern).len(), 12);
    assert_eq!(names(DetectionMethod::HardcodedExtended).len(), 10);
}

#[test]
fn plan_on_windows_is_the_windows_stage() {
    assert_eq!(stage_plan(Platform::Windows, &StageSet::all()), vec![DetectionMethod::Windows]);
    assert_eq!(stage_plan(Platform::Windows, &StageSet::none()), vec![DetectionMethod::Windows]);
}

#[test]
fn plan_holds_the_enabled_stages_by_priority() {
    let everything = all_methods();
    let mut on_macos = everything[1..].to_vec();
    assert_eq!(stage_plan(Platform::MacOs, &StageSet::all()), on_macos);
    on_macos.remove(1);
    assert_eq!(stage_plan(Platform::Unix, &StageSet::all()), on_macos);
    assert!(stage_plan(Platform::Unix, &StageSet::none()).is_empty());
    assert!(stage_plan(Platform::MacOs, &StageSet::none()).is_empty());
    let some = StageSet::none()
        .with(DetectionMethod::HardcodedExtended, true)
        .with(DetectionMethod::KdeSettings, true)
        .with(DetectionMethod::TerminalApp, true)
        .with(DetectionMethod::Windows, true);
    assert_eq!(
        stage_plan(Platform::Unix, &some),
        vec![DetectionMethod::KdeSettings, DetectionMethod::HardcodedExtended]
    );
    assert_eq!(
        stage_plan(Platform::MacOs, &some),
        vec![
            DetectionMethod::TerminalApp,
            DetectionMethod::KdeSettings,
            DetectionMethod::HardcodedExtended
        ]
    );
}

#[test]
fn stages_apply_on_their_platforms() {
    for method in all_methods() {
        assert_eq!(applies_on(method, Platform::Windows), method == DetectionMethod::Windows);
        assert_eq!(
            applies_on(method, Platform::Unix),
            method != DetectionMethod::Windows && method != DetectionMethod::TerminalApp
        );
        assert_eq!(applies_on(method, Platform::MacOs), method != DetectionMethod::Windows);
    }
}

#[test]
fn stage_switches() {
    let all = StageSet::all();
    let none = StageSet::none();
    for method in all_methods() {
        assert!(all.enables(method));
        assert_eq!(none.enables(method), method == DetectionMethod::Windows);
        assert!(none.with(method, true).enables(method));
        assert_eq!(all.with(method, false).enables(method), method == DetectionMethod::Windows);
        for other in all_methods() {
            if other != method {
                assert!(all.with(method, false).enables(other));
                assert_eq!(
                    none.with(method, true).enables(other),
                    other == DetectionMethod::Windows
                );
            }
        }
    }
    assert_eq!(all.with(DetectionMethod::Windows, false), all);
    assert!(!all.with(DetectionMethod::GnomeSettings, false).gnome_settings);
}

#[test]
fn trimming_takes_the_blanks_away() {
    assert_eq!(trim("  konsole \r\n"), "konsole");
    assert_eq!(trim("\tgnome terminal\n"), "gnome terminal");
    assert_eq!(trim("xterm"), "xterm");
    assert_eq!(trim(""), "");
    assert_eq!(trim(" \t\r\n"), "");
    assert_eq!(trim("\u{a0}kitty\u{a0}"), "\u{a0}kitty\u{a0}");
    assert_eq!(trim(" térm "), "térm");
    assert_eq!(trim(trim("  a b  ")), trim("  a b  "));
    assert!(blank(' ') && blank('\t') && blank('\n') && blank('\r'));
    assert!(!blank('x') && !blank('\'') && !blank('\u{c}'));
}

#[test]
fn unquoting_takes_one_pair_of_quotes() {
    assert_eq!(unquote("'gnome-terminal'"), "gnome-terminal");
    assert_eq!(unquote("''"), "");
    assert_eq!(unquote("'"), "'");
    assert_eq!(unquote("'kgx"), "'kgx");
    assert_eq!(unquote("kgx'"), "kgx'");
    assert_eq!(unquote("''kgx''"), "'kgx'");
    assert_eq!(unquote("\"kgx\""), "\"kgx\"");
    assert_eq!(unquote(""), "");
}

#[test]
fn extraction_trims_then_unquotes() {
    assert_eq!(extract("'gnome-terminal'\n"), "gnome-terminal");
    assert_eq!(extract("  ' kgx '  "), " kgx ");
    assert_eq!(extract("konsole\n"), "konsole");
    assert_eq!(extract("''\n"), "");
    assert_eq!(extract("\n"), "");
}

#[test]
fn usable_text_of_replies() {
    assert_eq!(Reply::Value("kitty".to_string()).usable(), Some("kitty".to_string()));
    assert_eq!(Reply::Value(" kitty\n".to_string()).usable(), Some(" kitty\n".to_string()));
    assert_eq!(Reply::Value(String::new()).usable(), None);
    assert_eq!(
        Reply::Exited { status: 0, output: "'kgx'\n".to_string() }.usable(),
        Some("kgx".to_string())
    );
    assert_eq!(Reply::Exited { status: 0, output: "''\n".to_string() }.usable(), None);
    assert_eq!(Reply::Exited { status: 0, output: String::new() }.usable(), None);
    assert_eq!(Reply::Exited { status: 1, output: "kgx".to_string() }.usable(), None);
    assert_eq!(Reply::Exited { status: -9, output: "kgx".to_string() }.usable(), None);
    assert_eq!(Reply::Nothing.usable(), None);
    assert_eq!(Reply::TimedOut.usable(), None);
    assert_eq!(Reply::Malformed.usable(), None);
    assert_eq!(Reply::from_value(None), Reply::Nothing);
    assert_eq!(Reply::from_value(Some("a".to_string())), Reply::Value("a".to_string()));
}

#[test]
fn helpers_are_asked_with_their_command_lines() {
    assert_eq!(Helper::XdgTerminalExec.command_line(), vec!["xdg-terminal-exec", "--print-id"]);
    assert_eq!(
        Helper::GnomeSettings.command_line(),
        vec!["gsettings", "get", "org.gnome.desktop.default-applications.terminal", "exec"]
    );
    assert_eq!(
        Helper::KdeSettings.command_line(),
        vec![
            "kreadconfig5",
            "--file",
            "kdeglobals",
            "--group",
            "General",
            "--key",
            "TerminalApplication"
        ]
    );
}
