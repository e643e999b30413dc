use terminal_emulator::{
    build_invocation, detect, DetectionError, DetectionMethod, Executable, ExecutionSyntax, Host, Platform, Reply,
    StageSet, TerminalEmulator,
};

fn installed(list: &[(&str, &str)]) -> Vec<Executable> {
    list.iter()
        .map(|(name, path)| Executable { name: name.to_string(), path: path.to_string() })
        .collect()
}

fn bare(platform: Platform, stages: StageSet) -> Host {
    Host {
        platform,
        stages,
        variable: None,
        xdg_terminal_exec: Reply::Nothing,
        gnome_settings: Reply::Nothing,
        kde_settings: Reply::Nothing,
        executables: Vec::new(),
    }
}

fn only(method: DetectionMethod) -> StageSet {
    StageSet::none().with(method, true)
}

fn expect(found: &TerminalEmulator, name: &str, path: &str, method: DetectionMethod) {
    assert_eq!(found.display_name(), name);
    assert_eq!(found.executable_path(), path);
    assert_eq!(found.detection_method(), method);
    assert_eq!(found.execution_syntax(), method.execution_syntax());
}

fn exited(status: i32, output: &str) -> Reply {
    Reply::Exited { status, output: output.to_string() }
}

#[test]
fn windows_gives_the_windows_console() {
    for stages in [StageSet::all(), StageSet::none(), only(DetectionMethod::HardcodedModern)] {
        let mut host = bare(Platform::Windows, stages);
        host.variable = Some("kitty".to_string());
        host.executables = installed(&[("kitty", "/usr/bin/kitty"), ("xterm", "/usr/bin/xterm")]);
        let found = detect(&host).unwrap();
        assert_eq!(found, TerminalEmulator::windows());
        assert_eq!(found.detection_method(), DetectionMethod::Windows);
        assert_eq!(found.execution_syntax(), ExecutionSyntax::NativeApi);
        assert_eq!(found.executable_path(), "");
    }
}

#[test]
fn other_platforms_never_give_the_windows_console() {
    for platform in [Platform::MacOs, Platform::Unix] {
        for stages in [StageSet::all(), StageSet::none(), only(DetectionMethod::TerminalApp)] {
            let mut host = bare(platform, stages);
            if let Ok(found) = detect(&host) {
                assert_ne!(found.detection_method(), DetectionMethod::Windows);
            }
            host.executables = installed(&[
                (
                    "/System/Applications/Utilities/Terminal.app/Contents/MacOS/Terminal",
                    "/System/Applications/Utilities/Terminal.app/Contents/MacOS/Terminal",
                ),
                ("xterm", "/usr/bin/xterm"),
            ]);
            if let Ok(found) = detect(&host) {
                assert_ne!(found.detection_method(), DetectionMethod::Windows);
            }
        }
    }
}

#[test]
fn variable_wins_over_every_other_stage() {
    let mut host = bare(Platform::Unix, StageSet::all());
    host.variable = Some("wezterm".to_string());
    host.xdg_terminal_exec = exited(0, "org.gnome.Console.desktop\n");
    host.gnome_settings = exited(0, "'gnome-terminal'\n");
    host.kde_settings = exited(0, "konsole\n");
    host.executables = installed(&[
        ("xdg-terminal-exec", "/usr/bin/xdg-terminal-exec"),
        ("x-terminal-emulator", "/usr/bin/x-terminal-emulator"),
        ("gnome-terminal", "/usr/bin/gnome-terminal"),
        ("konsole", "/usr/bin/konsole"),
        ("kgx", "/usr/bin/kgx"),
        ("kitty", "/usr/bin/kitty"),
        ("wezterm", "/opt/wezterm/bin/wezterm"),
        ("xterm", "/usr/bin/xterm"),
    ]);
    let found = detect(&host).unwrap();
    expect(&found, "wezterm", "/opt/wezterm/bin/wezterm", DetectionMethod::EnvironmentVariable);
    assert_eq!(found.execution_syntax(), ExecutionSyntax::E);
}

#[test]
fn variable_may_hold_an_absolute_path() {
    let mut host = bare(Platform::Unix, StageSet::all());
    host.variable = Some("/opt/bin/myterm".to_string());
    host.executables = installed(&[("/opt/bin/myterm", "/opt/bin/myterm")]);
    let found = detect(&host).unwrap();
    expect(&found, "/opt/bin/myterm", "/opt/bin/myterm", DetectionMethod::EnvironmentVariable);
}

#[test]
fn variable_that_does_not_resolve_falls_through() {
    let mut host = bare(Platform::Unix, StageSet::all());
    host.variable = Some("no-such-terminal".to_string());
    host.executables = installed(&[("x-terminal-emulator", "/usr/bin/x-terminal-emulator")]);
    let found = detect(&host).unwrap();
    expect(
        &found,
        "x-terminal-emulator",
        "/usr/bin/x-terminal-emulator",
        DetectionMethod::XTerminalEmulator,
    );
    let fewer = StageSet::all().with(DetectionMethod::EnvironmentVariable, false);
    let mut without = bare(Platform::Unix, fewer);
    without.variable = Some("no-such-terminal".to_string());
    without.executables = installed(&[("x-terminal-emulator", "/usr/bin/x-terminal-emulator")]);
    assert_eq!(detect(&without).unwrap(), found);
}

#[test]
fn empty_variable_is_no_variable() {
    let mut host = bare(Platform::Unix, StageSet::all());
    host.variable = Some(String::new());
    host.executables = installed(&[("", "/usr/bin/nothing"), ("foot", "/usr/bin/foot")]);
    let found = detect(&host).unwrap();
    expect(&found, "foot", "/usr/bin/foot", DetectionMethod::HardcodedModern);
}

#[test]
fn variable_is_not_read_where_its_stage_is_off() {
    let mut host = bare(Platform::Unix, only(DetectionMethod::HardcodedTraditional));
    host.variable = Some("kitty".to_string());
    host.executables = installed(&[("kitty", "/usr/bin/kitty"), ("rxvt", "/usr/bin/rxvt")]);
    let found = detect(&host).unwrap();
    expect(&found, "rxvt", "/usr/bin/rxvt", DetectionMethod::HardcodedTraditional);
}

#[test]
fn traditional_list_takes_xterm_before_mlterm() {
    let mut host = bare(Platform::Unix, only(DetectionMethod::HardcodedTraditional));
    host.executables = installed(&[("mlterm", "/usr/bin/mlterm"), ("xterm", "/usr/bin/xterm")]);
    let found = detect(&host).unwrap();
    expect(&found, "xterm", "/usr/bin/xterm", DetectionMethod::HardcodedTraditional);
    assert_eq!(found.execution_syntax(), ExecutionSyntax::E);
}

#[test]
fn lists_take_their_first_installed_name() {
    let everything = installed(&[
        ("edex-ui", "/usr/bin/edex-ui"),
        ("tilix", "/usr/bin/tilix"),
        ("kmscon", "/usr/bin/kmscon"),
        ("st", "/usr/local/bin/st"),
        ("extraterm", "/usr/bin/extraterm"),
        ("ghostty", "/usr/bin/ghostty"),
        ("io.elementary.terminal", "/usr/bin/io.elementary.terminal"),
        ("konsole", "/usr/bin/konsole"),
    ]);
    let cases = [
        (DetectionMethod::HardcodedDesktopEnv, "konsole", "/usr/bin/konsole"),
        (DetectionMethod::HardcodedModern, "ghostty", "/usr/bin/ghostty"),
        (DetectionMethod::HardcodedTraditional, "st", "/usr/local/bin/st"),
        (DetectionMethod::HardcodedExtended, "tilix", "/usr/bin/tilix"),
    ];
    for (method, name, path) in cases {
        let mut host = bare(Platform::Unix, only(method));
        host.executables = installed(&[]);
        host.executables.extend(everything.iter().map(|entry| Executable {
            name: entry.name.clone(),
            path: entry.path.clone(),
        }));
        expect(&detect(&host).unwrap(), name, path, method);
    }
}

#[test]
fn lists_are_tried_in_their_order() {
    let mut host = bare(Platform::Unix, StageSet::all());
    host.executables = installed(&[
        ("terminator", "/usr/bin/terminator"),
        ("xterm", "/usr/bin/xterm"),
        ("alacritty", "/usr/bin/alacritty"),
        ("lxterminal", "/usr/bin/lxterminal"),
    ]);
    expect(
        &detect(&host).unwrap(),
        "lxterminal",
        "/usr/bin/lxterminal",
        DetectionMethod::HardcodedDesktopEnv,
    );
    host.stages = host.stages.with(DetectionMethod::HardcodedDesktopEnv, false);
    expect(
        &detect(&host).unwrap(),
        "alacritty",
        "/usr/bin/alacritty",
        DetectionMethod::HardcodedModern,
    );
    host.stages = host.stages.with(DetectionMethod::HardcodedModern, false);
    expect(
        &detect(&host).unwrap(),
        "xterm",
        "/usr/bin/xterm",
        DetectionMethod::HardcodedTraditional,
    );
    host.stages = host.stages.with(DetectionMethod::HardcodedTraditional, false);
    expect(
        &detect(&host).unwrap(),
        "terminator",
        "/usr/bin/terminator",
        DetectionMethod::HardcodedExtended,
    );
}

#[test]
fn traditional_stage_is_reached_when_nothing_else_is_there() {
    let mut host = bare(Platform::Unix, StageSet::all());
    host.gnome_settings = Reply::TimedOut;
    host.kde_settings = exited(1, "");
    host.executables = installed(&[("urxvt", "/usr/bin/urxvt")]);
    let found = detect(&host).unwrap();
    expect(&found, "urxvt", "/usr/bin/urxvt", DetectionMethod::HardcodedTraditional);
}

#[test]
fn exhaustion_degrades_to_xterm() {
    let host = bare(Platform::Unix, StageSet::all());
    let found = detect(&host).unwrap();
    expect(&found, "xterm", "xterm", DetectionMethod::HardcodedTraditional);
    assert_eq!(found.execution_syntax(), ExecutionSyntax::E);
    let host = bare(Platform::MacOs, only(DetectionMethod::HardcodedTraditional));
    expect(&detect(&host).unwrap(), "xterm", "xterm", DetectionMethod::HardcodedTraditional);
}

#[test]
fn exhaustion_without_last_resort_is_an_error() {
    let stages = StageSet::all().with(DetectionMethod::HardcodedTraditional, false);
    let mut host = bare(Platform::Unix, stages);
    assert_eq!(detect(&host), Err(DetectionError::NoTerminalEmulator));
    host.executables = installed(&[("xterm", "/usr/bin/xterm")]);
    assert_eq!(detect(&host), Err(DetectionError::NoTerminalEmulator));
}

#[test]
fn no_stage_at_all_is_an_error() {
    for platform in [Platform::MacOs, Platform::Unix] {
        let mut host = bare(platform, StageSet::none());
        host.variable = Some("xterm".to_string());
        host.executables = installed(&[("xterm", "/usr/bin/xterm")]);
        assert_eq!(detect(&host), Err(DetectionError::NoTerminalEmulator));
    }
    assert_eq!(
        DetectionError::NoTerminalEmulator.message(),
        "no terminal emulator could be determined"
    );
}

#[test]
fn terminal_app_is_found_on_macos_alone() {
    let places = [
        "/System/Applications/Utilities/Terminal.app/Contents/MacOS/Terminal",
        "/Applications/Utilities/Terminal.app/Contents/MacOS/Terminal",
    ];
    for place in places {
        let mut host = bare(Platform::MacOs, StageSet::all());
        host.executables = installed(&[("xterm", "/opt/X11/bin/xterm"), (place, place)]);
        let found = detect(&host).unwrap();
        expect(&found, "Terminal.app", "", DetectionMethod::TerminalApp);
        assert_eq!(found.execution_syntax(), ExecutionSyntax::NativeApi);
        host.platform = Platform::Unix;
        let found = detect(&host).unwrap();
        expect(&found, "xterm", "/opt/X11/bin/xterm", DetectionMethod::HardcodedTraditional);
    }
    let mut host = bare(Platform::MacOs, StageSet::all());
    host.executables = installed(&[("Terminal.app", "/Users/me/Terminal.app")]);
    expect(&detect(&host).unwrap(), "xterm", "xterm", DetectionMethod::HardcodedTraditional);
}

#[test]
fn xdg_terminal_exec_takes_the_command_directly() {
    let mut host = bare(Platform::Unix, StageSet::all());
    host.xdg_terminal_exec = exited(0, "org.kde.konsole.desktop\n");
    host.executables = installed(&[
        ("xdg-terminal-exec", "/usr/bin/xdg-terminal-exec"),
        ("x-terminal-emulator", "/usr/bin/x-terminal-emulator"),
    ]);
    let found = detect(&host).unwrap();
    expect(
        &found,
        "xdg-terminal-exec",
        "/usr/bin/xdg-terminal-exec",
        DetectionMethod::XdgTerminalExec,
    );
    assert_eq!(found.execution_syntax(), ExecutionSyntax::Command);
}

#[test]
fn xdg_terminal_exec_declines_without_helper_or_answer() {
    let mut host = bare(Platform::Unix, only(DetectionMethod::XdgTerminalExec));
    host.xdg_terminal_exec = exited(0, "org.kde.konsole.desktop\n");
    assert_eq!(detect(&host), Err(DetectionError::NoTerminalEmulator));
    host.executables = installed(&[("xdg-terminal-exec", "/usr/bin/xdg-terminal-exec")]);
    assert!(detect(&host).is_ok());
    let silences = [
        exited(0, ""),
        exited(0, " \n"),
        exited(3, "x"),
        Reply::Nothing,
        Reply::TimedOut,
        Reply::Malformed,
    ];
    for silent in silences {
        host.xdg_terminal_exec = silent;
        assert_eq!(detect(&host), Err(DetectionError::NoTerminalEmulator));
    }
}

#[test]
fn x_terminal_emulator_is_resolved() {
    let mut host = bare(Platform::Unix, StageSet::all());
    host.executables = installed(&[
        ("kitty", "/usr/bin/kitty"),
        ("x-terminal-emulator", "/etc/alternatives/x-terminal-emulator"),
    ]);
    let found = detect(&host).unwrap();
    expect(
        &found,
        "x-terminal-emulator",
        "/etc/alternatives/x-terminal-emulator",
        DetectionMethod::XTerminalEmulator,
    );
    assert_eq!(found.execution_syntax(), ExecutionSyntax::E);
}

#[test]
fn gnome_settings_name_the_emulator() {
    let mut host = bare(Platform::Unix, StageSet::all());
    host.gnome_settings = exited(0, "'gnome-terminal'\n");
    host.kde_settings = exited(0, "konsole\n");
    host.executables = installed(&[
        ("konsole", "/usr/bin/konsole"),
        ("gnome-terminal", "/usr/bin/gnome-terminal"),
    ]);
    let found = detect(&host).unwrap();
    expect(&found, "gnome-terminal", "/usr/bin/gnome-terminal", DetectionMethod::GnomeSettings);
    assert_eq!(found.execution_syntax(), ExecutionSyntax::E);
}

#[test]
fn kde_settings_name_the_emulator() {
    let mut host = bare(Platform::Unix, StageSet::all());
    host.gnome_settings = exited(0, "''\n");
    host.kde_settings = exited(0, "konsole\n");
    host.executables = installed(&[
        ("konsole", "/usr/bin/konsole"),
        ("gnome-terminal", "/usr/bin/gnome-terminal"),
    ]);
    let found = detect(&host).unwrap();
    expect(&found, "konsole", "/usr/bin/konsole", DetectionMethod::KdeSettings);
    assert_eq!(found.execution_syntax(), ExecutionSyntax::E);
}

#[test]
fn failing_helpers_are_declines_not_errors() {
    let failures = [
        exited(1, "'gnome-terminal'\n"),
        exited(-1, "konsole"),
        exited(0, ""),
        exited(0, "\n"),
        Reply::Nothing,
        Reply::TimedOut,
        Reply::Malformed,
    ];
    for failure in failures {
        let mut host = bare(Platform::Unix, StageSet::all());
        host.xdg_terminal_exec = failure.clone();
        host.gnome_settings = failure.clone();
        host.kde_settings = failure;
        host.executables = installed(&[
            ("xdg-terminal-exec", "/usr/bin/xdg-terminal-exec"),
            ("gnome-terminal", "/usr/bin/gnome-terminal"),
            ("konsole", "/usr/bin/konsole"),
        ]);
        let found = detect(&host).unwrap();
        expect(
            &found,
            "gnome-terminal",
            "/usr/bin/gnome-terminal",
            DetectionMethod::HardcodedDesktopEnv,
        );
    }
}

#[test]
fn settings_that_name_what_is_not_there_fall_through() {
    let mut host = bare(Platform::Unix, StageSet::all());
    host.gnome_settings = exited(0, "'ptyxis'\n");
    host.kde_settings = exited(0, "yakuake\n");
    host.executables = installed(&[("sakura", "/usr/bin/sakura")]);
    let found = detect(&host).unwrap();
    expect(&found, "sakura", "/usr/bin/sakura", DetectionMethod::HardcodedExtended);
}

#[test]
fn first_entry_of_a_name_decides() {
    let mut host = bare(Platform::Unix, only(DetectionMethod::HardcodedModern));
    host.executables = installed(&[
        ("kitty", "/home/me/.local/bin/kitty"),
        ("kitty", "/usr/bin/kitty"),
    ]);
    expect(
        &detect(&host).unwrap(),
        "kitty",
        "/home/me/.local/bin/kitty",
        DetectionMethod::HardcodedModern,
    );
    assert_eq!(
        host.resolve(&"kitty".to_string()),
        Some(&"/home/me/.local/bin/kitty".to_string())
    );
    assert_eq!(host.resolve(&"foot".to_string()), None);
}

#[test]
fn empty_path_is_no_resolution() {
    let mut host = bare(Platform::Unix, only(DetectionMethod::HardcodedModern));
    host.executables = installed(&[("kitty", ""), ("foot", "/usr/bin/foot")]);
    expect(&detect(&host).unwrap(), "foot", "/usr/bin/foot", DetectionMethod::HardcodedModern);
}

#[test]
fn detection_is_repeatable() {
    let mut host = bare(Platform::Unix, StageSet::all());
    host.variable = Some("tilda".to_string());
    host.executables = installed(&[("tilda", "/usr/bin/tilda")]);
    assert_eq!(detect(&host), detect(&host));
}

#[test]
fn detected_emulator_runs_a_command() {
    let command = vec!["htop".to_string(), "-d".to_string(), "5".to_string()];
    let mut host = bare(Platform::Unix, StageSet::all());
    host.executables = installed(&[("xterm", "/usr/bin/xterm")]);
    let process = build_invocation(&detect(&host).unwrap(), &command).unwrap();
    assert_eq!(process.program, "/usr/bin/xterm");
    assert_eq!(process.arguments, vec!["-e", "htop", "-d", "5"]);

    host.xdg_terminal_exec = exited(0, "org.gnome.Console.desktop\n");
    host.executables.push(Executable {
        name: "xdg-terminal-exec".to_string(),
        path: "/usr/bin/xdg-terminal-exec".to_string(),
    });
    let process = build_invocation(&detect(&host).unwrap(), &command).unwrap();
    assert_eq!(process.program, "/usr/bin/xdg-terminal-exec");
    assert_eq!(process.arguments, command);

    host.platform = Platform::Windows;
    assert_eq!(build_invocation(&detect(&host).unwrap(), &command), None);

    let nothing = bare(Platform::Unix, StageSet::all());
    let process = build_invocation(&detect(&nothing).unwrap(), &command).unwrap();
    assert_eq!(process.program, "xterm");
    assert_eq!(process.arguments, vec!["-e", "htop", "-d", "5"]);
}
