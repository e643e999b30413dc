//! Which stages a detection goes through: those that the configuration
//! enables and that apply on the platform, in the order of priority.

use vstd::prelude::*;
use crate::method::{priority_order, DetectionMethod};

verus! {

/// The kind of system that detection runs on.
#[derive(Debug, Clone, Copy, PartialEq, Eq, Structural, Hash)]
pub enum Platform {
    /// Windows.
    Windows,
    /// macOS.
    MacOs,
    /// Linux, the BSDs and the other UNIX-like systems.
    Unix,
}

/// The stages that the configuration enables, one switch for each method
/// that can be switched. The Windows stage cannot: it is what detection is
/// on Windows.
#[derive(Debug, Clone, Copy, PartialEq, Eq, Structural, Hash)]
pub struct StageSet {
    /// The `TERMINAL_EMULATOR` environment variable.
    pub environment_variable: bool,
    /// Terminal.app.
    pub terminal_app: bool,
    /// The `xdg-terminal-exec` helper.
    pub xdg_terminal_exec: bool,
    /// The `x-terminal-emulator` alternative.
    pub x_terminal_emulator: bool,
    /// The GNOME settings.
    pub gnome_settings: bool,
    /// The KDE settings.
    pub kde_settings: bool,
    /// The list of emulators that belong to a desktop environment.
    pub hardcoded_desktop_env: bool,
    /// The list of modern emulators.
    pub hardcoded_modern: bool,
    /// The list of traditional emulators.
    pub hardcoded_traditional: bool,
    /// The list of further known emulators.
    pub hardcoded_extended: bool,
}

impl StageSet {
    /// Whether the configuration lets the method's stage run.
    pub open spec fn enabled(self, method: DetectionMethod) -> bool {
        match method {
            DetectionMethod::Windows => true,
            DetectionMethod::EnvironmentVariable => self.environment_variable,
            DetectionMethod::TerminalApp => self.terminal_app,
            DetectionMethod::XdgTerminalExec => self.xdg_terminal_exec,
            DetectionMethod::XTerminalEmulator => self.x_terminal_emulator,
            DetectionMethod::GnomeSettings => self.gnome_settings,
            DetectionMethod::KdeSettings => self.kde_settings,
            DetectionMethod::HardcodedDesktopEnv => self.hardcoded_desktop_env,
            DetectionMethod::HardcodedModern => self.hardcoded_modern,
            DetectionMethod::HardcodedTraditional => self.hardcoded_traditional,
            DetectionMethod::HardcodedExtended => self.hardcoded_extended,
        }
    }

    /// The set with the method's switch turned to `on` and every other
    /// switch as it is. The Windows stage has no switch.
    pub open spec fn switched(self, method: DetectionMethod, on: bool) -> StageSet {
        match method {
            DetectionMethod::Windows => self,
            DetectionMethod::EnvironmentVariable => StageSet { environment_variable: on, ..self },
            DetectionMethod::TerminalApp => StageSet { terminal_app: on, ..self },
            DetectionMethod::XdgTerminalExec => StageSet { xdg_terminal_exec: on, ..self },
            DetectionMethod::XTerminalEmulator => StageSet { x_terminal_emulator: on, ..self },
            DetectionMethod::GnomeSettings => StageSet { gnome_settings: on, ..self },
            DetectionMethod::KdeSettings => StageSet { kde_settings: on, ..self },
            DetectionMethod::HardcodedDesktopEnv => StageSet { hardcoded_desktop_env: on, ..self },
            DetectionMethod::HardcodedModern => StageSet { hardcoded_modern: on, ..self },
            DetectionMethod::HardcodedTraditional => StageSet { hardcoded_traditional: on, ..self },
            DetectionMethod::HardcodedExtended => StageSet { hardcoded_extended: on, ..self },
        }
    }

    /// Every stage enabled.
    pub fn all() -> (stages: StageSet)
        ensures
            forall|method: DetectionMethod| stages.enabled(method),
    {
        StageSet {
            environment_variable: true,
            terminal_app: true,
            xdg_terminal_exec: true,
            x_terminal_emulator: true,
            gnome_settings: true,
            kde_settings: true,
            hardcoded_desktop_env: true,
            hardcoded_modern: true,
            hardcoded_traditional: true,
            hardcoded_extended: true,
        }
    }

    /// No stage enabled but the one that cannot be switched off.
    pub fn none() -> (stages: StageSet)
        ensures
            forall|method: DetectionMethod|
                stages.enabled(method) <==> method == DetectionMethod::Windows,
    {
        StageSet {
            environment_variable: false,
            terminal_app: false,
            xdg_terminal_exec: false,
            x_terminal_emulator: false,
            gnome_settings: false,
            kde_settings: false,
            hardcoded_desktop_env: false,
            hardcoded_modern: false,
            hardcoded_traditional: false,
            hardcoded_extended: false,
        }
    }

    /// Whether the configuration lets the method's stage run.
    pub fn enables(&self, method: DetectionMethod) -> (answer: bool)
        ensures
            answer == self.enabled(method),
    {
        match method {
            DetectionMethod::Windows => true,
            DetectionMethod::EnvironmentVariable => self.environment_variable,
            DetectionMethod::TerminalApp => self.terminal_app,
            DetectionMethod::XdgTerminalExec => self.xdg_terminal_exec,
            DetectionMethod::XTerminalEmulator => self.x_terminal_emulator,
            DetectionMethod::GnomeSettings => self.gnome_settings,
            DetectionMethod::KdeSettings => self.kde_settings,
            DetectionMethod::HardcodedDesktopEnv => self.hardcoded_desktop_env,
            DetectionMethod::HardcodedModern => self.hardcoded_modern,
            DetectionMethod::HardcodedTraditional => self.hardcoded_traditional,
            DetectionMethod::HardcodedExtended => self.hardcoded_extended,
        }
    }

    /// The set with the method's switch turned to `on` and every other
    /// switch as it is.
    pub fn with(self, method: DetectionMethod, on: bool) -> (stages: StageSet)
        ensures
            stages == self.switched(method, on),
    {
        let mut stages = self;
        match method {
            DetectionMethod::Windows => {},
            DetectionMethod::EnvironmentVariable => stages.environment_variable = on,
            DetectionMethod::TerminalApp => stages.terminal_app = on,
            DetectionMethod::XdgTerminalExec => stages.xdg_terminal_exec = on,
            DetectionMethod::XTerminalEmulator => stages.x_terminal_emulator = on,
            DetectionMethod::GnomeSettings => stages.gnome_settings = on,
            DetectionMethod::KdeSettings => stages.kde_settings = on,
            DetectionMethod::HardcodedDesktopEnv => stages.hardcoded_desktop_env = on,
            DetectionMethod::HardcodedModern => stages.hardcoded_modern = on,
            DetectionMethod::HardcodedTraditional => stages.hardcoded_traditional = on,
            DetectionMethod::HardcodedExtended => stages.hardcoded_extended = on,
        }
        stages
    }
}

/// Whether the method's stage can run on the platform at all. On Windows
/// only the Windows stage can, and it can nowhere else; Terminal.app is
/// looked for on macOS alone.
pub open spec fn applies(method: DetectionMethod, platform: Platform) -> bool {
    match method {
        DetectionMethod::Windows => platform == Platform::Windows,
        DetectionMethod::TerminalApp => platform == Platform::MacOs,
        _ => platform != Platform::Windows,
    }
}

/// Whether the method's stage is part of a detection: it applies on the
/// platform and the configuration enables it.
pub open spec fn active(method: DetectionMethod, platform: Platform, stages: StageSet) -> bool {
    applies(method, platform) && stages.enabled(method)
}

/// The stages that a detection goes through, in their order: every active
/// method, by priority.
pub open spec fn plan(platform: Platform, stages: StageSet) -> Seq<DetectionMethod> {
    priority_order().filter(|method: DetectionMethod| active(method, platform, stages))
}

/// The method alone if its stage is part of the detection, nothing if not.
pub open spec fn slot(method: DetectionMethod, platform: Platform, stages: StageSet) -> Seq<
    DetectionMethod,
> {
    if active(method, platform, stages) {
        seq![method]
    } else {
        Seq::empty()
    }
}

/// The plan, written out: each method in its place of the order of
/// priority, where it is active.
pub proof fn plan_has_a_slot_for_each_method(platform: Platform, stages: StageSet)
    ensures
        plan(platform, stages) == slot(DetectionMethod::Windows, platform, stages) + slot(
            DetectionMethod::EnvironmentVariable,
            platform,
            stages,
        ) + slot(DetectionMethod::TerminalApp, platform, stages) + slot(
            DetectionMethod::XdgTerminalExec,
            platform,
            stages,
        ) + slot(DetectionMethod::XTerminalEmulator, platform, stages) + slot(
            DetectionMethod::GnomeSettings,
            platform,
            stages,
        ) + slot(DetectionMethod::KdeSettings, platform, stages) + slot(
            DetectionMethod::HardcodedDesktopEnv,
            platform,
            stages,
        ) + slot(DetectionMethod::HardcodedModern, platform, stages) + slot(
            DetectionMethod::HardcodedTraditional,
            platform,
            stages,
        ) + slot(DetectionMethod::HardcodedExtended, platform, stages),
{
    broadcast use Seq::filter_distributes_over_add;

    let chosen = |method: DetectionMethod| active(method, platform, stages);
    assert forall|method: DetectionMethod| #[trigger]
        seq![method].filter(chosen) == slot(method, platform, stages) by {
        reveal_with_fuel(Seq::filter, 2);
        assert(seq![method].drop_last() =~= Seq::<DetectionMethod>::empty());
        assert(seq![method].last() == method);
        assert(seq![method].filter(chosen) =~= slot(method, platform, stages));
    }
    assert(priority_order() =~= seq![DetectionMethod::Windows] + seq![
        DetectionMethod::EnvironmentVariable,
    ] + seq![DetectionMethod::TerminalApp] + seq![DetectionMethod::XdgTerminalExec] + seq![
        DetectionMethod::XTerminalEmulator,
    ] + seq![DetectionMethod::GnomeSettings] + seq![DetectionMethod::KdeSettings] + seq![
        DetectionMethod::HardcodedDesktopEnv,
    ] + seq![DetectionMethod::HardcodedModern] + seq![DetectionMethod::HardcodedTraditional]
        + seq![DetectionMethod::HardcodedExtended]);
}

/// On Windows the plan is the Windows stage alone, and on no other
/// platform is that stage part of it.
pub proof fn windows_stage_stands_alone(platform: Platform, stages: StageSet)
    ensures
        platform == Platform::Windows ==> plan(platform, stages) == seq![DetectionMethod::Windows],
        platform != Platform::Windows ==> !plan(platform, stages).contains(
            DetectionMethod::Windows,
        ),
{
    plan_has_a_slot_for_each_method(platform, stages);
    if platform == Platform::Windows {
        assert(plan(platform, stages) =~= seq![DetectionMethod::Windows]);
    } else {
        plan_holds_the_active_methods(platform, stages, DetectionMethod::Windows);
    }
}

/// A method is in the plan exactly if it is active.
pub proof fn plan_holds_the_active_methods(
    platform: Platform,
    stages: StageSet,
    method: DetectionMethod,
)
    ensures
        plan(platform, stages).contains(method) <==> active(method, platform, stages),
{
    broadcast use {Seq::lemma_filter_pred, Seq::lemma_filter_contains};

    let chosen = |method: DetectionMethod| active(method, platform, stages);
    let order = priority_order();
    if active(method, platform, stages) {
        assert(order[method.rank() as int] == method);
        assert(order.filter(chosen).contains(order[method.rank() as int]));
    }
    if plan(platform, stages).contains(method) {
        let route = plan(platform, stages);
        let at = choose|at: int| 0 <= at < route.len() && route[at] == method;
        assert(chosen(order.filter(chosen)[at]));
    }
}

/// The plan goes by priority: a stage that comes later in it has the
/// higher rank.
pub proof fn plan_goes_by_priority(platform: Platform, stages: StageSet, earlier: int, later: int)
    requires
        0 <= earlier < later < plan(platform, stages).len(),
    ensures
        plan(platform, stages)[earlier].rank() < plan(platform, stages)[later].rank(),
{
    filter_keeps_the_order(
        priority_order(),
        |method: DetectionMethod| active(method, platform, stages),
        earlier,
        later,
    );
}

/// What a filter keeps of a list that is sorted by rank is sorted by rank.
proof fn filter_keeps_the_order(
    order: Seq<DetectionMethod>,
    chosen: spec_fn(DetectionMethod) -> bool,
    earlier: int,
    later: int,
)
    requires
        forall|i: int, j: int| 0 <= i < j < order.len() ==> order[i].rank() < order[j].rank(),
        0 <= earlier < later < order.filter(chosen).len(),
    ensures
        order.filter(chosen)[earlier].rank() < order.filter(chosen)[later].rank(),
    decreases order.len(),
{
    reveal(Seq::filter);
    broadcast use Seq::lemma_filter_len;

    if order.len() > 0 {
        let front = order.drop_last();
        let kept = front.filter(chosen);
        if later < kept.len() {
            filter_keeps_the_order(front, chosen, earlier, later);
        } else {
            // the later one is the last of the list, the earlier one comes from its front
            assert(kept.contains(kept[earlier]));
            front.lemma_filter_contains_rev(chosen, kept[earlier]);
            let from = choose|from: int| 0 <= from < front.len() && front[from] == kept[earlier];
            assert(order[from] == kept[earlier]);
        }
    }
}


/// Whether the method's stage can run on the platform at all.
pub fn applies_on(method: DetectionMethod, platform: Platform) -> (answer: bool)
    ensures
        answer == applies(method, platform),
{
    match method {
        DetectionMethod::Windows => platform == Platform::Windows,
        DetectionMethod::TerminalApp => platform == Platform::MacOs,
        _ => platform != Platform::Windows,
    }
}

/// Every method, in the order of priority.
pub fn methods_by_priority() -> (order: Vec<DetectionMethod>)
    ensures
        order@ == priority_order(),
{
    let order = vec![
        DetectionMethod::Windows,
        DetectionMethod::EnvironmentVariable,
        DetectionMethod::TerminalApp,
        DetectionMethod::XdgTerminalExec,
        DetectionMethod::XTerminalEmulator,
        DetectionMethod::GnomeSettings,
        DetectionMethod::KdeSettings,
        DetectionMethod::HardcodedDesktopEnv,
        DetectionMethod::HardcodedModern,
        DetectionMethod::HardcodedTraditional,
        DetectionMethod::HardcodedExtended,
    ];
    assert(order@ =~= priority_order());
    order
}

/// The stages that a detection goes through on this platform with this
/// configuration, in the order in which it tries them.
pub fn stage_plan(platform: Platform, stages: &StageSet) -> (stages_to_try: Vec<DetectionMethod>)
    ensures
        stages_to_try@ == plan(platform, *stages),
{
    let order = methods_by_priority();
    let ghost chosen = |method: DetectionMethod| active(method, platform, *stages);
    let mut stages_to_try: Vec<DetectionMethod> = Vec::new();
    let mut next: usize = 0;
    proof {
        reveal(Seq::filter);
        assert(order@.take(0) =~= Seq::empty());
    }
    while next < order.len()
        invariant
            next <= order.len(),
            order@ == priority_order(),
            chosen == |method: DetectionMethod| active(method, platform, *stages),
            stages_to_try@ == order@.take(next as int).filter(chosen),
        decreases order.len() - next,
    {
        let method = order[next];
        proof {
            reveal(Seq::filter);
            assert(order@.take(next + 1).drop_last() =~= order@.take(next as int));
        }
        if applies_on(method, platform) && stages.enables(method) {
            stages_to_try.push(method);
        }
        next = next + 1;
    }
    assert(order@.take(next as int) =~= order@);
    stages_to_try
}

} // verus!
