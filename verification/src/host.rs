//! Detection on a host that is given as plain values: what the variable
//! holds, what the helpers answered and which executables there are. The
//! detection is then a function of those values.

use vstd::prelude::*;
use crate::cascade::{cascade, DetectionError};
use crate::detection::{
    after_makes_progress, finish, result_view, stepwise_detection_is_the_cascade, Detection, Step,
    StepView,
};
use crate::emulator::TerminalEmulator;
use crate::plan::{Platform, StageSet};
use crate::probe::{Helper, Probe, ProbeView, Reply, ReplyView};
use crate::stage::World;

verus! {

/// An executable that a name resolves to.
#[derive(Debug, Clone, PartialEq, Eq)]
pub struct Executable {
    /// The name, or the absolute path, under which it is asked for.
    pub name: String,
    /// The path of the file that the name resolves to.
    pub path: String,
}

/// A host, as far as detection looks at it.
#[derive(Debug, Clone, PartialEq, Eq)]
pub struct Host {
    /// The kind of system.
    pub platform: Platform,
    /// The stages that the configuration enables.
    pub stages: StageSet,
    /// What the variable `TERMINAL_EMULATOR` holds, if it is set.
    pub variable: Option<String>,
    /// What asking `xdg-terminal-exec` gives.
    pub xdg_terminal_exec: Reply,
    /// What asking the GNOME settings gives.
    pub gnome_settings: Reply,
    /// What asking the KDE settings gives.
    pub kde_settings: Reply,
    /// The executables that names resolve to. Where a name stands more
    /// than once, it resolves to the first.
    pub executables: Vec<Executable>,
}

/// The path of the first of the executables that stands under the name.
pub open spec fn lookup(executables: Seq<Executable>, name: Seq<char>) -> Option<Seq<char>>
    decreases executables.len(),
{
    if executables.len() == 0 {
        None
    } else if executables[0].name@ == name {
        Some(executables[0].path@)
    } else {
        lookup(executables.skip(1), name)
    }
}

impl Host {
    /// What the host answers to the probe.
    pub open spec fn answer(self, probe: ProbeView) -> ReplyView {
        match probe {
            ProbeView::Variable => match self.variable {
                Some(value) => ReplyView::Value(value@),
                None => ReplyView::Nothing,
            },
            ProbeView::Query(Helper::XdgTerminalExec) => self.xdg_terminal_exec@,
            ProbeView::Query(Helper::GnomeSettings) => self.gnome_settings@,
            ProbeView::Query(Helper::KdeSettings) => self.kde_settings@,
            ProbeView::Executable(name) | ProbeView::Search(name) => match lookup(
                self.executables@,
                name,
            ) {
                Some(path) => ReplyView::Value(path),
                None => ReplyView::Nothing,
            },
        }
    }

    /// The host as the surroundings of a detection.
    pub open spec fn world(self) -> World {
        |probe: ProbeView| self.answer(probe)
    }

    /// The path that the name resolves to on this host, if it does.
    pub fn resolve(&self, name: &String) -> (path: Option<&String>)
        ensures
            path.is_some() == lookup(self.executables@, name@).is_some(),
            path matches Some(found) ==> lookup(self.executables@, name@) == Some(found@),
    {
        let mut at: usize = 0;
        assert(self.executables@.skip(0) =~= self.executables@);
        while at < self.executables.len()
            invariant
                at <= self.executables.len(),
                lookup(self.executables@, name@) == lookup(self.executables@.skip(at as int), name@),
            decreases self.executables.len() - at,
        {
            if self.executables[at].name == *name {
                return Some(&self.executables[at].path);
            }
            assert(self.executables@.skip(at as int).skip(1) =~= self.executables@.skip(at + 1));
            at = at + 1;
        }
        None
    }

    /// What the host answers to the probe.
    pub fn reply(&self, probe: &Probe) -> (reply: Reply)
        ensures
            reply@ == self.answer(probe@),
    {
        match probe {
            Probe::Variable => match &self.variable {
                Some(value) => Reply::Value(value.clone()),
                None => Reply::Nothing,
            },
            Probe::Query(Helper::XdgTerminalExec) => self.xdg_terminal_exec.clone(),
            Probe::Query(Helper::GnomeSettings) => self.gnome_settings.clone(),
            Probe::Query(Helper::KdeSettings) => self.kde_settings.clone(),
            Probe::Executable(name) | Probe::Search(name) => match self.resolve(name) {
                Some(path) => Reply::Value(path.clone()),
                None => Reply::Nothing,
            },
        }
    }
}

/// Detects the default terminal emulator of the host: the emulator of the
/// first stage that does not decline, the last resort where every stage
/// declines, and the error where there is no last resort either.
pub fn detect(host: &Host) -> (found: Result<TerminalEmulator, DetectionError>)
    ensures
        result_view(found) == cascade(host.platform, host.stages, host.world()),
{
    let ghost world = host.world();
    proof {
        stepwise_detection_is_the_cascade(host.platform, host.stages, world);
    }
    let mut step = Detection::start(host.platform, &host.stages);
    loop
        invariant
            world == host.world(),
            finish(step@, world) == cascade(host.platform, host.stages, world),
        decreases stages_left(step@), probes_left(step@),
    {
        match step {
            Step::Done(found) => {
                return found;
            },
            Step::Ask(detection) => {
                let probe = detection.probe();
                let reply = host.reply(&probe);
                proof {
                    after_makes_progress(detection@, reply@);
                }
                step = detection.answer(reply);
            },
        }
    }
}

/// How many stages the step leaves to go through.
spec fn stages_left(step: StepView) -> int {
    match step {
        StepView::Ask(detection) => detection.stages_left(),
        StepView::Done(found) => 0,
    }
}

/// How many probes the step leaves to ask in its stage, at most.
spec fn probes_left(step: StepView) -> nat {
    match step {
        StepView::Ask(detection) => detection.probes_left(),
        StepView::Done(found) => 0,
    }
}

} // verus!
