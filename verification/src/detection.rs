//! A detection in progress. The library decides what to ask next and what
//! an answer means; the caller does the asking. A detection is begun, then
//! each step either asks one probe of the surroundings or is the end.
//! Nothing is asked that the result does not depend on: a stage is only
//! entered once every stage before it has declined.

use vstd::prelude::*;
use crate::cascade::{cascade, last_resort, outcome_from, DetectionError};
use crate::catalogue::{fixed_names, names};
use crate::emulator::{Descriptor, TerminalEmulator};
use crate::method::DetectionMethod;
use crate::plan::{plan, stage_plan, Platform, StageSet};
use crate::probe::{resolution, usable, Probe, ProbeView, Reply, ReplyView};
use crate::stage::{
    candidates, confirmation, confirmation_of, confirmed, first_resolved, resolved, source,
    source_of, sourced, stage_outcome, walk_declines_only_if_nothing_resolves,
    walk_stops_at_first_resolvable, World,
};

verus! {

/// What a detection in progress waits for, as plain mathematical values.
pub enum WaitingView {
    /// The answer of the stage's source.
    Source,
    /// The resolution of the stage's name at place `index`, which is
    /// `name`.
    Lookup { index: nat, name: Seq<char> },
    /// The confirmation of the stage, whose name `name` has resolved to
    /// `path`.
    Confirm { name: Seq<char>, path: Seq<char> },
}

/// A detection in progress, as plain mathematical values.
pub struct DetectionView {
    /// The stages that the detection goes through.
    pub route: Seq<DetectionMethod>,
    /// The place in the route of the stage in progress.
    pub stage: nat,
    /// What the stage in progress waits for.
    pub waiting: WaitingView,
}

/// A step of a detection, as plain mathematical values.
pub enum StepView {
    /// See [`Step::Ask`].
    Ask(DetectionView),
    /// See [`Step::Done`].
    Done(Result<Descriptor, DetectionError>),
}

impl DetectionView {
    /// The method of the stage in progress.
    pub open spec fn method(self) -> DetectionMethod {
        self.route[self.stage as int]
    }

    /// Whether the detection is in a stage of its route, as every detection
    /// in progress is.
    pub open spec fn under_way(self) -> bool {
        self.stage < self.route.len()
    }

    /// The probe that the detection waits to have answered. (No detection
    /// waits for the source or the confirmation of a stage that has none.)
    pub open spec fn probe(self) -> ProbeView {
        match self.waiting {
            WaitingView::Source => match source(self.method()) {
                Some(probe) => probe,
                None => ProbeView::Variable,
            },
            WaitingView::Lookup { index, name } => resolution(name),
            WaitingView::Confirm { name, path } => match confirmation(self.method()) {
                Some(probe) => probe,
                None => ProbeView::Variable,
            },
        }
    }

    /// The step that follows when the probe is answered with `reply`.
    ///
    /// An answer of the source gives the stage its names: the first is
    /// looked up, and where there is none the stage declines. A name that
    /// resolves ends the detection, or has the stage's confirmation asked
    /// for where it needs one. One that does not resolve lets the next name
    /// of a fixed list be looked up, and the stage decline after the last.
    /// A confirmation ends the detection, and without it the stage
    /// declines.
    pub open spec fn after(self, reply: ReplyView) -> StepView {
        let method = self.method();
        match self.waiting {
            WaitingView::Source => {
                let names = candidates(method, usable(reply));
                if names.len() > 0 {
                    StepView::Ask(
                        DetectionView {
                            waiting: WaitingView::Lookup { index: 0, name: names[0] },
                            ..self
                        },
                    )
                } else {
                    enter(self.route, self.stage + 1)
                }
            },
            WaitingView::Lookup { index, name } => match usable(reply) {
                Some(path) => if confirmation(method) is Some {
                    StepView::Ask(
                        DetectionView { waiting: WaitingView::Confirm { name, path }, ..self },
                    )
                } else {
                    StepView::Done(Ok(Descriptor::found(method, name, path)))
                },
                None => if source(method) is None && index + 1 < fixed_names(method).len() {
                    StepView::Ask(
                        DetectionView {
                            waiting: WaitingView::Lookup {
                                index: index + 1,
                                name: fixed_names(method)[(index + 1) as int],
                            },
                            ..self
                        },
                    )
                } else {
                    enter(self.route, self.stage + 1)
                },
            },
            WaitingView::Confirm { name, path } => if usable(reply) is Some {
                StepView::Done(Ok(Descriptor::found(method, name, path)))
            } else {
                enter(self.route, self.stage + 1)
            },
        }
    }

    /// Whether the detection is where the cascade is in these surroundings:
    /// every stage before the one in progress has declined there, and so
    /// has every name of that stage before the one that is looked up; a
    /// confirmation is asked for what the stage has in fact resolved.
    pub open spec fn follows(self, world: World) -> bool {
        &&& self.under_way()
        &&& self.method() != DetectionMethod::Windows
        &&& forall|earlier: int|
            0 <= earlier < self.stage ==> stage_outcome(#[trigger] self.route[earlier], world) is None
        &&& match self.waiting {
            WaitingView::Source => source(self.method()) is Some,
            WaitingView::Lookup { index, name } => {
                let names = candidates(self.method(), sourced(self.method(), world));
                &&& index < names.len()
                &&& name == names[index as int]
                &&& forall|before: int|
                    0 <= before < index ==> resolved(world, #[trigger] names[before]) is None
            },
            WaitingView::Confirm { name, path } => {
                let names = candidates(self.method(), sourced(self.method(), world));
                &&& confirmation(self.method()) is Some
                &&& first_resolved(self.method(), names, world, 0) == Some(
                    Descriptor::found(self.method(), name, path),
                )
            },
        }
    }

    /// How many stages are left, the one in progress included.
    pub open spec fn stages_left(self) -> int {
        self.route.len() - self.stage
    }

    /// How many probes the stage in progress may still ask, at most, the
    /// pending one included.
    pub open spec fn probes_left(self) -> nat {
        match self.waiting {
            WaitingView::Source => fixed_names(self.method()).len() + 3,
            WaitingView::Lookup { index, name } => if index < fixed_names(self.method()).len() {
                (fixed_names(self.method()).len() - index + 2) as nat
            } else {
                2
            },
            WaitingView::Confirm { name, path } => 1,
        }
    }

    /// What the detection ends with if the surroundings answer as `world`
    /// does: the pending probe is answered, and so on from the step that
    /// follows.
    pub open spec fn run(self, world: World) -> Result<Descriptor, DetectionError>
        decreases self.stages_left(), self.probes_left(),
    {
        match self.after(world(self.probe())) {
            StepView::Done(found) => found,
            StepView::Ask(next) => {
                proof {
                    after_makes_progress(self, world(self.probe()));
                }
                next.run(world)
            },
        }
    }
}

/// The step with which the route is taken up at place `from`: the first
/// probe of the stage there, or, past the last stage, the last resort.
/// The Windows stage asks nothing and ends the detection at once.
pub open spec fn enter(route: Seq<DetectionMethod>, from: nat) -> StepView
    decreases route.len() - from,
{
    if from >= route.len() {
        StepView::Done(last_resort(route))
    } else {
        let method = route[from as int];
        if method == DetectionMethod::Windows {
            StepView::Done(Ok(Descriptor::windows()))
        } else if source(method) is Some {
            StepView::Ask(DetectionView { route, stage: from, waiting: WaitingView::Source })
        } else if fixed_names(method).len() > 0 {
            StepView::Ask(
                DetectionView {
                    route,
                    stage: from,
                    waiting: WaitingView::Lookup { index: 0, name: fixed_names(method)[0] },
                },
            )
        } else {
            enter(route, from + 1)
        }
    }
}

/// The first step of a detection on this platform with this configuration.
pub open spec fn begin(platform: Platform, stages: StageSet) -> StepView {
    enter(plan(platform, stages), 0)
}

/// What a detection ends with from this step on, if the surroundings
/// answer as `world` does.
pub open spec fn finish(step: StepView, world: World) -> Result<Descriptor, DetectionError> {
    match step {
        StepView::Done(found) => found,
        StepView::Ask(detection) => detection.run(world),
    }
}

/// Where the route is taken up, it is taken up at a stage that is part of
/// it and not before the place asked for.
pub proof fn enter_stays_on_the_route(route: Seq<DetectionMethod>, from: nat)
    ensures
        enter(route, from) matches StepView::Ask(detection) ==> {
            &&& detection.route == route
            &&& from <= detection.stage < route.len()
        },
    decreases route.len() - from,
{
    if from < route.len() {
        enter_stays_on_the_route(route, from + 1);
    }
}

/// Every answer brings the detection nearer to its end: the step that
/// follows is in a later stage, or in the same with fewer probes left.
pub proof fn after_makes_progress(detection: DetectionView, reply: ReplyView)
    ensures
        detection.after(reply) matches StepView::Ask(next) ==> {
            ||| 0 <= next.stages_left() < detection.stages_left()
            ||| next.stages_left() == detection.stages_left() && next.probes_left()
                < detection.probes_left()
        },
{
    enter_stays_on_the_route(detection.route, detection.stage + 1);
}

/// From the lookup of one of a stage's names on, a detection ends with what
/// the stage finds from that name on, or else with what the rest of the
/// route gives.
proof fn lookup_runs_the_rest(route: Seq<DetectionMethod>, stage: nat, index: nat, world: World)
    requires
        stage < route.len(),
        route[stage as int] != DetectionMethod::Windows,
        index < candidates(route[stage as int], sourced(route[stage as int], world)).len(),
    ensures
        ({
            let method = route[stage as int];
            let names = candidates(method, sourced(method, world));
            let detection = DetectionView {
                route,
                stage,
                waiting: WaitingView::Lookup { index, name: names[index as int] },
            };
            detection.run(world) == match first_resolved(method, names, world, index) {
                Some(terminal) if confirmed(method, world) => Ok::<Descriptor, DetectionError>(
                    terminal,
                ),
                _ => outcome_from(route, world, stage + 1),
            }
        }),
    decreases route.len() - stage, 1nat, candidates(
        route[stage as int],
        sourced(route[stage as int], world),
    ).len() - index,
{
    let method = route[stage as int];
    let names = candidates(method, sourced(method, world));
    match resolved(world, names[index as int]) {
        None => {
            if source(method) is None && index + 1 < fixed_names(method).len() {
                lookup_runs_the_rest(route, stage, index + 1, world);
            } else {
                enter_runs_the_rest(route, stage + 1, world);
                assert(first_resolved(method, names, world, index + 1) is None);
            }
        },
        Some(path) => {
            if confirmation(method) is Some {
                let asked = DetectionView {
                    route,
                    stage,
                    waiting: WaitingView::Confirm { name: names[index as int], path },
                };
                enter_runs_the_rest(route, stage + 1, world);
                assert(asked.run(world) == if confirmed(method, world) {
                    Ok::<Descriptor, DetectionError>(
                        Descriptor::found(method, names[index as int], path),
                    )
                } else {
                    outcome_from(route, world, stage + 1)
                });
            }
        },
    }
}

/// From where the route is taken up, a detection ends with what the rest
/// of the route gives.
proof fn enter_runs_the_rest(route: Seq<DetectionMethod>, from: nat, world: World)
    ensures
        finish(enter(route, from), world) == outcome_from(route, world, from),
    decreases route.len() - from, 2nat, 0nat,
{
    if from < route.len() {
        let method = route[from as int];
        if method == DetectionMethod::Windows {
        } else if source(method) is Some {
            let names = candidates(method, sourced(method, world));
            if names.len() > 0 {
                lookup_runs_the_rest(route, from, 0, world);
            } else {
                enter_runs_the_rest(route, from + 1, world);
            }
        } else if fixed_names(method).len() > 0 {
            lookup_runs_the_rest(route, from, 0, world);
        } else {
            enter_runs_the_rest(route, from + 1, world);
        }
    }
}

/// Where the route is taken up after every stage before has declined, the
/// detection is where the cascade is.
pub proof fn entered_stage_is_due(route: Seq<DetectionMethod>, from: nat, world: World)
    requires
        forall|earlier: int|
            0 <= earlier < from && earlier < route.len() ==> stage_outcome(
                #[trigger] route[earlier],
                world,
            ) is None,
    ensures
        enter(route, from) matches StepView::Ask(detection) ==> detection.follows(world),
    decreases route.len() - from,
{
    if from < route.len() {
        let method = route[from as int];
        if method != DetectionMethod::Windows && source(method) is None && fixed_names(method).len()
            == 0 {
            entered_stage_is_due(route, from + 1, world);
        }
    }
}

/// No probe is asked before it is due. A detection that is where the
/// cascade is stays there when its probe is answered as the surroundings
/// do: the next name is only looked up when the one before did not
/// resolve, a confirmation is only asked for what has resolved, and the
/// next stage is only entered when the one before has declined. So once a
/// stage has found an emulator nothing more is asked.
pub proof fn asked_probe_is_due(detection: DetectionView, world: World)
    requires
        detection.follows(world),
    ensures
        detection.after(world(detection.probe())) matches StepView::Ask(next) ==> next.follows(
            world,
        ),
{
    let method = detection.method();
    let names = candidates(method, sourced(method, world));
    let route = detection.route;
    match detection.waiting {
        WaitingView::Source => {
            if names.len() == 0 {
                assert(stage_outcome(method, world) is None);
                entered_stage_is_due(route, detection.stage + 1, world);
            }
        },
        WaitingView::Lookup { index, name } => {
            match resolved(world, name) {
                None => {
                    if source(method) is None && index + 1 < fixed_names(method).len() {
                    } else {
                        assert(names.len() == index + 1);
                        walk_declines_only_if_nothing_resolves(method, names, world, 0);
                        assert(stage_outcome(method, world) is None);
                        entered_stage_is_due(route, detection.stage + 1, world);
                    }
                },
                Some(path) => {
                    walk_stops_at_first_resolvable(method, names, world, 0, index as int);
                },
            }
        },
        WaitingView::Confirm { name, path } => {
            if !confirmed(method, world) {
                assert(stage_outcome(method, world) is None);
                entered_stage_is_due(route, detection.stage + 1, world);
            }
        },
    }
}

/// A detection that is driven step by step ends with what the cascade
/// gives: whoever begins, answers each probe as the surroundings do and
/// goes on from the step that follows, comes to the emulator of the first
/// stage that does not decline, to the last resort or to the error.
pub proof fn stepwise_detection_is_the_cascade(platform: Platform, stages: StageSet, world: World)
    ensures
        finish(begin(platform, stages), world) == cascade(platform, stages, world),
{
    enter_runs_the_rest(plan(platform, stages), 0, world);
}

/// What a detection in progress waits for.
#[derive(Debug, PartialEq, Eq)]
enum Waiting {
    Source,
    Lookup { index: usize, name: String },
    Confirm { name: String, path: String },
}

/// A detection in progress: it has asked a probe and waits for the answer.
#[derive(Debug, PartialEq, Eq)]
pub struct Detection {
    route: Vec<DetectionMethod>,
    stage: usize,
    waiting: Waiting,
}

/// A step of a detection.
#[derive(Debug, PartialEq, Eq)]
pub enum Step {
    /// The detection needs its probe answered before it can go on.
    Ask(Detection),
    /// The detection has come to its end: an emulator, or the error.
    Done(Result<TerminalEmulator, DetectionError>),
}

/// The result of a detection as plain mathematical values.
pub open spec fn result_view(found: Result<TerminalEmulator, DetectionError>) -> Result<
    Descriptor,
    DetectionError,
> {
    match found {
        Ok(terminal) => Ok(terminal@),
        Err(error) => Err(error),
    }
}

impl View for Detection {
    type V = DetectionView;

    closed spec fn view(&self) -> DetectionView {
        DetectionView {
            route: self.route@,
            stage: self.stage as nat,
            waiting: match self.waiting {
                Waiting::Source => WaitingView::Source,
                Waiting::Lookup { index, name } => WaitingView::Lookup {
                    index: index as nat,
                    name: name@,
                },
                Waiting::Confirm { name, path } => WaitingView::Confirm {
                    name: name@,
                    path: path@,
                },
            },
        }
    }
}

impl View for Step {
    type V = StepView;

    open spec fn view(&self) -> StepView {
        match self {
            Step::Ask(detection) => StepView::Ask(detection@),
            Step::Done(found) => StepView::Done(result_view(*found)),
        }
    }
}

impl Detection {
    #[verifier::type_invariant]
    closed spec fn is_under_way(&self) -> bool {
        &&& self.stage < self.route.len()
        &&& match self.waiting {
            Waiting::Source => source(self.route[self.stage as int]) is Some,
            Waiting::Lookup { index, name } => source(self.route[self.stage as int]) is None
                ==> index < fixed_names(self.route[self.stage as int]).len(),
            Waiting::Confirm { name, path } => {
                &&& confirmation(self.route[self.stage as int]) is Some
                &&& path@.len() > 0
            },
        }
    }

    /// Begins a detection on this platform with this configuration.
    pub fn start(platform: Platform, stages: &StageSet) -> (step: Step)
        ensures
            step@ == begin(platform, *stages),
    {
        take_up(stage_plan(platform, stages), 0)
    }

    /// The method of the stage that the detection is in.
    pub fn method(&self) -> (method: DetectionMethod)
        ensures
            self@.under_way(),
            method == self@.method(),
    {
        proof {
            use_type_invariant(self);
        }
        self.route[self.stage]
    }

    /// The probe that the detection waits to have answered.
    pub fn probe(&self) -> (probe: Probe)
        ensures
            self@.under_way(),
            probe@ == self@.probe(),
    {
        proof {
            use_type_invariant(self);
        }
        match &self.waiting {
            Waiting::Source => match source_of(self.route[self.stage]) {
                Some(probe) => probe,
                None => Probe::Variable,
            },
            Waiting::Lookup { index, name } => Probe::resolve(name.clone()),
            Waiting::Confirm { name, path } => match confirmation_of(self.route[self.stage]) {
                Some(probe) => probe,
                None => Probe::Variable,
            },
        }
    }

    /// Takes the answer to the pending probe and gives the step that
    /// follows: the next probe, or the end.
    pub fn answer(self, reply: Reply) -> (step: Step)
        ensures
            self@.under_way(),
            step@ == self@.after(reply@),
    {
        proof {
            use_type_invariant(&self);
        }
        let Detection { route, stage, waiting } = self;
        let method = route[stage];
        match waiting {
            Waiting::Source => {
                match first_candidate(method, reply.usable()) {
                    Some(name) => Step::Ask(
                        Detection { route, stage, waiting: Waiting::Lookup { index: 0, name } },
                    ),
                    None => take_up(route, stage + 1),
                }
            },
            Waiting::Lookup { index, name } => {
                match reply.usable() {
                    Some(path) => {
                        if confirmation_of(method).is_some() {
                            Step::Ask(
                                Detection { route, stage, waiting: Waiting::Confirm { name, path } },
                            )
                        } else {
                            Step::Done(Ok(TerminalEmulator::found(method, name, path)))
                        }
                    },
                    None => {
                        if source_of(method).is_none() {
                            let list = names(method);
                            if index + 1 < list.len() {
                                let next = list[index + 1].to_owned();
                                return Step::Ask(
                                    Detection {
                                        route,
                                        stage,
                                        waiting: Waiting::Lookup { index: index + 1, name: next },
                                    },
                                );
                            }
                        }
                        take_up(route, stage + 1)
                    },
                }
            },
            Waiting::Confirm { name, path } => {
                if reply.usable().is_some() {
                    Step::Done(Ok(TerminalEmulator::found(method, name, path)))
                } else {
                    take_up(route, stage + 1)
                }
            },
        }
    }
}

/// The first of the names that the stage tries once its source has given
/// `value`, if there is one.
fn first_candidate(method: DetectionMethod, value: Option<String>) -> (name: Option<String>)
    ensures
        name.is_some() == (candidates(method, value.deep_view()).len() > 0),
        name matches Some(first) ==> first@ == candidates(method, value.deep_view())[0],
{
    if source_of(method).is_some() {
        value
    } else {
        first_fixed_name(method)
    }
}

/// The first of the method's fixed names, if it has any.
fn first_fixed_name(method: DetectionMethod) -> (name: Option<String>)
    ensures
        name.is_some() == (fixed_names(method).len() > 0),
        name matches Some(first) ==> first@ == fixed_names(method)[0],
{
    let list = names(method);
    if list.len() > 0 {
        Some(list[0].to_owned())
    } else {
        None
    }
}

/// What a detection ends with when every stage of its route has declined.
fn last_resort_of(route: &Vec<DetectionMethod>) -> (found: Result<TerminalEmulator, DetectionError>)
    ensures
        result_view(found) == last_resort(route@),
{
    let mut at: usize = 0;
    while at < route.len()
        invariant
            at <= route.len(),
            forall|before: int|
                0 <= before < at ==> route@[before] != DetectionMethod::HardcodedTraditional,
        decreases route.len() - at,
    {
        if route[at] == DetectionMethod::HardcodedTraditional {
            proof {
                reveal_strlit("xterm");
            }
            return Ok(
                TerminalEmulator::found(
                    DetectionMethod::HardcodedTraditional,
                    "xterm".to_owned(),
                    "xterm".to_owned(),
                ),
            );
        }
        at = at + 1;
    }
    Err(DetectionError::NoTerminalEmulator)
}

/// Takes the route up at place `from`.
fn take_up(route: Vec<DetectionMethod>, from: usize) -> (step: Step)
    requires
        from <= route.len(),
    ensures
        step@ == enter(route@, from as nat),
{
    let mut at = from;
    while at < route.len()
        invariant
            from <= at <= route.len(),
            enter(route@, from as nat) == enter(route@, at as nat),
        decreases route.len() - at,
    {
        let method = route[at];
        if method == DetectionMethod::Windows {
            return Step::Done(Ok(TerminalEmulator::windows()));
        }
        if source_of(method).is_some() {
            return Step::Ask(Detection { route, stage: at, waiting: Waiting::Source });
        }
        match first_fixed_name(method) {
            Some(name) => {
                return Step::Ask(
                    Detection { route, stage: at, waiting: Waiting::Lookup { index: 0, name } },
                );
            },
            None => {},
        }
        at = at + 1;
    }
    Step::Done(last_resort_of(&route))
}

} // verus!
