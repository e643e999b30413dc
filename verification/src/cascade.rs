//! The detection as a whole: the stages of the plan are tried in their
//! order, the first that finds an emulator decides, and where none does
//! the traditional list's first name is the last resort.

use vstd::prelude::*;
use crate::catalogue::{fixed_names, traditional};
use crate::emulator::Descriptor;
use crate::method::DetectionMethod;
use crate::plan::{
    active, plan, plan_goes_by_priority, plan_holds_the_active_methods,
    windows_stage_stands_alone, Platform, StageSet,
};
use crate::stage::{
    hardcoded_stage_declines_only_if_nothing_resolves, hardcoded_stage_takes_first_resolvable,
    resolved, sourced, stage_outcome, stage_outcome_is_of_its_method, World,
};
use crate::syntax::ExecutionSyntax;

verus! {

/// Why a detection gave no terminal emulator.
#[derive(Debug, Clone, Copy, PartialEq, Eq, Structural, Hash)]
pub enum DetectionError {
    /// Every stage of the plan declined and the configuration leaves no
    /// last resort: no terminal emulator could be determined.
    NoTerminalEmulator,
}

impl DetectionError {
    /// The text that says what went wrong.
    pub open spec fn message_text(self) -> Seq<char> {
        "no terminal emulator could be determined"@
    }

    /// What went wrong, in words.
    pub fn message(&self) -> (text: &'static str)
        ensures
            text@ == self.message_text(),
    {
        "no terminal emulator could be determined"
    }
}

/// What the first stage of the route, from place `from` on, that does not
/// decline finds.
pub open spec fn first_success(route: Seq<DetectionMethod>, world: World, from: nat) -> Option<
    Descriptor,
>
    decreases route.len() - from,
{
    if from >= route.len() {
        None
    } else {
        match stage_outcome(route[from as int], world) {
            Some(terminal) => Some(terminal),
            None => first_success(route, world, from + 1),
        }
    }
}

/// The emulator that is assumed where nothing was found: the first name
/// of the traditional list, under that bare name, which is left to be
/// looked up when the process is started.
pub open spec fn fallback() -> Descriptor {
    Descriptor::found(DetectionMethod::HardcodedTraditional, traditional()[0], traditional()[0])
}

/// What a detection ends with when every stage of its route has declined:
/// the fallback if the traditional list is part of the route, and else the
/// error.
pub open spec fn last_resort(route: Seq<DetectionMethod>) -> Result<Descriptor, DetectionError> {
    if route.contains(DetectionMethod::HardcodedTraditional) {
        Ok(fallback())
    } else {
        Err(DetectionError::NoTerminalEmulator)
    }
}

/// What a detection that has come to place `from` of its route ends with.
pub open spec fn outcome_from(route: Seq<DetectionMethod>, world: World, from: nat) -> Result<
    Descriptor,
    DetectionError,
> {
    match first_success(route, world, from) {
        Some(terminal) => Ok(terminal),
        None => last_resort(route),
    }
}

/// What detection gives on this platform, with this configuration, in
/// these surroundings.
pub open spec fn cascade(platform: Platform, stages: StageSet, world: World) -> Result<
    Descriptor,
    DetectionError,
> {
    outcome_from(plan(platform, stages), world, 0)
}

/// A stage decides if every stage before it, from place `from` on, has
/// declined and it does not.
pub proof fn route_stops_at_first_success(
    route: Seq<DetectionMethod>,
    world: World,
    from: nat,
    first: int,
)
    requires
        from <= first < route.len(),
        stage_outcome(route[first], world) is Some,
        forall|earlier: int| from <= earlier < first ==> stage_outcome(route[earlier], world) is None,
    ensures
        first_success(route, world, from) == stage_outcome(route[first], world),
    decreases first - from,
{
    if from < first {
        route_stops_at_first_success(route, world, from + 1, first);
    }
}

/// Whatever is found along the route was found by one of its stages, and
/// every stage between place `from` and that one declined.
pub proof fn success_has_a_stage(route: Seq<DetectionMethod>, world: World, from: nat) -> (first:
    int)
    requires
        first_success(route, world, from) is Some,
    ensures
        from <= first < route.len(),
        first_success(route, world, from) == stage_outcome(route[first], world),
        forall|earlier: int| from <= earlier < first ==> stage_outcome(route[earlier], world) is None,
    decreases route.len() - from,
{
    if stage_outcome(route[from as int], world) is Some {
        from as int
    } else {
        success_has_a_stage(route, world, from + 1)
    }
}

/// Nothing is found along the route exactly if each of its stages, from
/// place `from` on, declines.
pub proof fn route_fails_only_if_every_stage_declines(
    route: Seq<DetectionMethod>,
    world: World,
    from: nat,
)
    ensures
        first_success(route, world, from) is None <==> forall|at: int|
            from <= at < route.len() ==> stage_outcome(#[trigger] route[at], world) is None,
    decreases route.len() - from,
{
    if from < route.len() {
        route_fails_only_if_every_stage_declines(route, world, from + 1);
        if stage_outcome(route[from as int], world) is None {
            assert forall|at: int|
                from <= at < route.len() && first_success(route, world, from) is None implies stage_outcome(
                #[trigger] route[at],
                world,
            ) is None by {
                if at > from {
                    assert(from + 1 <= at);
                }
            }
        }
    }
}

/// The earlier stage always wins: an active stage that finds an emulator
/// decides the detection if every active stage of higher priority
/// declines, whatever the stages after it would find.
pub proof fn earliest_success_wins(
    platform: Platform,
    stages: StageSet,
    world: World,
    method: DetectionMethod,
)
    requires
        active(method, platform, stages),
        stage_outcome(method, world) is Some,
        forall|other: DetectionMethod|
            active(other, platform, stages) && other.rank() < method.rank() ==> stage_outcome(
                other,
                world,
            ) is None,
    ensures
        cascade(platform, stages, world) == Ok::<Descriptor, DetectionError>(
            stage_outcome(method, world).unwrap(),
        ),
{
    let route = plan(platform, stages);
    plan_holds_the_active_methods(platform, stages, method);
    let at = choose|at: int| 0 <= at < route.len() && route[at] == method;
    assert forall|earlier: int| 0 <= earlier < at implies stage_outcome(
        route[earlier],
        world,
    ) is None by {
        plan_goes_by_priority(platform, stages, earlier, at);
        assert(route.contains(route[earlier]));
        plan_holds_the_active_methods(platform, stages, route[earlier]);
    }
    route_stops_at_first_success(route, world, 0, at);
}

/// Where every active stage declines, the detection ends with the last
/// resort: the fallback if the traditional list is active, the error if
/// it is not.
pub proof fn exhaustion_ends_with_the_last_resort(
    platform: Platform,
    stages: StageSet,
    world: World,
)
    requires
        forall|method: DetectionMethod|
            active(method, platform, stages) ==> stage_outcome(method, world) is None,
    ensures
        cascade(platform, stages, world) == if active(
            DetectionMethod::HardcodedTraditional,
            platform,
            stages,
        ) {
            Ok::<Descriptor, DetectionError>(fallback())
        } else {
            Err::<Descriptor, DetectionError>(DetectionError::NoTerminalEmulator)
        },
{
    let route = plan(platform, stages);
    assert forall|at: int| 0 <= at < route.len() implies stage_outcome(
        #[trigger] route[at],
        world,
    ) is None by {
        assert(route.contains(route[at]));
        plan_holds_the_active_methods(platform, stages, route[at]);
    }
    route_fails_only_if_every_stage_declines(route, world, 0);
    plan_holds_the_active_methods(platform, stages, DetectionMethod::HardcodedTraditional);
}

/// Detection fails exactly if every active stage declines and the
/// traditional list, whose first name is the last resort, is not active.
pub proof fn detection_fails_only_without_a_last_resort(
    platform: Platform,
    stages: StageSet,
    world: World,
)
    ensures
        cascade(platform, stages, world) is Err <==> {
            &&& !active(DetectionMethod::HardcodedTraditional, platform, stages)
            &&& forall|method: DetectionMethod|
                active(method, platform, stages) ==> stage_outcome(method, world) is None
        },
{
    let route = plan(platform, stages);
    route_fails_only_if_every_stage_declines(route, world, 0);
    plan_holds_the_active_methods(platform, stages, DetectionMethod::HardcodedTraditional);
    if first_success(route, world, 0) is None {
        assert forall|method: DetectionMethod| active(method, platform, stages) implies stage_outcome(
            method,
            world,
        ) is None by {
            plan_holds_the_active_methods(platform, stages, method);
            let at = choose|at: int| 0 <= at < route.len() && route[at] == method;
            assert(stage_outcome(route[at], world) is None);
        }
    } else {
        let at = success_has_a_stage(route, world, 0);
        assert(route.contains(route[at]));
        plan_holds_the_active_methods(platform, stages, route[at]);
    }
}

/// Whatever detection finds is well formed and carries the syntax of the
/// method that found it.
pub proof fn detected_emulator_is_well_formed(platform: Platform, stages: StageSet, world: World)
    ensures
        cascade(platform, stages, world) matches Ok(terminal) ==> {
            &&& terminal.well_formed()
            &&& terminal.execution_syntax == terminal.detection_method.syntax()
            &&& active(terminal.detection_method, platform, stages)
        },
{
    let route = plan(platform, stages);
    if first_success(route, world, 0) is Some {
        let at = success_has_a_stage(route, world, 0);
        stage_outcome_is_of_its_method(route[at], world);
        assert(route.contains(route[at]));
        plan_holds_the_active_methods(platform, stages, route[at]);
    } else {
        reveal_strlit("xterm");
        plan_holds_the_active_methods(platform, stages, DetectionMethod::HardcodedTraditional);
    }
}

/// On Windows detection gives the Windows console and nothing else, and
/// on no other platform does it give what the Windows stage gives.
pub proof fn windows_is_found_on_windows_alone(platform: Platform, stages: StageSet, world: World)
    ensures
        platform == Platform::Windows ==> cascade(platform, stages, world) == Ok::<
            Descriptor,
            DetectionError,
        >(Descriptor::windows()),
        cascade(platform, stages, world) matches Ok(terminal) ==> (terminal.detection_method
            == DetectionMethod::Windows <==> platform == Platform::Windows),
{
    windows_stage_stands_alone(platform, stages);
    detected_emulator_is_well_formed(platform, stages, world);
}

/// Where the variable names an emulator that resolves, detection gives
/// that emulator, found by the variable, with the path it resolved to,
/// whatever the other stages would have found.
pub proof fn variable_decides_if_it_resolves(
    platform: Platform,
    stages: StageSet,
    world: World,
    name: Seq<char>,
    path: Seq<char>,
)
    requires
        active(DetectionMethod::EnvironmentVariable, platform, stages),
        sourced(DetectionMethod::EnvironmentVariable, world) == Some(name),
        resolved(world, name) == Some(path),
    ensures
        cascade(platform, stages, world) == Ok::<Descriptor, DetectionError>(
            Descriptor {
                display_name: name,
                executable_path: path,
                execution_syntax: ExecutionSyntax::E,
                detection_method: DetectionMethod::EnvironmentVariable,
            },
        ),
{
    earliest_success_wins(platform, stages, world, DetectionMethod::EnvironmentVariable);
}

/// A stage that declines changes nothing: detection gives what it would
/// give with that stage switched off. So a variable that is not set, or
/// names what does not resolve, lets the next stage decide. (The
/// traditional list is left out here, because to switch it off is to take
/// away the last resort.)
pub proof fn declining_stage_falls_through(
    platform: Platform,
    stages: StageSet,
    world: World,
    method: DetectionMethod,
)
    requires
        stage_outcome(method, world) is None,
        method != DetectionMethod::HardcodedTraditional,
    ensures
        cascade(platform, stages, world) == cascade(platform, stages.switched(method, false), world),
{
    let fewer = stages.switched(method, false);
    let route = plan(platform, stages);
    assert forall|other: DetectionMethod| other != method implies active(other, platform, stages)
        == active(other, platform, fewer) by {}
    if first_success(route, world, 0) is Some {
        let at = success_has_a_stage(route, world, 0);
        assert(route.contains(route[at]));
        plan_holds_the_active_methods(platform, stages, route[at]);
        assert forall|other: DetectionMethod|
            active(other, platform, fewer) && other.rank() < route[at].rank() implies stage_outcome(
            other,
            world,
        ) is None by {
            if other != method {
                plan_holds_the_active_methods(platform, stages, other);
                let before = choose|before: int| 0 <= before < route.len() && route[before] == other;
                if before > at {
                    plan_goes_by_priority(platform, stages, at, before);
                }
            }
        }
        earliest_success_wins(platform, fewer, world, route[at]);
    } else {
        detection_fails_only_without_a_last_resort(platform, stages, world);
        route_fails_only_if_every_stage_declines(route, world, 0);
        assert forall|other: DetectionMethod| active(other, platform, stages) implies stage_outcome(
            other,
            world,
        ) is None by {
            plan_holds_the_active_methods(platform, stages, other);
            let at = choose|at: int| 0 <= at < route.len() && route[at] == other;
            assert(stage_outcome(route[at], world) is None);
        }
        exhaustion_ends_with_the_last_resort(platform, stages, world);
        exhaustion_ends_with_the_last_resort(platform, fewer, world);
    }
}

/// Where every active stage before the traditional list declines and a
/// name of that list resolves, detection succeeds through the traditional
/// list, with the first of its names that resolves.
pub proof fn traditional_list_is_reached(
    platform: Platform,
    stages: StageSet,
    world: World,
    installed: int,
)
    requires
        active(DetectionMethod::HardcodedTraditional, platform, stages),
        forall|other: DetectionMethod|
            active(other, platform, stages) && other.rank()
                < DetectionMethod::HardcodedTraditional.rank() ==> stage_outcome(other, world) is None,
        0 <= installed < traditional().len(),
        resolved(world, traditional()[installed]) is Some,
    ensures
        stage_outcome(DetectionMethod::HardcodedTraditional, world) is Some,
        cascade(platform, stages, world) == Ok::<Descriptor, DetectionError>(
            stage_outcome(DetectionMethod::HardcodedTraditional, world).unwrap(),
        ),
        cascade(platform, stages, world).unwrap().detection_method
            == DetectionMethod::HardcodedTraditional,
        exists|first: int|
            0 <= first <= installed && #[trigger] resolved(world, traditional()[first])
                == Some(cascade(platform, stages, world).unwrap().executable_path)
                && cascade(platform, stages, world).unwrap().display_name == traditional()[first],
{
    let method = DetectionMethod::HardcodedTraditional;
    let names = fixed_names(method);
    hardcoded_stage_declines_only_if_nothing_resolves(method, world);
    assert(resolved(world, names[installed]) is Some);
    earliest_success_wins(platform, stages, world, method);
    let first = first_place_that_resolves(world, names, installed);
    hardcoded_stage_takes_first_resolvable(method, world, first);
    assert(resolved(world, traditional()[first]) == Some(
        cascade(platform, stages, world).unwrap().executable_path,
    ));
}

/// Among the names up to one that resolves there is a first that does.
proof fn first_place_that_resolves(world: World, names: Seq<Seq<char>>, installed: int) -> (first:
    int)
    requires
        0 <= installed < names.len(),
        resolved(world, names[installed]) is Some,
    ensures
        0 <= first <= installed,
        resolved(world, names[first]) is Some,
        forall|earlier: int| 0 <= earlier < first ==> resolved(world, names[earlier]) is None,
    decreases installed,
{
    if exists|earlier: int| 0 <= earlier < installed && resolved(world, names[earlier]) is Some {
        let earlier = choose|earlier: int|
            0 <= earlier < installed && resolved(world, names[earlier]) is Some;
        first_place_that_resolves(world, names, earlier)
    } else {
        installed
    }
}

} // verus!
