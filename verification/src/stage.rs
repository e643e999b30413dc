//! What one stage of the detection finds: it gathers the names it is to try
//! and takes the first of them that resolves to an executable, if the
//! helper that it relies on confirms it.

use vstd::prelude::*;
use crate::catalogue::fixed_names;
use crate::emulator::Descriptor;
use crate::method::DetectionMethod;
use crate::probe::{resolution, usable, Helper, Probe, ProbeView, ReplyView};

verus! {

/// The surroundings of a detection: what each probe would be answered.
pub type World = spec_fn(ProbeView) -> ReplyView;

/// The probe that tells the stage under which name to look, for the
/// methods that do not know by themselves.
pub open spec fn source(method: DetectionMethod) -> Option<ProbeView> {
    match method {
        DetectionMethod::EnvironmentVariable => Some(ProbeView::Variable),
        DetectionMethod::GnomeSettings => Some(ProbeView::Query(Helper::GnomeSettings)),
        DetectionMethod::KdeSettings => Some(ProbeView::Query(Helper::KdeSettings)),
        _ => None,
    }
}

/// The probe that has to be answered usably before what the stage has
/// resolved counts. `xdg-terminal-exec` is first resolved and then asked:
/// it is the emulator only if it gives a configured terminal.
pub open spec fn confirmation(method: DetectionMethod) -> Option<ProbeView> {
    match method {
        DetectionMethod::XdgTerminalExec => Some(ProbeView::Query(Helper::XdgTerminalExec)),
        _ => None,
    }
}

/// What the stage's source gives in these surroundings: the usable text of
/// its answer, and nothing where the method has no source.
pub open spec fn sourced(method: DetectionMethod, world: World) -> Option<Seq<char>> {
    match source(method) {
        Some(probe) => usable(world(probe)),
        None => None,
    }
}

/// Whether the stage's confirmation is given in these surroundings. A
/// method that needs none has it.
pub open spec fn confirmed(method: DetectionMethod, world: World) -> bool {
    match confirmation(method) {
        Some(probe) => usable(world(probe)) is Some,
        None => true,
    }
}

/// The names that the stage tries, in their order, once its source has
/// given `value`. The variable and the two settings stores name the one
/// emulator to look for. The other methods need no source and try their
/// fixed names.
pub open spec fn candidates(method: DetectionMethod, value: Option<Seq<char>>) -> Seq<Seq<char>> {
    match source(method) {
        Some(probe) => match value {
            Some(name) => seq![name],
            None => Seq::empty(),
        },
        None => fixed_names(method),
    }
}

/// The path to which the name resolves in these surroundings, if it does.
pub open spec fn resolved(world: World, name: Seq<char>) -> Option<Seq<char>> {
    usable(world(resolution(name)))
}

/// The emulator of the first name, from place `from` on, that resolves.
pub open spec fn first_resolved(
    method: DetectionMethod,
    names: Seq<Seq<char>>,
    world: World,
    from: nat,
) -> Option<Descriptor>
    decreases names.len() - from,
{
    if from >= names.len() {
        None
    } else {
        match resolved(world, names[from as int]) {
            Some(path) => Some(Descriptor::found(method, names[from as int], path)),
            None => first_resolved(method, names, world, from + 1),
        }
    }
}

/// What the method's stage finds in these surroundings; `None` where it
/// declines. The Windows stage asks nothing and never declines. Every
/// other stage finds the emulator of its first name that resolves, unless
/// its confirmation is wanting.
pub open spec fn stage_outcome(method: DetectionMethod, world: World) -> Option<Descriptor> {
    if method == DetectionMethod::Windows {
        Some(Descriptor::windows())
    } else if confirmed(method, world) {
        first_resolved(method, candidates(method, sourced(method, world)), world, 0)
    } else {
        None
    }
}

/// The probe that tells the stage under which name to look.
pub fn source_of(method: DetectionMethod) -> (probe: Option<Probe>)
    ensures
        probe.is_some() == source(method).is_some(),
        probe matches Some(asked) ==> source(method) == Some(asked@),
{
    match method {
        DetectionMethod::EnvironmentVariable => Some(Probe::Variable),
        DetectionMethod::GnomeSettings => Some(Probe::Query(Helper::GnomeSettings)),
        DetectionMethod::KdeSettings => Some(Probe::Query(Helper::KdeSettings)),
        _ => None,
    }
}

/// The probe that has to be answered usably before what the stage has
/// resolved counts.
pub fn confirmation_of(method: DetectionMethod) -> (probe: Option<Probe>)
    ensures
        probe.is_some() == confirmation(method).is_some(),
        probe matches Some(asked) ==> confirmation(method) == Some(asked@),
{
    match method {
        DetectionMethod::XdgTerminalExec => Some(Probe::Query(Helper::XdgTerminalExec)),
        _ => None,
    }
}

/// From place `from` on, the stage's walk through its names finds what is
/// found at the first place that resolves, and nothing if none does.
pub proof fn walk_stops_at_first_resolvable(
    method: DetectionMethod,
    names: Seq<Seq<char>>,
    world: World,
    from: nat,
    first: int,
)
    requires
        from <= first < names.len(),
        resolved(world, names[first]) is Some,
        forall|earlier: int| from <= earlier < first ==> resolved(world, names[earlier]) is None,
    ensures
        first_resolved(method, names, world, from) == Some(
            Descriptor::found(method, names[first], resolved(world, names[first]).unwrap()),
        ),
    decreases first - from,
{
    if from < first {
        walk_stops_at_first_resolvable(method, names, world, from + 1, first);
    }
}

/// The stage's walk through its names finds nothing exactly if none of
/// them, from place `from` on, resolves.
pub proof fn walk_declines_only_if_nothing_resolves(
    method: DetectionMethod,
    names: Seq<Seq<char>>,
    world: World,
    from: nat,
)
    ensures
        first_resolved(method, names, world, from) is None <==> forall|at: int|
            from <= at < names.len() ==> resolved(world, #[trigger] names[at]) is None,
    decreases names.len() - from,
{
    if from < names.len() {
        walk_declines_only_if_nothing_resolves(method, names, world, from + 1);
        if resolved(world, names[from as int]) is None {
            assert forall|at: int| from <= at < names.len() && first_resolved(
                method,
                names,
                world,
                from,
            ) is None implies resolved(world, #[trigger] names[at]) is None by {
                if at > from {
                    assert(from + 1 <= at);
                }
            }
        }
    }
}

/// A stage that walks a fixed list returns the first name of the list
/// that resolves, in the list's order, and never a later one.
pub proof fn hardcoded_stage_takes_first_resolvable(
    method: DetectionMethod,
    world: World,
    first: int,
)
    requires
        method.hardcoded(),
        0 <= first < fixed_names(method).len(),
        resolved(world, fixed_names(method)[first]) is Some,
        forall|earlier: int|
            0 <= earlier < first ==> resolved(world, fixed_names(method)[earlier]) is None,
    ensures
        stage_outcome(method, world) == Some(
            Descriptor::found(
                method,
                fixed_names(method)[first],
                resolved(world, fixed_names(method)[first]).unwrap(),
            ),
        ),
{
    walk_stops_at_first_resolvable(method, fixed_names(method), world, 0, first);
}

/// A stage that walks a fixed list declines only if no name of the list
/// resolves.
pub proof fn hardcoded_stage_declines_only_if_nothing_resolves(
    method: DetectionMethod,
    world: World,
)
    requires
        method.hardcoded(),
    ensures
        stage_outcome(method, world) is None <==> forall|at: int|
            0 <= at < fixed_names(method).len() ==> resolved(
                world,
                #[trigger] fixed_names(method)[at],
            ) is None,
{
    walk_declines_only_if_nothing_resolves(method, fixed_names(method), world, 0);
}

/// A stage that gets nothing usable from its source, or from the helper
/// that has to confirm it, declines: a variable that is not set or empty, a
/// missing key, a helper that failed or timed out or printed no text are
/// no errors.
pub proof fn stage_declines_without_its_answers(method: DetectionMethod, world: World)
    requires
        (source(method) matches Some(probe) && usable(world(probe)) is None) || (confirmation(
            method,
        ) matches Some(probe) && usable(world(probe)) is None),
    ensures
        stage_outcome(method, world) is None,
{
}

/// A stage that takes its name from its source declines if that name does
/// not resolve.
pub proof fn stage_declines_if_its_name_does_not_resolve(
    method: DetectionMethod,
    world: World,
    name: Seq<char>,
)
    requires
        source(method) is Some,
        sourced(method, world) == Some(name),
        resolved(world, name) is None,
    ensures
        stage_outcome(method, world) is None,
{
    let names = candidates(method, sourced(method, world));
    assert(first_resolved(method, names, world, 1) is None);
}

/// Whatever a stage finds carries the stage's method and syntax, and is
/// well formed.
pub proof fn stage_outcome_is_of_its_method(method: DetectionMethod, world: World)
    ensures
        stage_outcome(method, world) matches Some(terminal) ==> {
            &&& terminal.detection_method == method
            &&& terminal.execution_syntax == method.syntax()
            &&& terminal.well_formed()
        },
{
    if method != DetectionMethod::Windows {
        walk_is_of_its_method(method, candidates(method, sourced(method, world)), world, 0);
    }
}

/// Whatever the walk finds carries the method and its syntax, and is well
/// formed.
proof fn walk_is_of_its_method(
    method: DetectionMethod,
    names: Seq<Seq<char>>,
    world: World,
    from: nat,
)
    ensures
        first_resolved(method, names, world, from) matches Some(terminal) ==> {
            &&& terminal.detection_method == method
            &&& terminal.execution_syntax == method.syntax()
            &&& terminal.well_formed()
        },
    decreases names.len() - from,
{
    if from < names.len() {
        walk_is_of_its_method(method, names, world, from + 1);
    }
}

} // verus!
