use vstd::prelude::*;
use crate::context::Architecture;
use crate::frame::FrameKind;

verus! {

/// Which pair of callbacks resolves, for the walking primitive, the
/// function-table entry and the module base of a code address.
#[derive(Clone, Copy, Debug, PartialEq, Eq, Structural)]
pub enum ResolutionStrategy {
    /// The kernel's runtime function table, which also covers code generated
    /// at run time.
    RuntimeFunctionTable,
    /// The symbol engine's own table-access and module-base functions.
    SymbolEngine,
}

pub open spec fn resolution_strategy_spec(arch: Architecture) -> ResolutionStrategy {
    if arch.pointer_width_spec() == 64 {
        ResolutionStrategy::RuntimeFunctionTable
    } else {
        ResolutionStrategy::SymbolEngine
    }
}

/// The resolution callbacks a target uses: the runtime function table where
/// pointers are 64 bits wide, the symbol engine's own functions elsewhere.
pub fn resolution_strategy(arch: &Architecture) -> (r: ResolutionStrategy)
    ensures
        r == resolution_strategy_spec(*arch),
{
    if arch.pointer_width() == 64 {
        ResolutionStrategy::RuntimeFunctionTable
    } else {
        ResolutionStrategy::SymbolEngine
    }
}

/// Where a stack walk stands.
#[derive(Clone, Copy, Debug, PartialEq, Eq, Structural)]
pub enum WalkState {
    /// Nothing done yet.
    Start,
    /// The engine is up and the record shape is chosen.
    Selected { kind: FrameKind },
    /// The walking primitive is to be called.
    Advancing { kind: FrameKind },
    /// The primitive produced a frame; the visitor is to see it.
    Visiting { kind: FrameKind },
    /// The primitive found no further frame, or the walk could not go on.
    Done,
    /// The visitor asked to stop.
    Aborted,
    /// The symbol engine could not be brought up.
    Unavailable,
}

/// What the surroundings report back after carrying out an action.
#[derive(Clone, Copy, Debug, PartialEq, Eq, Structural)]
pub enum WalkEvent {
    /// The symbol engine could not be brought up.
    EngineUnavailable,
    /// The engine is up; says whether it offers the extended primitive.
    EngineReady { extended_available: bool },
    /// The first frame record has been written from the captured context.
    FrameInitialized,
    /// The walking primitive returned; `success` is false at the end of the
    /// stack or on any failure.
    Advanced { success: bool },
    /// The visitor returned; `keep_going` is false when it asks to stop.
    Visited { keep_going: bool },
}

/// What the surroundings are to do next.
#[derive(Clone, Copy, Debug, PartialEq, Eq, Structural)]
pub enum WalkAction {
    /// Capture the register context and bring up the symbol engine.
    Prepare,
    /// Make a zeroed record of this shape and initialize it from the context.
    InitFrame { kind: FrameKind },
    /// Call the walking primitive that fills records of this shape.
    Advance { kind: FrameKind },
    /// Hand the current record, of this shape, to the visitor.
    Visit { kind: FrameKind },
    /// The walk is over.
    Finish,
}

/// The record shape that goes with the primitive the engine offers.
pub open spec fn kind_for(extended_available: bool) -> FrameKind {
    if extended_available {
        FrameKind::Extended
    } else {
        FrameKind::Legacy
    }
}

impl WalkAction {
    /// The record shape an action works on, if any.
    pub open spec fn frame_kind(self) -> Option<FrameKind> {
        match self {
            WalkAction::InitFrame { kind } => Some(kind),
            WalkAction::Advance { kind } => Some(kind),
            WalkAction::Visit { kind } => Some(kind),
            _ => None,
        }
    }
}

impl WalkState {
    pub open spec fn is_terminal(self) -> bool {
        ||| self is Done
        ||| self is Aborted
        ||| self is Unavailable
    }

    /// The record shape a state is bound to, if any.
    pub open spec fn frame_kind(self) -> Option<FrameKind> {
        match self {
            WalkState::Selected { kind } => Some(kind),
            WalkState::Advancing { kind } => Some(kind),
            WalkState::Visiting { kind } => Some(kind),
            _ => None,
        }
    }

    /// The state after `e`. An event that does not answer the state's
    /// action ends the walk; a finished walk stays as it is.
    pub open spec fn next_spec(self, e: WalkEvent) -> WalkState {
        match (self, e) {
            (WalkState::Start, WalkEvent::EngineUnavailable) => WalkState::Unavailable,
            (WalkState::Start, WalkEvent::EngineReady { extended_available }) => {
                WalkState::Selected { kind: kind_for(extended_available) }
            },
            (WalkState::Selected { kind }, WalkEvent::FrameInitialized) => {
                WalkState::Advancing { kind }
            },
            (WalkState::Advancing { kind }, WalkEvent::Advanced { success }) => {
                if success {
                    WalkState::Visiting { kind }
                } else {
                    WalkState::Done
                }
            },
            (WalkState::Visiting { kind }, WalkEvent::Visited { keep_going }) => {
                if keep_going {
                    WalkState::Advancing { kind }
                } else {
                    WalkState::Aborted
                }
            },
            _ => if self.is_terminal() {
                self
            } else {
                WalkState::Done
            },
        }
    }

    /// The action a state asks for.
    pub open spec fn action_spec(self) -> WalkAction {
        match self {
            WalkState::Start => WalkAction::Prepare,
            WalkState::Selected { kind } => WalkAction::InitFrame { kind },
            WalkState::Advancing { kind } => WalkAction::Advance { kind },
            WalkState::Visiting { kind } => WalkAction::Visit { kind },
            _ => WalkAction::Finish,
        }
    }

    /// A walk that has not begun.
    pub fn start() -> (r: WalkState)
        ensures
            r == WalkState::Start,
    {
        WalkState::Start
    }

    /// Whether the walk is over.
    pub fn is_finished(&self) -> (r: bool)
        ensures
            r == self.is_terminal(),
    {
        match self {
            WalkState::Done | WalkState::Aborted | WalkState::Unavailable => true,
            _ => false,
        }
    }

    /// The state that follows `e`.
    pub fn next(&self, e: &WalkEvent) -> (r: WalkState)
        ensures
            r == self.next_spec(*e),
    {
        match (*self, *e) {
            (WalkState::Start, WalkEvent::EngineUnavailable) => WalkState::Unavailable,
            (WalkState::Start, WalkEvent::EngineReady { extended_available }) => {
                let kind = if extended_available {
                    FrameKind::Extended
                } else {
                    FrameKind::Legacy
                };
                WalkState::Selected { kind }
            },
            (WalkState::Selected { kind }, WalkEvent::FrameInitialized) => {
                WalkState::Advancing { kind }
            },
            (WalkState::Advancing { kind }, WalkEvent::Advanced { success }) => {
                if success {
                    WalkState::Visiting { kind }
                } else {
                    WalkState::Done
                }
            },
            (WalkState::Visiting { kind }, WalkEvent::Visited { keep_going }) => {
                if keep_going {
                    WalkState::Advancing { kind }
                } else {
                    WalkState::Aborted
                }
            },
            _ => if self.is_finished() {
                *self
            } else {
                WalkState::Done
            },
        }
    }

    /// The action this state asks for.
    pub fn action(&self) -> (r: WalkAction)
        ensures
            r == self.action_spec(),
    {
        match *self {
            WalkState::Start => WalkAction::Prepare,
            WalkState::Selected { kind } => WalkAction::InitFrame { kind },
            WalkState::Advancing { kind } => WalkAction::Advance { kind },
            WalkState::Visiting { kind } => WalkAction::Visit { kind },
            _ => WalkAction::Finish,
        }
    }
}

/// The state a walk reaches from its start through `events`.
pub open spec fn run(events: Seq<WalkEvent>) -> WalkState
    decreases events.len(),
{
    if events.len() == 0 {
        WalkState::Start
    } else {
        run(events.drop_last()).next_spec(events.last())
    }
}

/// The actions a walk asks for, one at its start and one after each event.
pub open spec fn issued(events: Seq<WalkEvent>) -> Seq<WalkAction>
    decreases events.len(),
{
    if events.len() == 0 {
        seq![WalkState::Start.action_spec()]
    } else {
        issued(events.drop_last()).push(run(events).action_spec())
    }
}

/// How many times a list of actions hands a frame to the visitor.
pub open spec fn visits(actions: Seq<WalkAction>) -> nat
    decreases actions.len(),
{
    if actions.len() == 0 {
        0
    } else {
        visits(actions.drop_last()) + if actions.last() is Visit {
            1nat
        } else {
            0nat
        }
    }
}

/// How many times a list of actions calls the walking primitive.
pub open spec fn advances(actions: Seq<WalkAction>) -> nat
    decreases actions.len(),
{
    if actions.len() == 0 {
        0
    } else {
        advances(actions.drop_last()) + if actions.last() is Advance {
            1nat
        } else {
            0nat
        }
    }
}

proof fn lemma_push_event(events: Seq<WalkEvent>, e: WalkEvent)
    ensures
        run(events.push(e)) == run(events).next_spec(e),
        issued(events.push(e)) == issued(events).push(run(events).next_spec(e).action_spec()),
{
    assert(events.push(e).drop_last() =~= events);
}

proof fn lemma_count_push(actions: Seq<WalkAction>, a: WalkAction)
    ensures
        visits(actions.push(a)) == visits(actions) + if a is Visit {
            1nat
        } else {
            0nat
        },
        advances(actions.push(a)) == advances(actions) + if a is Advance {
            1nat
        } else {
            0nat
        },
{
    assert(actions.push(a).drop_last() =~= actions);
}

proof fn lemma_start_issued()
    ensures
        issued(Seq::<WalkEvent>::empty()) == Seq::<WalkAction>::empty().push(WalkAction::Prepare),
        visits(issued(Seq::<WalkEvent>::empty())) == 0,
        advances(issued(Seq::<WalkEvent>::empty())) == 0,
{
    assert(issued(Seq::<WalkEvent>::empty()) =~= Seq::<WalkAction>::empty().push(
        WalkAction::Prepare,
    ));
    lemma_count_push(Seq::<WalkAction>::empty(), WalkAction::Prepare);
}

/// Once a walk is over, no event changes its state, and no further frame is
/// visited nor primitive called.
pub proof fn lemma_finished_walk_stays(prefix: Seq<WalkEvent>, rest: Seq<WalkEvent>)
    requires
        run(prefix).is_terminal(),
    ensures
        run(prefix + rest) == run(prefix),
        visits(issued(prefix + rest)) == visits(issued(prefix)),
        advances(issued(prefix + rest)) == advances(issued(prefix)),
    decreases rest.len(),
{
    if rest.len() == 0 {
        assert(prefix + rest =~= prefix);
    } else {
        let shorter = rest.drop_last();
        lemma_finished_walk_stays(prefix, shorter);
        assert(prefix + rest =~= (prefix + shorter).push(rest.last()));
        lemma_push_event(prefix + shorter, rest.last());
        lemma_count_push(issued(prefix + shorter), WalkAction::Finish);
    }
}

/// How the visitor and primitive counts of a walk stand in each state: the
/// primitive has been called once more than the visitor while a call is
/// pending or after the last one failed, and as often otherwise.
pub proof fn lemma_counts_by_state(events: Seq<WalkEvent>)
    ensures
        events.len() > 0 ==> run(events) !is Start,
        match run(events) {
            WalkState::Start | WalkState::Selected { .. } | WalkState::Unavailable => {
                visits(issued(events)) == 0 && advances(issued(events)) == 0
            },
            WalkState::Advancing { .. } => advances(issued(events)) == visits(issued(events)) + 1,
            WalkState::Visiting { .. } | WalkState::Aborted => {
                advances(issued(events)) == visits(issued(events))
            },
            WalkState::Done => {
                advances(issued(events)) == visits(issued(events)) || advances(issued(events))
                    == visits(issued(events)) + 1
            },
        },
    decreases events.len(),
{
    if events.len() > 0 {
        let d = events.drop_last();
        lemma_counts_by_state(d);
        assert(d.push(events.last()) =~= events);
        lemma_push_event(d, events.last());
        lemma_count_push(issued(d), run(events).action_spec());
    } else {
        assert(events =~= Seq::<WalkEvent>::empty());
        lemma_start_issued();
    }
}

/// Every record shape a walk's actions name is the one chosen from the
/// engine's answer to the first action.
proof fn lemma_kinds_follow_choice(events: Seq<WalkEvent>)
    ensures
        run(events).frame_kind() is Some ==> {
            &&& events.len() > 0
            &&& events[0] is EngineReady
            &&& run(events).frame_kind() == Some(kind_for(events[0]->extended_available))
        },
        forall|i: int|
            0 <= i < issued(events).len() && (#[trigger] issued(events)[i]).frame_kind() is Some
                ==> {
                &&& events.len() > 0
                &&& events[0] is EngineReady
                &&& issued(events)[i].frame_kind() == Some(
                    kind_for(events[0]->extended_available),
                )
            },
    decreases events.len(),
{
    if events.len() > 0 {
        let d = events.drop_last();
        lemma_kinds_follow_choice(d);
        lemma_counts_by_state(d);
        assert(d.push(events.last()) =~= events);
        lemma_push_event(d, events.last());
        if d.len() > 0 {
            assert(d[0] == events[0]);
        }
    } else {
        assert(issued(events) =~= seq![WalkAction::Prepare]);
    }
}

/// A walk whose symbol engine could not be brought up hands no frame to the
/// visitor and never calls the walking primitive; a walk that hands over any
/// frame began with the engine up.
pub proof fn lemma_frames_need_engine(events: Seq<WalkEvent>)
    ensures
        events.len() > 0 && events[0] is EngineUnavailable ==> {
            &&& run(events) is Unavailable
            &&& visits(issued(events)) == 0
            &&& advances(issued(events)) == 0
        },
        visits(issued(events)) > 0 ==> events.len() > 0 && events[0] is EngineReady,
{
    lemma_start_issued();
    if events.len() == 0 {
        assert(events =~= Seq::<WalkEvent>::empty());
    } else {
        let first = events.take(1);
        let rest = events.skip(1);
        assert(first =~= Seq::<WalkEvent>::empty().push(events[0]));
        assert(first + rest =~= events);
        lemma_push_event(Seq::<WalkEvent>::empty(), events[0]);
        lemma_counts_by_state(Seq::<WalkEvent>::empty());
        lemma_counts_by_state(first);
        lemma_count_push(issued(Seq::<WalkEvent>::empty()), run(first).action_spec());
        if !(events[0] is EngineReady) {
            lemma_finished_walk_stays(first, rest);
        }
    }
}

/// One walk never mixes the two record shapes: any two actions of it that
/// name a shape name the same one.
pub proof fn lemma_one_shape_per_walk(events: Seq<WalkEvent>, i: int, j: int)
    requires
        0 <= i < issued(events).len(),
        0 <= j < issued(events).len(),
        issued(events)[i].frame_kind() is Some,
        issued(events)[j].frame_kind() is Some,
    ensures
        issued(events)[i].frame_kind() == issued(events)[j].frame_kind(),
{
    lemma_kinds_follow_choice(events);
}

/// When the visitor asks to stop after its k-th frame, the walk ends there:
/// exactly k frames have been handed over, the primitive has been called
/// exactly k times, and whatever is reported afterwards changes neither.
pub proof fn lemma_stop_ends_walk(prefix: Seq<WalkEvent>, rest: Seq<WalkEvent>)
    requires
        run(prefix) is Visiting,
    ensures
        run(prefix.push(WalkEvent::Visited { keep_going: false }) + rest) is Aborted,
        visits(issued(prefix.push(WalkEvent::Visited { keep_going: false }) + rest)) == visits(
            issued(prefix),
        ),
        advances(issued(prefix.push(WalkEvent::Visited { keep_going: false }) + rest))
            == visits(issued(prefix)),
{
    let stop = WalkEvent::Visited { keep_going: false };
    lemma_counts_by_state(prefix);
    lemma_push_event(prefix, stop);
    let p = prefix.push(stop);
    assert(issued(p).drop_last() =~= issued(prefix));
    lemma_finished_walk_stays(p, rest);
}

/// When the walking primitive reports that no frame is left, the walk ends
/// by itself: no further frame is handed over and the primitive is not
/// called again, whatever is reported afterwards.
pub proof fn lemma_exhaustion_ends_walk(prefix: Seq<WalkEvent>, rest: Seq<WalkEvent>)
    requires
        run(prefix) is Advancing,
    ensures
        run(prefix.push(WalkEvent::Advanced { success: false }) + rest) is Done,
        visits(issued(prefix.push(WalkEvent::Advanced { success: false }) + rest)) == visits(
            issued(prefix),
        ),
        advances(issued(prefix.push(WalkEvent::Advanced { success: false }) + rest))
            == advances(issued(prefix)),
{
    let end = WalkEvent::Advanced { success: false };
    lemma_push_event(prefix, end);
    let p = prefix.push(end);
    assert(issued(p).drop_last() =~= issued(prefix));
    lemma_finished_walk_stays(p, rest);
}

} // verus!
