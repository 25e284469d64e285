//! Properties of the transition engine, stated over the contracts of the
//! graph, the manager and the clips, and proved.

use crate::animation_collection::AnimationCollection;
use crate::animation_graph::{
    first_firing, fires, lemma_first_firing_is_an_edge, AnimationGraphEdge,
    AnimationTransitionCondition, AnimationTransitionMode,
};
use crate::animation_manager::{state_lookup, ticked, transitioned, AnimationManager};
use crate::spritesheet_animation::SpritesheetAnimationCollection;
use vstd::prelude::*;

verus! {

/// The active node of a well-formed manager stays a valid node index through a tick.
pub proof fn active_node_stays_valid(
    m0: AnimationManager,
    c0: SpritesheetAnimationCollection,
    delta_nanos: u64,
    m1: AnimationManager,
    c1: SpritesheetAnimationCollection,
)
    requires
        m0.wf(),
        ticked(m0, c0, delta_nanos, m1, c1),
    ensures
        m1.graph().node_count() == m0.graph().node_count(),
        m1.graph().active_index() < m1.graph().node_count(),
{
}

/// An edge from the active node to itself, declared first, always true and
/// immediate, fires on every tick: the node stays and its clip restarts from
/// its first frame.
pub proof fn self_loop_restarts_clip(
    m0: AnimationManager,
    c0: SpritesheetAnimationCollection,
    delta_nanos: u64,
    m1: AnimationManager,
    c1: SpritesheetAnimationCollection,
)
    requires
        m0.wf(),
        m0.graph().active_edges().len() > 0,
        m0.graph().active_edges()[0].neighbour_index == m0.graph().active_index(),
        m0.graph().active_edges()[0].condition.state is None,
        !m0.graph().active_edges()[0].condition.negated,
        m0.graph().active_edges()[0].condition.mode == AnimationTransitionMode::Immediate,
        ticked(m0, c0, delta_nanos, m1, c1),
    ensures
        m1.graph().active_index() == m0.graph().active_index(),
        c1.current_animation_index == m0.graph().active_index(),
        c1.current_frame_index == c1.current().bounds.first_frame_index,
        c1.frame_elapsed_nanos == 0,
{
    let c = c0.advanced(delta_nanos);
    assert(fires(m0.graph().active_edges()[0], m0.states(), c.finished()));
}

/// Of two edges of a node that both fire, the one declared first is taken,
/// whatever their targets, when no edge before it fires.
pub proof fn first_declared_edge_wins(
    edges: Seq<AnimationGraphEdge>,
    states: Map<Seq<char>, bool>,
    finished: bool,
    i: int,
    j: int,
)
    requires
        0 <= i < j < edges.len(),
        fires(edges[i], states, finished),
        fires(edges[j], states, finished),
        forall|k: int| 0 <= k < i ==> !fires(#[trigger] edges[k], states, finished),
    ensures
        first_firing(edges, states, finished) == Some(edges[i].neighbour_index),
    decreases i,
{
    if i > 0 {
        let rest = edges.drop_first();
        assert forall|k: int| 0 <= k < i - 1 implies !fires(#[trigger] rest[k], states, finished) by {
            assert(rest[k] == edges[k + 1]);
        }
        assert(!fires(edges[0], states, finished));
        first_declared_edge_wins(rest, states, finished, i - 1, j - 1);
    }
}

/// An edge that waits for the clip to finish never fires before it has
/// finished; an immediate edge fires or not whatever the clip's state. So
/// before the clip finishes, the edge taken, if any, is an immediate one.
pub proof fn after_finish_edges_wait(
    edges: Seq<AnimationGraphEdge>,
    states: Map<Seq<char>, bool>,
)
    ensures
        forall|k: int|
            0 <= k < edges.len() && edges[k].condition.mode == AnimationTransitionMode::AfterFinish
                ==> !fires(#[trigger] edges[k], states, false),
        forall|k: int|
            0 <= k < edges.len() && edges[k].condition.mode == AnimationTransitionMode::Immediate
                ==> (fires(#[trigger] edges[k], states, false) == fires(edges[k], states, true)),
        first_firing(edges, states, false) matches Some(target) ==> exists|k: int|
            0 <= k < edges.len() && (#[trigger] edges[k]).condition.mode
                == AnimationTransitionMode::Immediate && edges[k].condition.holds(states)
                && edges[k].neighbour_index == target,
{
    lemma_first_firing_is_an_edge(edges, states, false);
}

/// A condition on a state that was never declared is false, also when negated.
pub proof fn absent_state_condition_is_false(
    condition: AnimationTransitionCondition,
    states: Map<Seq<char>, bool>,
)
    requires
        condition.state matches Some(name) && !states.contains_key(name@),
    ensures
        !condition.holds(states),
{
}

/// A node without outgoing edges never moves, and its clip, once finished,
/// stays as it is tick after tick.
pub proof fn terminal_node_stays(
    m0: AnimationManager,
    c0: SpritesheetAnimationCollection,
    delta_nanos: u64,
    m1: AnimationManager,
    c1: SpritesheetAnimationCollection,
)
    requires
        m0.wf(),
        m0.graph().active_edges().len() == 0,
        ticked(m0, c0, delta_nanos, m1, c1),
    ensures
        m1.graph().active_index() == m0.graph().active_index(),
        m1.graph().active_edges().len() == 0,
        c0.finished() ==> c1 == c0 && c1.finished(),
{
}

/// A state read back after it was declared or set gives the value written;
/// a state never declared reads as absent.
pub proof fn state_round_trip(states: Map<Seq<char>, bool>, name: Seq<char>, value: bool)
    ensures
        state_lookup(states.insert(name, value), name) == Some(value),
        !states.contains_key(name) ==> state_lookup(states, name) is None,
{
}

} // verus!
