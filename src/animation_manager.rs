//! One entity's states and animation graph, and the per-tick step that moves
//! its active node.

use crate::animation_collection::AnimationCollection;
use crate::animation_graph::{
    first_firing, AnimationGraph, AnimationGraphEdge, AnimationGraphErr,
    AnimationTransitionCondition,
};
use crate::animation_states::AnimationStates;
use crate::spritesheet_animation::SpritesheetAnimationCollection;
use vstd::prelude::*;

verus! {

/// What a lookup of `name` in the states gives: `None` for a state never declared.
pub open spec fn state_lookup(states: Map<Seq<char>, bool>, name: Seq<char>) -> Option<bool> {
    if states.contains_key(name) {
        Some(states[name])
    } else {
        None
    }
}

/// Why a state could not be set.
#[derive(Debug, Clone, PartialEq, Eq)]
pub enum AnimationManagerErr {
    UnknownState { name: String },
}

/// The states and the animation graph of one entity.
pub struct AnimationManager {
    state: AnimationStates,
    graph: AnimationGraph,
}

impl AnimationManager {
    /// The declared states and their values.
    pub closed spec fn states(&self) -> Map<Seq<char>, bool> {
        self.state@
    }

    /// The animation graph.
    pub closed spec fn graph(&self) -> AnimationGraph {
        self.graph
    }

    pub open spec fn wf(&self) -> bool {
        self.graph().wf()
    }

    /// A manager with no states and a graph of `node_num` nodes without
    /// edges, whose active node is `start_node`.
    pub fn new(node_num: usize, start_node: usize) -> (r: Result<Self, AnimationGraphErr>)
        ensures
            node_num == 0 ==> r == Err::<Self, AnimationGraphErr>(AnimationGraphErr::EmptyGraph),
            node_num > 0 && start_node >= node_num ==> r == Err::<Self, AnimationGraphErr>(
                AnimationGraphErr::InvalidStartNode,
            ),
            node_num > 0 && start_node < node_num ==> r is Ok,
            r matches Ok(m) ==> {
                &&& m.wf()
                &&& m.states() == Map::<Seq<char>, bool>::empty()
                &&& m.graph().node_count() == node_num
                &&& m.graph().active_index() == start_node
                &&& forall|i: int| 0 <= i < node_num ==> (#[trigger] m.graph().edges()[i]).len() == 0
            },
    {
        let graph = AnimationGraph::new(node_num, start_node)?;
        let state = AnimationStates::new();
        proof {
            assert(state@ =~= Map::<Seq<char>, bool>::empty());
        }
        Ok(AnimationManager { state, graph })
    }

    /// Declares the state `name` with `value`, or overwrites its value.
    pub fn add_state(&mut self, name: String, value: bool)
        requires
            old(self).wf(),
        ensures
            final(self).wf(),
            final(self).graph() == old(self).graph(),
            final(self).states() == old(self).states().insert(name@, value),
    {
        self.state.insert(name, value);
    }

    /// Sets the value of the declared state `name`; a state never declared is an error.
    pub fn set_state(&mut self, name: String, value: bool) -> (r: Result<(), AnimationManagerErr>)
        requires
            old(self).wf(),
        ensures
            final(self).wf(),
            final(self).graph() == old(self).graph(),
            old(self).states().contains_key(name@) ==> r is Ok && final(self).states()
                == old(self).states().insert(name@, value),
            !old(self).states().contains_key(name@) ==> r == Err::<(), AnimationManagerErr>(
                (AnimationManagerErr::UnknownState { name })
            ) && final(self).states() == old(self).states(),
    {
        match self.state.get(&name) {
            None => Err(AnimationManagerErr::UnknownState { name }),
            Some(_) => {
                self.state.insert(name, value);
                Ok(())
            },
        }
    }

    /// The value of the state `name`, `None` if it was never declared.
    pub fn get_state(&self, name: String) -> (r: Option<bool>)
        ensures
            r == state_lookup(self.states(), name@),
    {
        self.state.get(&name)
    }

    /// Adds an edge to the graph, after those that already leave `start_index`.
    pub fn add_graph_edge(
        &mut self,
        start_index: usize,
        end_index: usize,
        condition: AnimationTransitionCondition,
    ) -> (r: Result<(), AnimationGraphErr>)
        requires
            old(self).wf(),
        ensures
            final(self).wf(),
            final(self).states() == old(self).states(),
            final(self).graph().active_index() == old(self).graph().active_index(),
            final(self).graph().node_count() == old(self).graph().node_count(),
            start_index < old(self).graph().node_count() && end_index < old(self).graph().node_count()
                ==> r is Ok,
            !(start_index < old(self).graph().node_count() && end_index
                < old(self).graph().node_count()) ==> r == Err::<(), AnimationGraphErr>(
                AnimationGraphErr::NodeIndexOutOfBounds,
            ),
            r is Ok ==> final(self).graph().edges() == old(self).graph().edges().update(
                start_index as int,
                old(self).graph().edges()[start_index as int].push(
                    (AnimationGraphEdge { condition, neighbour_index: end_index }),
                ),
            ),
            r is Err ==> final(self).graph().edges() == old(self).graph().edges(),
    {
        self.graph.add_edge(start_index, end_index, condition)
    }

    /// The number of nodes of the graph.
    pub fn node_num(&self) -> (r: usize)
        ensures
            r == self.graph().node_count(),
    {
        self.graph.len()
    }

    /// The index of the active node.
    pub fn active_node(&self) -> (r: usize)
        requires
            self.wf(),
        ensures
            r == self.graph().active_index(),
            r < self.graph().node_count(),
    {
        self.graph.active_node()
    }
}

/// The outcome of one transition step from manager `m0` and clips `c0` to
/// `m1` and `c1`: the states and edges stay; when an edge of the active node
/// fires, the first such edge in declaration order moves the active node to
/// its target and restarts that clip; otherwise nothing changes.
pub open spec fn transitioned<T: AnimationCollection>(
    m0: AnimationManager,
    c0: T,
    m1: AnimationManager,
    c1: T,
) -> bool {
    &&& m1.wf()
    &&& c1.wf()
    &&& m1.states() == m0.states()
    &&& m1.graph().edges() == m0.graph().edges()
    &&& c1.animation_count() == c0.animation_count()
    &&& match first_firing(m0.graph().active_edges(), m0.states(), c0.finished()) {
        None => m1.graph().active_index() == m0.graph().active_index() && c1 == c0,
        Some(target) => {
            &&& m1.graph().active_index() == target
            &&& c1.current_animation() == target
            &&& c1.at_start()
            &&& !c1.finished()
        },
    }
}

/// Runs the transition engine once: follows the first edge of the active
/// node that is eligible and whose condition holds, restarting its clip.
pub fn transition_animations<T: AnimationCollection>(
    animation_manager: &mut AnimationManager,
    animation_collection: &mut T,
)
    requires
        old(animation_manager).wf(),
        old(animation_collection).wf(),
        old(animation_manager).graph().node_count() <= old(animation_collection).animation_count(),
    ensures
        transitioned(
            *old(animation_manager),
            *old(animation_collection),
            *final(animation_manager),
            *final(animation_collection),
        ),
{
    let finished = animation_collection.is_current_animation_finished();
    let next_index = animation_manager.graph.next_node(&animation_manager.state, finished);
    if let Some(next_index) = next_index {
        proof {
            crate::animation_graph::lemma_first_firing_is_an_edge(
                animation_manager.graph().active_edges(),
                animation_manager.states(),
                finished,
            );
        }
        animation_manager.graph.set_active_node(next_index);
        animation_collection.transition(animation_manager.graph.active_node());
    }
}

/// The outcome of one tick: the playing clip advances by `delta_nanos`, then
/// the transition engine runs once.
pub open spec fn ticked(
    m0: AnimationManager,
    c0: SpritesheetAnimationCollection,
    delta_nanos: u64,
    m1: AnimationManager,
    c1: SpritesheetAnimationCollection,
) -> bool {
    transitioned(m0, c0.advanced(delta_nanos), m1, c1)
}

/// One tick of an entity, `delta_nanos` after the last: advances the playing
/// clip, then runs the transition engine, so that an edge waiting for the clip
/// to finish fires in the tick in which it finishes. Returns the active node.
pub fn tick_animation(
    animation_manager: &mut AnimationManager,
    animation_collection: &mut SpritesheetAnimationCollection,
    delta_nanos: u64,
) -> (r: usize)
    requires
        old(animation_manager).wf(),
        old(animation_collection).wf(),
        old(animation_manager).graph().node_count() <= old(animation_collection).animation_count(),
    ensures
        ticked(
            *old(animation_manager),
            *old(animation_collection),
            delta_nanos,
            *final(animation_manager),
            *final(animation_collection),
        ),
        r == final(animation_manager).graph().active_index(),
        r < final(animation_manager).graph().node_count(),
{
    animation_collection.advance(delta_nanos);
    transition_animations(animation_manager, animation_collection);
    animation_manager.active_node()
}

} // verus!
