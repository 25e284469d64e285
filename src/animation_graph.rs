//! The animation graph: nodes, conditioned edges and the choice of the next node.

use crate::animation_states::AnimationStates;
use vstd::prelude::*;

verus! {

/// When an edge may fire: only once the active clip has finished, or on any tick.
#[derive(Debug, Clone, Copy, PartialEq, Eq, Structural)]
pub enum AnimationTransitionMode {
    AfterFinish,
    Immediate,
}

impl Default for AnimationTransitionMode {
    fn default() -> (r: AnimationTransitionMode)
        ensures
            r == AnimationTransitionMode::AfterFinish,
    {
        AnimationTransitionMode::AfterFinish
    }
}

/// A condition on the named states: always true when `state` is `None`,
/// otherwise the stored value of that state, inverted when `negated` is set.
/// A state that was never declared makes the condition false, negated or not.
#[derive(Debug)]
pub struct AnimationTransitionCondition {
    pub state: Option<String>,
    pub negated: bool,
    pub mode: AnimationTransitionMode,
}

impl AnimationTransitionCondition {
    /// Whether the condition is true on the given states.
    pub open spec fn holds(&self, states: Map<Seq<char>, bool>) -> bool {
        match self.state {
            None => !self.negated,
            Some(name) => states.contains_key(name@) && states[name@] != self.negated,
        }
    }

    /// Whether the trigger mode lets the edge fire, given whether the clip finished.
    pub open spec fn eligible(&self, finished: bool) -> bool {
        self.mode == AnimationTransitionMode::Immediate || finished
    }

    /// A condition that waits for the active clip to finish.
    pub fn new(state: Option<String>, negated: bool) -> (r: Self)
        ensures
            r.state == state,
            r.negated == negated,
            r.mode == AnimationTransitionMode::AfterFinish,
    {
        AnimationTransitionCondition { state, negated, mode: AnimationTransitionMode::AfterFinish }
    }

    /// The same condition under another trigger mode.
    pub fn with_mode(self, mode: AnimationTransitionMode) -> (r: Self)
        ensures
            r.state == self.state,
            r.negated == self.negated,
            r.mode == mode,
    {
        AnimationTransitionCondition { mode, ..self }
    }

    /// Evaluates the condition against the states.
    pub(crate) fn is_met(&self, states: &AnimationStates) -> (r: bool)
        ensures
            r == self.holds(states@),
    {
        match &self.state {
            None => !self.negated,
            Some(name) => match states.get(name) {
                None => false,
                Some(value) => value != self.negated,
            },
        }
    }
}

/// An edge of the graph: its condition and the index of the node it leads to.
#[derive(Debug)]
pub struct AnimationGraphEdge {
    pub condition: AnimationTransitionCondition,
    pub neighbour_index: usize,
}

/// Whether an edge fires, given the states and whether the active clip finished.
pub open spec fn fires(edge: AnimationGraphEdge, states: Map<Seq<char>, bool>, finished: bool) -> bool {
    edge.condition.eligible(finished) && edge.condition.holds(states)
}

/// The target of the first edge, in declaration order, that fires; `None` if none does.
pub open spec fn first_firing(
    edges: Seq<AnimationGraphEdge>,
    states: Map<Seq<char>, bool>,
    finished: bool,
) -> Option<usize>
    decreases edges.len(),
{
    if edges.len() == 0 {
        None
    } else if fires(edges[0], states, finished) {
        Some(edges[0].neighbour_index)
    } else {
        first_firing(edges.drop_first(), states, finished)
    }
}

/// The edge that `first_firing` picks fires and comes before every other that fires.
pub proof fn lemma_first_firing_is_an_edge(
    edges: Seq<AnimationGraphEdge>,
    states: Map<Seq<char>, bool>,
    finished: bool,
)
    ensures
        first_firing(edges, states, finished) is None <==> forall|k: int|
            0 <= k < edges.len() ==> !fires(#[trigger] edges[k], states, finished),
        first_firing(edges, states, finished) matches Some(target) ==> exists|k: int|
            0 <= k < edges.len() && fires(#[trigger] edges[k], states, finished)
                && edges[k].neighbour_index == target && forall|j: int|
                0 <= j < k ==> !fires(#[trigger] edges[j], states, finished),
    decreases edges.len(),
{
    if edges.len() > 0 {
        let rest = edges.drop_first();
        lemma_first_firing_is_an_edge(rest, states, finished);
        assert forall|k: int| 0 < k < edges.len() implies edges[k] == rest[k - 1] by {}
        if !fires(edges[0], states, finished) {
            if let Some(target) = first_firing(rest, states, finished) {
                let k = choose|k: int|
                    0 <= k < rest.len() && fires(#[trigger] rest[k], states, finished)
                        && rest[k].neighbour_index == target && forall|j: int|
                        0 <= j < k ==> !fires(#[trigger] rest[j], states, finished);
                assert(edges[k + 1] == rest[k]);
                assert forall|j: int| 0 <= j < k + 1 implies !fires(#[trigger] edges[j], states, finished) by {
                    if j > 0 {
                        assert(edges[j] == rest[j - 1]);
                    }
                }
            } else {
                assert forall|k: int| 0 <= k < edges.len() implies !fires(#[trigger] edges[k], states, finished) by {
                    if k > 0 {
                        assert(edges[k] == rest[k - 1]);
                    }
                }
            }
        }
    }
}

/// A node of the graph with its outgoing edges, in the order they were added.
#[derive(Debug)]
pub struct AnimationGraphNode {
    pub edges: Vec<AnimationGraphEdge>,
}

impl AnimationGraphNode {
    /// A node without edges.
    pub fn new() -> (r: Self)
        ensures
            r.edges@.len() == 0,
    {
        AnimationGraphNode { edges: Vec::new() }
    }
}

/// Why a graph could not be built or an edge could not be added.
#[derive(Debug, Clone, Copy, PartialEq, Eq, Structural)]
pub enum AnimationGraphErr {
    EmptyGraph,
    InvalidStartNode,
    NodeIndexOutOfBounds,
}

/// Nodes addressed by index, edges by the index of their target, and the active node.
#[derive(Debug)]
pub struct AnimationGraph {
    nodes: Vec<AnimationGraphNode>,
    active: usize,
}

impl AnimationGraph {
    /// The outgoing edges of each node.
    pub closed spec fn edges(&self) -> Seq<Seq<AnimationGraphEdge>> {
        self.nodes@.map_values(|n: AnimationGraphNode| n.edges@)
    }

    /// The index of the active node.
    pub closed spec fn active_index(&self) -> nat {
        self.active as nat
    }

    /// The number of nodes.
    pub open spec fn node_count(&self) -> nat {
        self.edges().len()
    }

    /// The edges that leave the active node.
    pub open spec fn active_edges(&self) -> Seq<AnimationGraphEdge> {
        self.edges()[self.active_index() as int]
    }

    /// At least one node, a valid active node, and every edge leads to a node.
    pub open spec fn wf(&self) -> bool {
        &&& self.node_count() > 0
        &&& self.active_index() < self.node_count()
        &&& forall|i: int, j: int|
            0 <= i < self.node_count() && 0 <= j < self.edges()[i].len()
                ==> (#[trigger] self.edges()[i][j]).neighbour_index < self.node_count()
    }

    /// A graph of `node_num` nodes without edges, whose active node is `start_node`.
    pub fn new(node_num: usize, start_node: usize) -> (r: Result<Self, AnimationGraphErr>)
        ensures
            node_num == 0 ==> r == Err::<Self, AnimationGraphErr>(AnimationGraphErr::EmptyGraph),
            node_num > 0 && start_node >= node_num ==> r == Err::<Self, AnimationGraphErr>(
                AnimationGraphErr::InvalidStartNode,
            ),
            node_num > 0 && start_node < node_num ==> r is Ok,
            r matches Ok(g) ==> {
                &&& g.wf()
                &&& g.node_count() == node_num
                &&& g.active_index() == start_node
                &&& forall|i: int| 0 <= i < node_num ==> (#[trigger] g.edges()[i]).len() == 0
            },
    {
        if node_num == 0 {
            return Err(AnimationGraphErr::EmptyGraph);
        }
        if start_node >= node_num {
            return Err(AnimationGraphErr::InvalidStartNode);
        }
        let mut nodes: Vec<AnimationGraphNode> = Vec::with_capacity(node_num);
        let mut i: usize = 0;
        while i < node_num
            invariant
                i <= node_num,
                nodes@.len() == i,
                forall|k: int| 0 <= k < i ==> (#[trigger] nodes@[k]).edges@.len() == 0,
            decreases node_num - i,
        {
            nodes.push(AnimationGraphNode::new());
            i = i + 1;
        }
        let g = AnimationGraph { nodes, active: start_node };
        Ok(g)
    }

    /// Appends an edge from `start_index` to `end_index` after the edges
    /// that already leave `start_index`.
    pub fn add_edge(
        &mut self,
        start_index: usize,
        end_index: usize,
        condition: AnimationTransitionCondition,
    ) -> (r: Result<(), AnimationGraphErr>)
        requires
            old(self).wf(),
        ensures
            final(self).wf(),
            final(self).active_index() == old(self).active_index(),
            final(self).node_count() == old(self).node_count(),
            start_index < old(self).node_count() && end_index < old(self).node_count()
                ==> r is Ok,
            !(start_index < old(self).node_count() && end_index < old(self).node_count())
                ==> r == Err::<(), AnimationGraphErr>(AnimationGraphErr::NodeIndexOutOfBounds),
            r is Ok ==> final(self).edges() == old(self).edges().update(
                start_index as int,
                old(self).edges()[start_index as int].push(
                    AnimationGraphEdge { condition, neighbour_index: end_index },
                ),
            ),
            r is Err ==> final(self).edges() == old(self).edges(),
    {
        if start_index >= self.nodes.len() || end_index >= self.nodes.len() {
            return Err(AnimationGraphErr::NodeIndexOutOfBounds);
        }
        let ghost before = self.edges();
        self.nodes[start_index].edges.push(AnimationGraphEdge { condition, neighbour_index: end_index });
        proof {
            assert(self.edges() =~= before.update(
                start_index as int,
                before[start_index as int].push(AnimationGraphEdge { condition, neighbour_index: end_index }),
            ));
            assert forall|i: int, j: int|
                0 <= i < self.node_count() && 0 <= j < self.edges()[i].len() implies
                (#[trigger] self.edges()[i][j]).neighbour_index < self.node_count() by {
                if i != start_index as int || j < before[i].len() {
                    assert(self.edges()[i][j] == before[i][j]);
                }
            }
        }
        Ok(())
    }

    /// Makes `index` the active node.
    pub(crate) fn set_active_node(&mut self, index: usize)
        requires
            old(self).wf(),
            index < old(self).node_count(),
        ensures
            final(self).wf(),
            final(self).edges() == old(self).edges(),
            final(self).active_index() == index,
    {
        self.active = index;
    }

    /// The index of the active node.
    pub fn active_node(&self) -> (r: usize)
        ensures
            r == self.active_index(),
    {
        self.active
    }

    /// The number of nodes.
    pub fn len(&self) -> (r: usize)
        ensures
            r == self.node_count(),
    {
        self.nodes.len()
    }

    /// The node that the active node moves to: the target of its first edge,
    /// in declaration order, that is eligible and whose condition holds.
    pub(crate) fn next_node(&self, states: &AnimationStates, finished: bool) -> (r: Option<usize>)
        requires
            self.wf(),
        ensures
            r == first_firing(self.active_edges(), states@, finished),
    {
        let edges = &self.nodes[self.active].edges;
        assert(edges@ == self.active_edges());
        let mut i: usize = 0;
        assert(edges@.skip(0) =~= edges@);
        while i < edges.len()
            invariant
                i <= edges@.len(),
                edges@ == self.active_edges(),
                first_firing(edges@, states@, finished) == first_firing(
                    edges@.skip(i as int),
                    states@,
                    finished,
                ),
            decreases edges@.len() - i,
        {
            let edge = &edges[i];
            assert(edges@.skip(i as int)[0] == edges@[i as int]);
            let eligible = edge.condition.mode == AnimationTransitionMode::Immediate || (
            edge.condition.mode == AnimationTransitionMode::AfterFinish && finished);
            if eligible && edge.condition.is_met(states) {
                assert(fires(edges@[i as int], states@, finished));
                assert(edges@.skip(i as int).len() > 0);
                assert(first_firing(edges@.skip(i as int), states@, finished) == Some(
                    edge.neighbour_index,
                ));
                return Some(edge.neighbour_index);
            }
            assert(edges@.skip(i as int).drop_first() =~= edges@.skip(i + 1));
            i = i + 1;
        }
        None
    }
}

} // verus!
