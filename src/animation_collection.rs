//! The capability that the transition engine needs from a set of clips.

use vstd::prelude::*;

verus! {

/// A set of clips indexed like the nodes of an animation graph, one of them playing.
pub trait AnimationCollection: Sized {
    /// The collection's own invariant.
    spec fn wf(&self) -> bool;

    /// How many clips the collection holds.
    spec fn animation_count(&self) -> nat;

    /// The index of the playing clip.
    spec fn current_animation(&self) -> nat;

    /// Whether the playing clip has finished its pass.
    spec fn finished(&self) -> bool;

    /// Whether the playing clip stands at its first frame with no time elapsed.
    spec fn at_start(&self) -> bool;

    /// Makes clip `animation_index` the playing one, restarted from its first frame.
    fn transition(&mut self, animation_index: usize)
        requires
            old(self).wf(),
            animation_index < old(self).animation_count(),
        ensures
            final(self).wf(),
            final(self).animation_count() == old(self).animation_count(),
            final(self).current_animation() == animation_index,
            final(self).at_start(),
            !final(self).finished(),
    ;

    /// How many clips the collection holds.
    fn animation_num(&self) -> (r: usize)
        requires
            self.wf(),
        ensures
            r == self.animation_count(),
    ;

    /// Whether the playing clip has finished its pass.
    fn is_current_animation_finished(&self) -> (r: bool)
        requires
            self.wf(),
        ensures
            r == self.finished(),
    ;
}

} // verus!
