//! Clips that step through a range of frames of a sprite sheet.

use crate::animation_collection::AnimationCollection;
use bevy::time::{Timer, TimerMode};
use std::time::Duration;
use vstd::prelude::*;

verus! {

/// Whether a repeating timer of `duration` nanoseconds, at `elapsed`, finishes
/// when `delta` more nanoseconds pass.
pub open spec fn timer_finishes(duration: u64, elapsed: u64, delta: u64) -> bool {
    elapsed + delta >= duration
}

/// The elapsed time of a repeating timer of `duration` nanoseconds, at
/// `elapsed`, after `delta` more nanoseconds: it wraps round once it reaches
/// the duration (a zero duration leaves it at zero).
pub open spec fn timer_elapsed_after(duration: u64, elapsed: u64, delta: u64) -> int {
    if elapsed + delta < duration {
        elapsed + delta
    } else if duration == 0 {
        0
    } else {
        (elapsed + delta) % (duration as int)
    }
}

/// Relies on bevy's `Timer::tick` on a repeating timer whose elapsed time was
/// set to `elapsed_nanos`: the time grows by `delta_nanos`, the timer reports
/// finished once it reaches the duration, and the elapsed time then becomes
/// its remainder modulo the duration (zero for a zero duration).
#[verifier::external_body]
fn tick_repeating_timer(duration_nanos: u64, elapsed_nanos: u64, delta_nanos: u64) -> (r: (u64, bool))
    ensures
        r.0 == timer_elapsed_after(duration_nanos, elapsed_nanos, delta_nanos),
        r.1 == timer_finishes(duration_nanos, elapsed_nanos, delta_nanos),
{
    let mut timer = Timer::new(Duration::from_nanos(duration_nanos), TimerMode::Repeating);
    timer.set_elapsed(Duration::from_nanos(elapsed_nanos));
    timer.tick(Duration::from_nanos(delta_nanos));
    (timer.elapsed().as_nanos() as u64, timer.finished())
}

/// The first and last frame of a clip, both included.
#[derive(Debug, Clone, Copy, PartialEq, Eq, Structural)]
pub struct AnimationBounds {
    pub first_frame_index: usize,
    pub last_frame_index: usize,
}

impl AnimationBounds {
    /// The first frame comes no later than the last, and one frame past the
    /// last can still be counted.
    pub open spec fn valid(&self) -> bool {
        self.first_frame_index <= self.last_frame_index < usize::MAX
    }

    pub fn new(first_frame_index: usize, last_frame_index: usize) -> (r: Self)
        requires
            first_frame_index <= last_frame_index < usize::MAX,
        ensures
            r.first_frame_index == first_frame_index,
            r.last_frame_index == last_frame_index,
            r.valid(),
    {
        AnimationBounds { first_frame_index, last_frame_index }
    }
}

/// A clip: a range of sprite-sheet frames, each shown for `frame_duration_nanos`.
#[derive(Debug, Clone, Copy, PartialEq, Eq, Structural)]
pub struct SpritesheetAnimation {
    pub bounds: AnimationBounds,
    pub frame_duration_nanos: u64,
}

impl SpritesheetAnimation {
    pub fn new(bounds: AnimationBounds, frame_duration_nanos: u64) -> (r: Self)
        requires
            bounds.valid(),
        ensures
            r.bounds == bounds,
            r.frame_duration_nanos == frame_duration_nanos,
    {
        SpritesheetAnimation { bounds, frame_duration_nanos }
    }
}

/// The clips of one entity, the one that plays, its frame, and the time spent
/// in that frame. A clip has finished once its frame has moved one step past
/// its last frame: the last frame is shown for a full frame duration first.
pub struct SpritesheetAnimationCollection {
    pub animations: Vec<SpritesheetAnimation>,
    pub current_animation_index: usize,
    pub current_frame_index: usize,
    pub frame_elapsed_nanos: u64,
}

impl SpritesheetAnimationCollection {
    /// The playing clip.
    pub open spec fn current(&self) -> SpritesheetAnimation {
        self.animations@[self.current_animation_index as int]
    }

    /// A collection of the given clips, playing the first from its first frame.
    pub fn new(animations: Vec<SpritesheetAnimation>) -> (r: Self)
        requires
            animations@.len() > 0,
            forall|i: int| 0 <= i < animations@.len() ==> (#[trigger] animations@[i]).bounds.valid(),
        ensures
            r.wf(),
            r.animations@ == animations@,
            r.current_animation_index == 0,
            r.at_start(),
    {
        let first = animations[0].bounds.first_frame_index;
        SpritesheetAnimationCollection {
            animations,
            current_animation_index: 0,
            current_frame_index: first,
            frame_elapsed_nanos: 0,
        }
    }

    /// The playing clip.
    pub fn current_spritesheet_animation(&self) -> (r: &SpritesheetAnimation)
        requires
            self.wf(),
        ensures
            *r == self.current(),
    {
        &self.animations[self.current_animation_index]
    }

    /// The collection after `delta_nanos` of time: a finished clip stays as
    /// it is; otherwise the frame timer runs, and the frame moves one step
    /// when the timer finishes.
    pub open spec fn advanced(self, delta_nanos: u64) -> Self {
        if self.finished() {
            self
        } else {
            let clip = self.current();
            let step = timer_finishes(clip.frame_duration_nanos, self.frame_elapsed_nanos, delta_nanos);
            SpritesheetAnimationCollection {
                current_frame_index: (self.current_frame_index + if step {
                    1int
                } else {
                    0int
                }) as usize,
                frame_elapsed_nanos: timer_elapsed_after(
                    clip.frame_duration_nanos,
                    self.frame_elapsed_nanos,
                    delta_nanos,
                ) as u64,
                ..self
            }
        }
    }

    /// The frame to show, unless the playing clip has run past its last frame.
    pub open spec fn shown_frame(&self) -> Option<usize> {
        if self.current_frame_index <= self.current().bounds.last_frame_index {
            Some(self.current_frame_index)
        } else {
            None
        }
    }

    /// Advances the playing clip by `delta_nanos` of time, as `advanced` says.
    /// Returns the frame to show, `None` if the clip had already finished or
    /// has just run past its last frame.
    pub fn advance(&mut self, delta_nanos: u64) -> (r: Option<usize>)
        requires
            old(self).wf(),
        ensures
            final(self).wf(),
            *final(self) == old(self).advanced(delta_nanos),
            r == (if old(self).finished() {
                None::<usize>
            } else {
                final(self).shown_frame()
            }),
    {
        if self.is_current_animation_finished() {
            return None;
        }
        let clip = *self.current_spritesheet_animation();
        let (elapsed, step) = tick_repeating_timer(clip.frame_duration_nanos, self.frame_elapsed_nanos, delta_nanos);
        self.frame_elapsed_nanos = elapsed;
        if step {
            self.current_frame_index = self.current_frame_index + 1;
        }
        if self.current_frame_index <= clip.bounds.last_frame_index {
            Some(self.current_frame_index)
        } else {
            None
        }
    }
}

impl AnimationCollection for SpritesheetAnimationCollection {
    /// At least one clip, valid bounds, a valid playing clip, and a frame from
    /// its first frame up to one past its last.
    open spec fn wf(&self) -> bool {
        &&& self.animations@.len() > 0
        &&& forall|i: int| 0 <= i < self.animations@.len() ==> (#[trigger] self.animations@[i]).bounds.valid()
        &&& self.current_animation_index < self.animations@.len()
        &&& self.current().bounds.first_frame_index <= self.current_frame_index
        &&& self.current_frame_index <= self.current().bounds.last_frame_index + 1
    }

    open spec fn animation_count(&self) -> nat {
        self.animations@.len()
    }

    open spec fn current_animation(&self) -> nat {
        self.current_animation_index as nat
    }

    open spec fn finished(&self) -> bool {
        self.current_frame_index == self.current().bounds.last_frame_index + 1
    }

    open spec fn at_start(&self) -> bool {
        &&& self.current_frame_index == self.current().bounds.first_frame_index
        &&& self.frame_elapsed_nanos == 0
    }

    fn transition(&mut self, animation_index: usize) {
        self.current_animation_index = animation_index;
        self.current_frame_index = self.animations[animation_index].bounds.first_frame_index;
        self.frame_elapsed_nanos = 0;
    }

    fn animation_num(&self) -> (r: usize) {
        self.animations.len()
    }

    fn is_current_animation_finished(&self) -> (r: bool) {
        self.current_frame_index == self.current_spritesheet_animation().bounds.last_frame_index + 1
    }
}

} // verus!
