//! Frame selection for the sprite sheet of a moving body.

use vstd::prelude::*;
use crate::movement::MovementController;
use crate::timer::{Timer, TimerMode};

verus! {

/// Number of idle frames.
pub const IDLE_FRAMES: usize = 1;

/// Number of walking frames.
pub const WALKING_FRAMES: usize = 4;

/// Number of gliding frames.
pub const GLIDING_FRAMES: usize = 1;

/// Time that each walking frame is shown, in nanoseconds.
pub const WALKING_INTERVAL: u64 = 50_000_000;

/// What a body is shown doing.
#[derive(Clone, Copy, PartialEq, Eq, Debug, Structural)]
pub enum MovementAnimationState {
    Idling,
    Walking,
    Gliding,
}

/// Animation state of a body, bound to the layout of its sprite sheet.
#[derive(Clone, Copy, PartialEq, Eq, Debug, Structural)]
pub struct MovementAnimation {
    pub timer: Timer,
    pub frame: usize,
    pub state: MovementAnimationState,
}

/// Number of frames that a state cycles through.
pub open spec fn frame_count(state: MovementAnimationState) -> int {
    match state {
        MovementAnimationState::Idling => IDLE_FRAMES as int,
        MovementAnimationState::Walking => WALKING_FRAMES as int,
        MovementAnimationState::Gliding => GLIDING_FRAMES as int,
    }
}

/// Time that each frame of a state is shown; zero for the single-frame
/// states, whose timer therefore finishes on every tick.
pub open spec fn frame_interval(state: MovementAnimationState) -> u64 {
    match state {
        MovementAnimationState::Walking => WALKING_INTERVAL,
        _ => 0,
    }
}

/// The state that a controller calls for: gliding while it glides, walking
/// while it is on the ground with a horizontal intent, idling otherwise.
pub open spec fn state_for(controller: MovementController) -> MovementAnimationState {
    if controller.gliding {
        MovementAnimationState::Gliding
    } else if controller.horizontal == 0 || !controller.grounded {
        MovementAnimationState::Idling
    } else {
        MovementAnimationState::Walking
    }
}

impl MovementAnimation {
    /// The frame is one of the frames of the state.
    pub open spec fn wf(self) -> bool {
        0 <= self.frame < frame_count(self.state)
    }

    /// The animation at the start of `state`.
    pub open spec fn starting(state: MovementAnimationState) -> MovementAnimation {
        MovementAnimation {
            timer: Timer::fresh(frame_interval(state), TimerMode::Repeating),
            frame: 0,
            state,
        }
    }

    /// The animation after its timer has been ticked by `delta`: the frame
    /// moves on, cyclically, if the tick finished the timer.
    pub open spec fn after_tick(self, delta: u64) -> MovementAnimation {
        let timer = self.timer.ticked(delta);
        MovementAnimation {
            timer,
            frame: if timer.finished {
                ((self.frame + 1) % frame_count(self.state)) as usize
            } else {
                self.frame
            },
            state: self.state,
        }
    }

    /// The animation once `state` is called for: unchanged if it is already
    /// in that state, restarted in the new state otherwise.
    pub open spec fn switched(self, state: MovementAnimationState) -> MovementAnimation {
        if self.state == state {
            self
        } else {
            MovementAnimation::starting(state)
        }
    }

    /// Index of the current frame in the sprite sheet.
    pub open spec fn atlas_index(self) -> int {
        match self.state {
            MovementAnimationState::Idling => 0,
            MovementAnimationState::Walking => 4 + self.frame,
            MovementAnimationState::Gliding => 8,
        }
    }

    /// Tests `wf`.
    pub fn check_wf(&self) -> (r: bool)
        ensures
            r == self.wf(),
    {
        match self.state {
            MovementAnimationState::Idling => self.frame < IDLE_FRAMES,
            MovementAnimationState::Walking => self.frame < WALKING_FRAMES,
            MovementAnimationState::Gliding => self.frame < GLIDING_FRAMES,
        }
    }

    fn idling() -> (a: MovementAnimation)
        ensures
            a == MovementAnimation::starting(MovementAnimationState::Idling),
    {
        MovementAnimation {
            timer: Timer::new(0, TimerMode::Repeating),
            frame: 0,
            state: MovementAnimationState::Idling,
        }
    }

    fn walking() -> (a: MovementAnimation)
        ensures
            a == MovementAnimation::starting(MovementAnimationState::Walking),
    {
        MovementAnimation {
            timer: Timer::new(WALKING_INTERVAL, TimerMode::Repeating),
            frame: 0,
            state: MovementAnimationState::Walking,
        }
    }

    fn gliding() -> (a: MovementAnimation)
        ensures
            a == MovementAnimation::starting(MovementAnimationState::Gliding),
    {
        MovementAnimation {
            timer: Timer::new(0, TimerMode::Repeating),
            frame: 0,
            state: MovementAnimationState::Gliding,
        }
    }

    /// An idling animation.
    pub fn new() -> (a: MovementAnimation)
        ensures
            a == MovementAnimation::starting(MovementAnimationState::Idling),
            a.wf(),
    {
        Self::idling()
    }

    /// Ticks the animation timer and moves to the next frame when it
    /// finishes.
    pub fn update_timer(&mut self, delta: u64)
        requires
            old(self).wf(),
        ensures
            *final(self) == old(self).after_tick(delta),
            final(self).wf(),
    {
        self.timer.tick(delta);
        if !self.timer.is_finished() {
            return ;
        }
        let frames: usize = match self.state {
            MovementAnimationState::Idling => IDLE_FRAMES,
            MovementAnimationState::Walking => WALKING_FRAMES,
            MovementAnimationState::Gliding => GLIDING_FRAMES,
        };
        self.frame = (self.frame + 1) % frames;
    }

    /// Restarts the animation in `state` unless it is in that state already.
    pub fn update_state(&mut self, state: MovementAnimationState)
        requires
            old(self).wf(),
        ensures
            *final(self) == old(self).switched(state),
            final(self).wf(),
    {
        if self.state != state {
            match state {
                MovementAnimationState::Idling => {
                    *self = Self::idling();
                },
                MovementAnimationState::Walking => {
                    *self = Self::walking();
                },
                MovementAnimationState::Gliding => {
                    *self = Self::gliding();
                },
            }
        }
    }

    /// Whether the animation moved on during the last tick.
    pub fn changed(&self) -> (r: bool)
        ensures
            r == self.timer.finished,
    {
        self.timer.is_finished()
    }

    /// Index of the current frame in the sprite sheet.
    pub fn get_atlas_index(&self) -> (index: usize)
        requires
            self.wf(),
        ensures
            index == self.atlas_index(),
    {
        match self.state {
            MovementAnimationState::Idling => 0,
            MovementAnimationState::Walking => 4 + self.frame,
            MovementAnimationState::Gliding => 8,
        }
    }

    /// Whether a step is to be heard now: the body is the player, it walks,
    /// and its animation has just come round to the first frame.
    pub fn step_sound_due(&self, is_player: bool) -> (due: bool)
        ensures
            due == (self.state == MovementAnimationState::Walking && is_player
                && self.timer.finished && self.frame == 0),
    {
        self.state == MovementAnimationState::Walking && is_player && self.changed() && self.frame
            == 0
    }
}

/// Brings an animation in line with its controller. The result tells whether
/// the sprite is to be mirrored: it is when the body faces left.
pub fn update_animation_movement(
    controller: &MovementController,
    animation: &mut MovementAnimation,
) -> (flip_x: bool)
    requires
        old(animation).wf(),
    ensures
        flip_x == !controller.facing_right,
        *final(animation) == old(animation).switched(state_for(*controller)),
        final(animation).wf(),
{
    let state = if controller.gliding {
        MovementAnimationState::Gliding
    } else if controller.horizontal == 0 || !controller.grounded {
        MovementAnimationState::Idling
    } else {
        MovementAnimationState::Walking
    };
    animation.update_state(state);
    !controller.facing_right
}

/// Writes the current frame to the index of a sprite sheet, if the animation
/// moved on during the last tick.
pub fn update_animation_atlas(animation: &MovementAnimation, index: &mut usize)
    requires
        animation.wf(),
    ensures
        *final(index) == if animation.timer.finished {
            animation.atlas_index()
        } else {
            *old(index) as int
        },
{
    if animation.changed() {
        *index = animation.get_atlas_index();
    }
}

} // verus!
