//! How another player's duck looks: its tint, read from the color name that the
//! server sends, and its sprite animation. The host owns the frame timer and
//! the sprite sheet; it tells the animation when the timer finished a period.
use vstd::prelude::*;
use crate::text::same_text;

verus! {

/// The tint of a duck.
#[derive(Clone, Copy, Debug, PartialEq, Eq, Structural)]
pub enum DuckColor {
    Blue,
    Red,
    Green,
    White,
}

/// The tint that a color name gives: white for any name it does not know.
pub open spec fn duck_color_of(name: Seq<char>) -> DuckColor {
    if name == "blue"@ {
        DuckColor::Blue
    } else if name == "red"@ {
        DuckColor::Red
    } else if name == "green"@ {
        DuckColor::Green
    } else {
        DuckColor::White
    }
}

/// Reads the tint of a duck from its color name.
pub fn unpack_duck_color(color: &str) -> (r: DuckColor)
    ensures
        r == duck_color_of(color@),
{
    if same_text(color, "blue") {
        DuckColor::Blue
    } else if same_text(color, "red") {
        DuckColor::Red
    } else if same_text(color, "green") {
        DuckColor::Green
    } else {
        DuckColor::White
    }
}

/// Whether a duck stands or walks.
#[derive(Clone, Copy, Debug, PartialEq, Eq, Structural)]
pub enum OtherPlayerAnimationState {
    Idling,
    Walking,
}

/// The number of idle frames.
pub const IDLE_FRAMES: usize = 2;
/// The length of each idle frame, in milliseconds.
pub const IDLE_INTERVAL_MS: u64 = 500;
/// The number of walking frames.
pub const WALKING_FRAMES: usize = 6;
/// The length of each walking frame, in milliseconds.
pub const WALKING_INTERVAL_MS: u64 = 50;

/// The number of frames of a state's animation.
pub open spec fn frame_count(s: OtherPlayerAnimationState) -> nat {
    match s {
        OtherPlayerAnimationState::Idling => IDLE_FRAMES as nat,
        OtherPlayerAnimationState::Walking => WALKING_FRAMES as nat,
    }
}

/// The sprite animation of another player's duck.
pub struct OtherPlayerAnimation {
    frame: usize,
    state: OtherPlayerAnimationState,
    changed: bool,
}

impl OtherPlayerAnimation {
    /// The frame shown.
    pub closed spec fn spec_frame(&self) -> nat {
        self.frame as nat
    }

    /// The state animated.
    pub closed spec fn spec_state(&self) -> OtherPlayerAnimationState {
        self.state
    }

    /// Whether the frame changed on the last tick.
    pub closed spec fn spec_changed(&self) -> bool {
        self.changed
    }

    /// The frame is one of the state's frames.
    pub open spec fn wf(&self) -> bool {
        self.spec_frame() < frame_count(self.spec_state())
    }

    /// The first frame of a state, with a timer that has not run yet.
    pub fn starting(state: OtherPlayerAnimationState) -> (r: OtherPlayerAnimation)
        ensures
            r.wf(),
            r.spec_frame() == 0,
            r.spec_state() == state,
            !r.spec_changed(),
    {
        OtherPlayerAnimation { frame: 0, state, changed: false }
    }

    /// A duck that stands.
    pub fn new() -> (r: OtherPlayerAnimation)
        ensures
            r.wf(),
            r.spec_frame() == 0,
            r.spec_state() == OtherPlayerAnimationState::Idling,
            !r.spec_changed(),
    {
        OtherPlayerAnimation::starting(OtherPlayerAnimationState::Idling)
    }

    /// The length of a frame of the current state, in milliseconds: the period
    /// of the host's repeating timer.
    pub fn interval_ms(&self) -> (r: u64)
        ensures
            r == match self.spec_state() {
                OtherPlayerAnimationState::Idling => IDLE_INTERVAL_MS,
                OtherPlayerAnimationState::Walking => WALKING_INTERVAL_MS,
            },
    {
        match self.state {
            OtherPlayerAnimationState::Idling => IDLE_INTERVAL_MS,
            OtherPlayerAnimationState::Walking => WALKING_INTERVAL_MS,
        }
    }

    /// One tick of the host's timer: where it finished a period, the next frame
    /// of the state shows, wrapping round to the first.
    pub fn update_timer(&mut self, finished: bool)
        requires
            old(self).wf(),
        ensures
            final(self).wf(),
            final(self).spec_state() == old(self).spec_state(),
            final(self).spec_changed() == finished,
            final(self).spec_frame() == if finished {
                (old(self).spec_frame() + 1) % frame_count(old(self).spec_state())
            } else {
                old(self).spec_frame()
            },
    {
        self.changed = finished;
        if finished {
            let n = match self.state {
                OtherPlayerAnimationState::Idling => IDLE_FRAMES,
                OtherPlayerAnimationState::Walking => WALKING_FRAMES,
            };
            self.frame = (self.frame + 1) % n;
        }
    }

    /// Switches to another state, from its first frame; the same state leaves
    /// the animation as it is.
    pub fn update_state(&mut self, state: OtherPlayerAnimationState)
        requires
            old(self).wf(),
        ensures
            final(self).wf(),
            old(self).spec_state() == state ==> *final(self) == *old(self),
            old(self).spec_state() != state ==> final(self).spec_state() == state
                && final(self).spec_frame() == 0 && !final(self).spec_changed(),
    {
        if self.state != state {
            *self = OtherPlayerAnimation::starting(state);
        }
    }

    /// Whether the frame changed on the last tick.
    pub fn changed(&self) -> (r: bool)
        ensures
            r == self.spec_changed(),
    {
        self.changed
    }

    /// The index of the frame shown in the sprite sheet, whose first row holds
    /// the idle frames and whose second row, from index six, the walking ones.
    pub fn get_atlas_index(&self) -> (r: usize)
        requires
            self.wf(),
        ensures
            r == match self.spec_state() {
                OtherPlayerAnimationState::Idling => self.spec_frame(),
                OtherPlayerAnimationState::Walking => 6 + self.spec_frame(),
            },
    {
        match self.state {
            OtherPlayerAnimationState::Idling => self.frame,
            OtherPlayerAnimationState::Walking => 6 + self.frame,
        }
    }

    /// Whether a step sound plays on this tick: a walking duck puts a foot down
    /// as the third or the sixth frame shows.
    pub fn plays_step_sound(&self) -> (r: bool)
        ensures
            r == (self.spec_state() == OtherPlayerAnimationState::Walking && self.spec_changed()
                && (self.spec_frame() == 2 || self.spec_frame() == 5)),
    {
        self.state == OtherPlayerAnimationState::Walking && self.changed && (self.frame == 2 || self.frame == 5)
    }
}

} // verus!
