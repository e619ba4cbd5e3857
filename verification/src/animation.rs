//! The animation driver: picks the sprite frame for each tick and ends the
//! cast when its cooldown runs out.
//!
//! Three states, by priority: casting, walking, idle. The driver is the only
//! writer of the frame index and the only place where the casting flag is
//! cleared.

use crate::character::CharacterState;
use crate::timer::Cooldown;
use crate::timer::FrameTimer;
use crate::timer::HALF_SECOND_NANOS;
use vstd::prelude::*;

verus! {

/// Frame shown while the character stands.
pub const IDLE_FRAME: usize = 0;

/// Frame shown when a cast begins.
pub const ATTACK_FRAME: usize = 2;

/// An endless walk through the frames `first..=last`, which starts over at
/// `first` after `last`.
#[derive(Clone, Copy, Debug, PartialEq, Eq, Structural)]
pub struct WalkCycle {
    /// First frame of the cycle.
    pub first: usize,
    /// Last frame of the cycle.
    pub last: usize,
    /// The frame that the next step yields.
    pub upcoming: usize,
}

impl WalkCycle {
    /// The upcoming frame lies within the cycle.
    pub open spec fn wf(self) -> bool {
        self.first <= self.upcoming <= self.last
    }

    /// The cycle one step further.
    pub open spec fn advanced(self) -> WalkCycle {
        WalkCycle {
            first: self.first,
            last: self.last,
            upcoming: if self.upcoming >= self.last {
                self.first
            } else {
                (self.upcoming + 1) as usize
            },
        }
    }

    /// The cycle `steps` steps further.
    pub open spec fn advanced_by(self, steps: nat) -> WalkCycle
        decreases steps,
    {
        if steps == 0 {
            self
        } else {
            self.advanced().advanced_by((steps - 1) as nat)
        }
    }

    /// The frame that the step after `steps` steps yields; `nth(0)` is what
    /// the next step yields.
    pub open spec fn nth(self, steps: nat) -> usize {
        self.advanced_by(steps).upcoming
    }

    /// The character's walk: frames 0 and 1 in turn. Frame 0 is on display
    /// when the character appears, so the first step yields 1.
    pub open spec fn walk() -> WalkCycle {
        WalkCycle { first: 0, last: 1, upcoming: 1 }
    }

    /// A cycle through `first..=last`, about to yield `first`.
    pub fn new(first: usize, last: usize) -> (cycle: WalkCycle)
        requires
            first <= last,
        ensures
            cycle == (WalkCycle { first, last, upcoming: first }),
            cycle.wf(),
    {
        WalkCycle { first, last, upcoming: first }
    }

    /// The character's walk cycle.
    pub fn walking() -> (cycle: WalkCycle)
        ensures
            cycle == WalkCycle::walk(),
            cycle.wf(),
    {
        let mut cycle = WalkCycle::new(0, 1);
        cycle.next();
        cycle
    }

    /// Yields the upcoming frame and steps on.
    pub fn next(&mut self) -> (frame: usize)
        ensures
            frame == old(self).upcoming,
            *final(self) == old(self).advanced(),
            old(self).wf() ==> final(self).wf(),
    {
        let frame = self.upcoming;
        if self.upcoming >= self.last {
            self.upcoming = self.first;
        } else {
            self.upcoming = self.upcoming + 1;
        }
        frame
    }

    /// Walk cycle sequencing: counted from the character's appearance, the
    /// steps of the walk yield 1, 0, 1, 0 and so on without end.
    pub proof fn lemma_walk_alternates(steps: nat)
        ensures
            WalkCycle::walk().nth(steps) == (steps + 1) % 2,
            WalkCycle::walk().advanced_by(steps).first == 0,
            WalkCycle::walk().advanced_by(steps).last == 1,
    {
        Self::lemma_two_frame_cycle(WalkCycle::walk(), steps);
    }

    /// A cycle through frames 0 and 1 flips its upcoming frame at each step.
    proof fn lemma_two_frame_cycle(cycle: WalkCycle, steps: nat)
        requires
            cycle.first == 0,
            cycle.last == 1,
            cycle.upcoming <= 1,
        ensures
            cycle.advanced_by(steps).first == 0,
            cycle.advanced_by(steps).last == 1,
            cycle.advanced_by(steps).upcoming == (cycle.upcoming + steps) % 2,
        decreases steps,
    {
        if steps > 0 {
            Self::lemma_two_frame_cycle(cycle.advanced(), (steps - 1) as nat);
        }
    }

    /// Stepping once more after `steps` steps is the same as stepping once
    /// and then `steps` times.
    pub proof fn lemma_advanced_by_succ(self, steps: nat)
        ensures
            self.advanced_by(steps + 1) == self.advanced_by(steps).advanced(),
        decreases steps,
    {
        assert(self.advanced_by(steps + 1) == self.advanced().advanced_by(steps));
        if steps > 0 {
            self.advanced().lemma_advanced_by_succ((steps - 1) as nat);
            assert(self.advanced_by(steps) == self.advanced().advanced_by((steps - 1) as nat));
        } else {
            assert(self.advanced().advanced_by(0) == self.advanced());
        }
    }
}

/// The walk animation: a cycle of frames and the timer that paces it.
#[derive(Clone, Copy, Debug, PartialEq, Eq, Structural)]
pub struct RepeatingAnimation {
    /// The frames still to come.
    pub next_frame_index: WalkCycle,
    /// Time since the frame last changed, against the length of a frame.
    pub frame_timer: FrameTimer,
}

impl RepeatingAnimation {
    /// The walk animation of a character that has just appeared: the walk
    /// cycle, paced at half a second per frame.
    pub open spec fn initial() -> RepeatingAnimation {
        RepeatingAnimation {
            next_frame_index: WalkCycle::walk(),
            frame_timer: FrameTimer { period: HALF_SECOND_NANOS, elapsed: 0 },
        }
    }

    /// The walk animation of a character that has just appeared.
    pub fn new() -> (animation: RepeatingAnimation)
        ensures
            animation == RepeatingAnimation::initial(),
    {
        RepeatingAnimation {
            next_frame_index: WalkCycle::walking(),
            frame_timer: FrameTimer::new(HALF_SECOND_NANOS),
        }
    }
}

/// The character's flags and cooldown after the animation driver has run for
/// a tick of `delta` nanoseconds. Only a cast changes them: its cooldown
/// advances, and where that ends the cooldown the cast is over and the
/// cooldown starts afresh.
pub open spec fn mage_after_animation(mage: CharacterState, delta: u64) -> CharacterState {
    if !mage.is_casting {
        mage
    } else if mage.cooldown.finishes_within(delta) {
        CharacterState {
            is_casting: false,
            is_walking: mage.is_walking,
            cooldown: Cooldown { duration: mage.cooldown.duration, elapsed: 0 },
        }
    } else {
        CharacterState {
            is_casting: true,
            is_walking: mage.is_walking,
            cooldown: mage.cooldown.after_tick(delta),
        }
    }
}

/// Whether the animation driver steps the walk cycle on a tick of `delta`
/// nanoseconds: the character walks, does not cast, and the frame timer
/// completes a period.
pub open spec fn walk_steps(mage: CharacterState, walk: RepeatingAnimation, delta: u64) -> bool {
    !mage.is_casting && mage.is_walking && walk.frame_timer.fires_within(delta)
}

/// The walk animation after the animation driver has run. It is touched only
/// while the character walks and does not cast: then the frame timer
/// advances, and the cycle steps where the timer completes a period.
pub open spec fn walk_after_animation(
    mage: CharacterState,
    walk: RepeatingAnimation,
    delta: u64,
) -> RepeatingAnimation {
    if mage.is_casting || !mage.is_walking {
        walk
    } else {
        RepeatingAnimation {
            next_frame_index: if walk_steps(mage, walk, delta) {
                walk.next_frame_index.advanced()
            } else {
                walk.next_frame_index
            },
            frame_timer: walk.frame_timer.after_tick(delta),
        }
    }
}

/// The frame on display after the animation driver has run.
///
/// Casting: the idle frame on the tick that ends the cooldown; before that,
/// the attack frame if the cooldown had not started yet, else the frame that
/// was showing. Walking: the cycle's upcoming frame where the walk steps.
/// Otherwise the frame that was showing.
pub open spec fn frame_after_animation(
    mage: CharacterState,
    walk: RepeatingAnimation,
    frame: usize,
    delta: u64,
) -> usize {
    if mage.is_casting {
        if mage.cooldown.finishes_within(delta) {
            IDLE_FRAME
        } else if mage.cooldown.elapsed == 0 {
            ATTACK_FRAME
        } else {
            frame
        }
    } else if walk_steps(mage, walk, delta) {
        walk.next_frame_index.upcoming
    } else {
        frame
    }
}

/// The animation driver, run once per tick after movement.
///
/// While casting: shows the attack frame if the cooldown has not started,
/// then advances the cooldown by `delta` nanoseconds; if that ends it, clears
/// the casting flag, resets the cooldown and shows the idle frame. Else, while
/// walking: advances the frame timer and, on each completed period, shows the
/// next frame of the walk cycle. Else: leaves everything as it is.
pub fn animate_mage(
    mage: &mut CharacterState,
    walking_animation: &mut RepeatingAnimation,
    sprite_index: &mut usize,
    delta: u64,
)
    ensures
        *final(mage) == mage_after_animation(*old(mage), delta),
        *final(walking_animation) == walk_after_animation(
            *old(mage),
            *old(walking_animation),
            delta,
        ),
        *final(sprite_index) == frame_after_animation(
            *old(mage),
            *old(walking_animation),
            *old(sprite_index),
            delta,
        ),
        old(walking_animation).next_frame_index.wf()
            ==> final(walking_animation).next_frame_index.wf(),
{
    if mage.is_casting {
        if mage.cooldown.is_fresh() {
            *sprite_index = ATTACK_FRAME;
        }
        let just_finished = mage.cooldown.tick(delta);
        if just_finished {
            mage.is_casting = false;
            mage.cooldown.reset();
            *sprite_index = IDLE_FRAME;
        }
    } else if mage.is_walking {
        let just_finished = walking_animation.frame_timer.tick(delta);
        if just_finished {
            *sprite_index = walking_animation.next_frame_index.next();
        }
    }
}

/// The walk animation and the frame on display after the animation driver
/// has run once per entry of `deltas` for a character in state `mage`.
pub open spec fn animated(
    mage: CharacterState,
    walk: RepeatingAnimation,
    frame: usize,
    deltas: Seq<u64>,
) -> (RepeatingAnimation, usize)
    decreases deltas.len(),
{
    if deltas.len() == 0 {
        (walk, frame)
    } else {
        let (before, shown) = animated(mage, walk, frame, deltas.drop_last());
        (
            walk_after_animation(mage, before, deltas.last()),
            frame_after_animation(mage, before, shown, deltas.last()),
        )
    }
}

/// On how many of the ticks in `deltas` the walk of a character in state
/// `mage` steps.
pub open spec fn walk_completions(
    mage: CharacterState,
    walk: RepeatingAnimation,
    deltas: Seq<u64>,
) -> nat
    decreases deltas.len(),
{
    if deltas.len() == 0 {
        0
    } else {
        let before = animated(mage, walk, 0, deltas.drop_last()).0;
        let earlier = walk_completions(mage, walk, deltas.drop_last());
        if walk_steps(mage, before, deltas.last()) {
            earlier + 1
        } else {
            earlier
        }
    }
}

/// Walk frames: for a character that walks and does not cast, starting with
/// the walk cycle as it is when the character appears, the frames shown at
/// the completions of the frame timer are 1, 0, 1, 0 and so on. After any
/// ticks the frame on display is 1 after an odd number of completions and 0
/// after an even number; before the first completion it is the frame that was
/// showing at the start.
pub proof fn lemma_walk_frames(
    mage: CharacterState,
    walk: RepeatingAnimation,
    frame: usize,
    deltas: Seq<u64>,
)
    requires
        !mage.is_casting,
        mage.is_walking,
        walk.next_frame_index == WalkCycle::walk(),
    ensures
        animated(mage, walk, frame, deltas).0.next_frame_index == WalkCycle::walk().advanced_by(
            walk_completions(mage, walk, deltas),
        ),
        walk_completions(mage, walk, deltas) == 0 ==> animated(mage, walk, frame, deltas).1
            == frame,
        walk_completions(mage, walk, deltas) > 0 ==> animated(mage, walk, frame, deltas).1
            == walk_completions(mage, walk, deltas) % 2,
    decreases deltas.len(),
{
    if deltas.len() > 0 {
        let earlier = deltas.drop_last();
        let count = walk_completions(mage, walk, earlier);
        lemma_walk_frames(mage, walk, frame, earlier);
        lemma_animated_walk(mage, walk, frame, 0, earlier);
        WalkCycle::walk().lemma_advanced_by_succ(count);
        WalkCycle::lemma_walk_alternates(count);
    }
}

/// The walk animation does not depend on the frame on display.
proof fn lemma_animated_walk(
    mage: CharacterState,
    walk: RepeatingAnimation,
    frame: usize,
    other: usize,
    deltas: Seq<u64>,
)
    ensures
        animated(mage, walk, frame, deltas).0 == animated(mage, walk, other, deltas).0,
    decreases deltas.len(),
{
    if deltas.len() > 0 {
        lemma_animated_walk(mage, walk, frame, other, deltas.drop_last());
    }
}

} // verus!
