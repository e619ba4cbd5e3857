//! The character's own flags, the ability trigger and the movement resolver.
//!
//! `use_spell` latches the casting flag on the press-edge of the blast
//! launch; only the animation driver clears it again. `movement` turns the
//! directional actions into a velocity, and into the walking flag that the
//! animation driver reads afterwards.

use crate::actions::AbilityId;
use crate::actions::LogicalAction;
use crate::state::AbilityTemporalState;
use crate::state::ActionRecord;
use crate::state::ActionTemporalState;
use crate::timer::Cooldown;
use crate::timer::HALF_SECOND_NANOS;
use vstd::prelude::*;

verus! {

/// Speed along one axis while a direction is held.
pub const WALK_SPEED: i32 = 10;

/// Velocity handed to whatever moves the character's body.
#[derive(Clone, Copy, Debug, PartialEq, Eq, Structural)]
pub struct Velocity {
    pub x: i32,
    pub y: i32,
}

impl Velocity {
    /// Standing still.
    pub open spec fn zero() -> Velocity {
        Velocity { x: 0, y: 0 }
    }

    /// Standing still.
    pub fn resting() -> (velocity: Velocity)
        ensures
            velocity == Velocity::zero(),
    {
        Velocity { x: 0, y: 0 }
    }
}

/// The flags that say what the character is doing, and the cast cooldown.
#[derive(Clone, Copy, Debug, PartialEq, Eq, Structural)]
pub struct CharacterState {
    /// A cast is under way; set on the press-edge of the blast launch and
    /// cleared when the cooldown runs out.
    pub is_casting: bool,
    /// A direction was held when movement was last resolved.
    pub is_walking: bool,
    /// Time since the cast began, against the length of a cast.
    pub cooldown: Cooldown,
}

/// Speed along one axis, given which of its two directions are held. The
/// positive direction is looked at first and the negative one last, so the
/// negative one wins when both are held.
pub open spec fn axis_speed(positive: bool, negative: bool) -> i32 {
    if negative {
        (-WALK_SPEED) as i32
    } else if positive {
        WALK_SPEED
    } else {
        0
    }
}

/// Whether any of the four directions is held.
pub open spec fn direction_held(actions: Map<LogicalAction, ActionRecord>) -> bool {
    ||| actions[LogicalAction::Right].pressed
    ||| actions[LogicalAction::Left].pressed
    ||| actions[LogicalAction::Up].pressed
    ||| actions[LogicalAction::Down].pressed
}

/// The velocity that the held directions ask for, unless a cast forbids
/// moving.
pub open spec fn resolved_velocity(
    actions: Map<LogicalAction, ActionRecord>,
    is_casting: bool,
) -> Velocity {
    if is_casting {
        Velocity::zero()
    } else {
        Velocity {
            x: axis_speed(
                actions[LogicalAction::Right].pressed,
                actions[LogicalAction::Left].pressed,
            ),
            y: axis_speed(actions[LogicalAction::Up].pressed, actions[LogicalAction::Down].pressed),
        }
    }
}

impl CharacterState {
    /// The state of a character that has just appeared: idle, with a fresh
    /// cooldown of half a second.
    pub open spec fn initial() -> CharacterState {
        CharacterState {
            is_casting: false,
            is_walking: false,
            cooldown: Cooldown { duration: HALF_SECOND_NANOS, elapsed: 0 },
        }
    }

    /// The state after the ability trigger has looked at the ability table.
    pub open spec fn after_trigger(
        self,
        abilities: Map<AbilityId, ActionRecord>,
    ) -> CharacterState {
        CharacterState {
            is_casting: self.is_casting || abilities[AbilityId::BlastLaunch].just_pressed,
            is_walking: self.is_walking,
            cooldown: self.cooldown,
        }
    }

    /// The state after movement has been resolved against the action table.
    pub open spec fn after_movement(
        self,
        actions: Map<LogicalAction, ActionRecord>,
    ) -> CharacterState {
        CharacterState {
            is_casting: self.is_casting,
            is_walking: !self.is_casting && direction_held(actions),
            cooldown: self.cooldown,
        }
    }

    /// The state of a character that has just appeared.
    pub fn new() -> (state: CharacterState)
        ensures
            state == CharacterState::initial(),
    {
        CharacterState {
            is_casting: false,
            is_walking: false,
            cooldown: Cooldown::new(HALF_SECOND_NANOS),
        }
    }
}

/// The ability trigger: begins a cast on the press-edge of the blast launch.
///
/// The flag is a latch. A press-edge while a cast is under way changes
/// nothing, and nothing here ever touches the cooldown or clears the flag.
/// The blast activation has no effect on the character.
pub fn use_spell(abilities: &AbilityTemporalState, mage: &mut CharacterState)
    ensures
        *final(mage) == old(mage).after_trigger(abilities@),
        old(mage).is_casting ==> *final(mage) == *old(mage),
        final(mage).cooldown == old(mage).cooldown,
{
    if abilities.just_pressed(AbilityId::BlastLaunch) {
        mage.is_casting = true;
    }
}

/// The movement resolver: the velocity for this tick, from the directions
/// held.
///
/// Nothing carries over from the tick before. The walking flag is cleared
/// first. During a cast that is all: the character stands still whatever is
/// held. Otherwise each held direction sets its axis to the walking speed and
/// raises the walking flag; of two opposite directions the negative one (left,
/// down) wins. Axes are independent, so a diagonal is faster than a straight
/// line.
pub fn movement(actions: &ActionTemporalState, mage: &mut CharacterState) -> (velocity: Velocity)
    ensures
        velocity == resolved_velocity(actions@, old(mage).is_casting),
        *final(mage) == old(mage).after_movement(actions@),
        old(mage).is_casting ==> velocity == Velocity::zero() && !final(mage).is_walking,
        !old(mage).is_casting && actions@[LogicalAction::Left].pressed ==> velocity.x
            == -WALK_SPEED,
        !old(mage).is_casting && actions@[LogicalAction::Down].pressed ==> velocity.y
            == -WALK_SPEED,
{
    let mut velocity = Velocity { x: 0, y: 0 };
    mage.is_walking = false;
    if mage.is_casting {
        return velocity;
    }
    if actions.pressed(LogicalAction::Right) {
        velocity.x = WALK_SPEED;
        mage.is_walking = true;
    }
    if actions.pressed(LogicalAction::Left) {
        velocity.x = -WALK_SPEED;
        mage.is_walking = true;
    }
    if actions.pressed(LogicalAction::Up) {
        velocity.y = WALK_SPEED;
        mage.is_walking = true;
    }
    if actions.pressed(LogicalAction::Down) {
        velocity.y = -WALK_SPEED;
        mage.is_walking = true;
    }
    velocity
}

} // verus!
