//! The mage: everything the controller keeps for the one playable character,
//! and the pipeline that moves it on by one tick.
//!
//! A tick runs five stages in a fixed order: the input bindings update the
//! action table, the projector copies it into the ability table, the ability
//! trigger latches a cast, movement is resolved, and the animation driver
//! picks the frame. Each stage reads what the stages before it wrote on the
//! same tick.

use crate::actions::AbilityId;
use crate::actions::LogicalAction;
use crate::animation::animate_mage;
use crate::animation::frame_after_animation;
use crate::animation::mage_after_animation;
use crate::animation::walk_after_animation;
use crate::animation::RepeatingAnimation;
use crate::animation::IDLE_FRAME;
use crate::character::movement;
use crate::character::resolved_velocity;
use crate::character::use_spell;
use crate::character::CharacterState;
use crate::character::Velocity;
use crate::character::WALK_SPEED;
use crate::input::is_held;
use crate::input::update_action_state;
use crate::input::updated;
use crate::input::Key;
use crate::projection::copy_action_state;
use crate::projection::drives;
use crate::projection::lemma_projection_fidelity;
use crate::projection::projected;
use crate::slots::SlotMap;
use crate::state::AbilityTemporalState;
use crate::state::ActionTemporalState;
use vstd::prelude::*;

verus! {

/// The playable character as the controller sees it.
pub struct Mage {
    /// Which action drives which ability; fixed when the mage appears.
    pub spell_slot_map: SlotMap,
    /// Press state per logical action, written by the input bindings.
    pub slot_action_state: ActionTemporalState,
    /// Press state per ability, written by the projector.
    pub spell_action_state: AbilityTemporalState,
    /// Casting and walking flags and the cast cooldown.
    pub state: CharacterState,
    /// The walk cycle and its frame timer.
    pub walk_animation: RepeatingAnimation,
    /// Velocity for the body, written by the movement resolver on each tick.
    pub velocity: Velocity,
    /// Frame on display, written by the animation driver.
    pub sprite_index: usize,
}

/// The abilities whose press-edge fell on the tick just run, for whoever
/// wants to log them.
pub fn report_spells_used(spell_action_state: &AbilityTemporalState) -> (used: Vec<AbilityId>)
    ensures
        used@ == spell_action_state.just_pressed_abilities(),
{
    spell_action_state.get_just_pressed()
}

impl Mage {
    /// The character's flags after the ability trigger and the movement
    /// resolver have run on the current action table, as the animation driver
    /// finds them.
    pub open spec fn state_before_animation(self) -> CharacterState {
        self.state.after_trigger(
            projected(
                self.slot_action_state@,
                self.spell_slot_map@,
                self.spell_action_state@,
            )@,
        ).after_movement(self.slot_action_state@)
    }

    /// The mage after the stages that follow the input bindings: projection,
    /// ability trigger, movement, animation.
    pub open spec fn advanced(self, delta: u64) -> Mage {
        Mage {
            spell_slot_map: self.spell_slot_map,
            slot_action_state: self.slot_action_state,
            spell_action_state: projected(
                self.slot_action_state@,
                self.spell_slot_map@,
                self.spell_action_state@,
            ),
            state: mage_after_animation(self.state_before_animation(), delta),
            walk_animation: walk_after_animation(
                self.state_before_animation(),
                self.walk_animation,
                delta,
            ),
            velocity: resolved_velocity(
                self.slot_action_state@,
                self.state_before_animation().is_casting,
            ),
            sprite_index: frame_after_animation(
                self.state_before_animation(),
                self.walk_animation,
                self.sprite_index,
                delta,
            ),
        }
    }

    /// The mage after the input bindings have taken in the keys that are
    /// down.
    pub open spec fn with_input(self, keys_down: Seq<Key>, delta: u64) -> Mage {
        Mage {
            spell_slot_map: self.spell_slot_map,
            slot_action_state: updated(self.slot_action_state, keys_down, delta),
            spell_action_state: self.spell_action_state,
            state: self.state,
            walk_animation: self.walk_animation,
            velocity: self.velocity,
            sprite_index: self.sprite_index,
        }
    }

    /// The mage one whole tick later.
    pub open spec fn ticked(self, keys_down: Seq<Key>, delta: u64) -> Mage {
        self.with_input(keys_down, delta).advanced(delta)
    }

    /// The mage after one tick per entry of `inputs`, each of `delta`
    /// nanoseconds, with the keys of that entry down.
    pub open spec fn run(self, inputs: Seq<Seq<Key>>, delta: u64) -> Mage
        decreases inputs.len(),
    {
        if inputs.len() == 0 {
            self
        } else {
            self.run(inputs.drop_last(), delta).ticked(inputs.last(), delta)
        }
    }

    /// A mage that has just appeared: nothing held, nothing cast, standing
    /// still on the idle frame, with the standard slots, a half-second
    /// cooldown and a walk cycle of half a second per frame.
    pub fn new() -> (mage: Mage)
        ensures
            mage.spell_slot_map@ == SlotMap::standard_slots(),
            mage.slot_action_state == ActionTemporalState::idle(),
            mage.spell_action_state == AbilityTemporalState::idle(),
            mage.state == CharacterState::initial(),
            mage.walk_animation == RepeatingAnimation::initial(),
            mage.velocity == Velocity::zero(),
            mage.sprite_index == IDLE_FRAME,
    {
        Mage {
            spell_slot_map: SlotMap::standard(),
            slot_action_state: ActionTemporalState::new(),
            spell_action_state: AbilityTemporalState::new(),
            state: CharacterState::new(),
            walk_animation: RepeatingAnimation::new(),
            velocity: Velocity::resting(),
            sprite_index: IDLE_FRAME,
        }
    }

    /// Runs the stages that follow the input bindings, for an action table
    /// that has already been brought up to date for this tick. Returns the
    /// abilities whose press-edge fell on this tick.
    pub fn advance(&mut self, delta: u64) -> (used: Vec<AbilityId>)
        ensures
            *final(self) == old(self).advanced(delta),
            used@ == final(self).spell_action_state.just_pressed_abilities(),
            old(self).state.is_casting ==> final(self).velocity == Velocity::zero(),
    {
        copy_action_state(
            &self.slot_action_state,
            &mut self.spell_action_state,
            &self.spell_slot_map,
        );
        let used = report_spells_used(&self.spell_action_state);
        use_spell(&self.spell_action_state, &mut self.state);
        self.velocity = movement(&self.slot_action_state, &mut self.state);
        animate_mage(&mut self.state, &mut self.walk_animation, &mut self.sprite_index, delta);
        used
    }

    /// Runs one whole tick of `delta` nanoseconds with the given keys down.
    /// Returns the abilities whose press-edge fell on this tick.
    pub fn tick(&mut self, keys_down: &Vec<Key>, delta: u64) -> (used: Vec<AbilityId>)
        ensures
            *final(self) == old(self).ticked(keys_down@, delta),
            used@ == final(self).spell_action_state.just_pressed_abilities(),
            old(self).state.is_casting ==> final(self).velocity == Velocity::zero(),
    {
        update_action_state(&mut self.slot_action_state, keys_down, delta);
        self.advance(delta)
    }
}

/// Cast latch: while a cast is under way, what the keys do has no say in the
/// cast. Whatever is down on a tick, the casting flag and the cooldown come
/// out as the animation driver alone makes them, so a second press of the
/// blast launch neither restarts nor prolongs the cooldown.
pub proof fn lemma_cast_latch(mage: Mage, keys_down: Seq<Key>, delta: u64)
    requires
        mage.state.is_casting,
    ensures
        mage.ticked(keys_down, delta).state.is_casting == mage_after_animation(
            mage.state,
            delta,
        ).is_casting,
        mage.ticked(keys_down, delta).state.cooldown == mage_after_animation(
            mage.state,
            delta,
        ).cooldown,
{
}

/// Movement exclusivity: on a tick on which a cast is under way or begins,
/// the velocity is zero whatever directions are held.
pub proof fn lemma_casting_stands_still(mage: Mage, keys_down: Seq<Key>, delta: u64)
    requires
        mage.state.is_casting || mage.ticked(
            keys_down,
            delta,
        ).spell_action_state@[AbilityId::BlastLaunch].just_pressed,
    ensures
        mage.ticked(keys_down, delta).velocity == Velocity::zero(),
{
    let fed = mage.with_input(keys_down, delta);
    let abilities = projected(fed.slot_action_state@, fed.spell_slot_map@, fed.spell_action_state@);
    assert(abilities@[AbilityId::BlastLaunch] == abilities.blast_launch);
}

/// Axis cancellation: on a tick without a cast, two opposite directions held
/// together move the character in the negative one: left beats right, down
/// beats up.
pub proof fn lemma_axis_cancellation(mage: Mage, keys_down: Seq<Key>, delta: u64)
    requires
        !mage.with_input(keys_down, delta).state_before_animation().is_casting,
    ensures
        is_held(keys_down, LogicalAction::Left) ==> mage.ticked(keys_down, delta).velocity.x
            == -WALK_SPEED,
        is_held(keys_down, LogicalAction::Down) ==> mage.ticked(keys_down, delta).velocity.y
            == -WALK_SPEED,
{
    let fed = mage.with_input(keys_down, delta);
    assert(fed.slot_action_state@[LogicalAction::Left] == fed.slot_action_state.left);
    assert(fed.slot_action_state@[LogicalAction::Down] == fed.slot_action_state.down);
}

/// Cooldown timing: a cast that is ticked at a fixed rate ends on the first
/// tick on which the time elapsed since it began reaches the cooldown, and on
/// no tick before; the idle frame is shown on that same tick.
///
/// `inputs` holds the keys down on each tick, with no condition on them. The
/// premise says that the ticks before the last one stay below the cooldown.
/// If the last one stays below too, the cast is still under way and the
/// cooldown has taken in all of the time; otherwise the cast is over, the
/// idle frame is showing and the cooldown is fresh again.
pub proof fn lemma_cooldown_timing(mage: Mage, inputs: Seq<Seq<Key>>, delta: u64)
    requires
        mage.state.is_casting,
        inputs.len() > 0,
        mage.state.cooldown.elapsed + (inputs.len() - 1) * delta < mage.state.cooldown.duration,
    ensures
        mage.run(inputs, delta).state.cooldown.duration == mage.state.cooldown.duration,
        mage.state.cooldown.elapsed + inputs.len() * delta < mage.state.cooldown.duration ==> {
            &&& mage.run(inputs, delta).state.is_casting
            &&& mage.run(inputs, delta).state.cooldown.elapsed == mage.state.cooldown.elapsed
                + inputs.len() * delta
        },
        mage.state.cooldown.elapsed + inputs.len() * delta >= mage.state.cooldown.duration ==> {
            &&& !mage.run(inputs, delta).state.is_casting
            &&& mage.run(inputs, delta).sprite_index == IDLE_FRAME
            &&& mage.run(inputs, delta).state.cooldown.elapsed == 0
        },
    decreases inputs.len(),
{
    let ticks = inputs.len() as int;
    let earlier = inputs.drop_last();
    let before = mage.run(earlier, delta);
    assert((ticks - 1) * delta + delta == ticks * delta) by (nonlinear_arith);
    if earlier.len() == 0 {
        assert(before == mage);
        assert((ticks - 1) * delta == 0);
    } else {
        assert((ticks - 2) * delta <= (ticks - 1) * delta) by (nonlinear_arith)
            requires
                delta >= 0,
        ;
        lemma_cooldown_timing(mage, earlier, delta);
    }
    assert(before.state.is_casting);
    assert(before.state.cooldown.elapsed == mage.state.cooldown.elapsed + (ticks - 1) * delta);
    lemma_cast_latch(before, inputs.last(), delta);
}

/// Projection fidelity, tick by tick: after any tick, the ability table holds
/// at an ability the very record that the action table holds, after the same
/// tick, at an action that drives the ability, provided that no later action
/// drives the same ability with a different record.
pub proof fn lemma_tick_projection_fidelity(
    mage: Mage,
    keys_down: Seq<Key>,
    delta: u64,
    action: LogicalAction,
    ability: AbilityId,
)
    requires
        drives(mage.spell_slot_map@, action, ability),
        forall|later: LogicalAction|
            later.code() > action.code() && drives(mage.spell_slot_map@, later, ability)
                ==> mage.ticked(keys_down, delta).slot_action_state@[later] == mage.ticked(
                keys_down,
                delta,
            ).slot_action_state@[action],
    ensures
        mage.ticked(keys_down, delta).spell_action_state@[ability] == mage.ticked(
            keys_down,
            delta,
        ).slot_action_state@[action],
{
    let fed = mage.with_input(keys_down, delta);
    lemma_projection_fidelity(
        fed.slot_action_state@,
        fed.spell_slot_map@,
        fed.spell_action_state@,
        action,
        ability,
    );
}

} // verus!
