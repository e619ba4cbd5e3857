//! Temporal press state, per action and per ability.
//!
//! A record says whether its key is held on the current tick, whether that
//! changed on this tick, and for how long it has been held. The character
//! owns two independent tables of records: one keyed by logical action, fed
//! by the input bindings, and one keyed by ability, fed by projection.

use crate::actions::AbilityId;
use crate::actions::LogicalAction;
use vstd::prelude::*;

verus! {

/// Press state of one action or ability on one tick.
#[derive(Clone, Copy, Debug, PartialEq, Eq, Structural)]
pub struct ActionRecord {
    /// Held on this tick.
    pub pressed: bool,
    /// Held on this tick and not on the one before: the press-edge.
    pub just_pressed: bool,
    /// Not held on this tick but held on the one before.
    pub just_released: bool,
    /// Nanoseconds for which the key has been held since its press-edge;
    /// zero while it is not held.
    pub duration_held: u64,
}

impl ActionRecord {
    /// The record of a key that is not held and was not held before.
    pub open spec fn idle() -> ActionRecord {
        ActionRecord { pressed: false, just_pressed: false, just_released: false, duration_held: 0 }
    }

    /// The two edge flags agree with `pressed`, and a key that is not held
    /// has no hold time.
    pub open spec fn wf(self) -> bool {
        &&& self.just_pressed ==> self.pressed
        &&& self.just_released ==> !self.pressed
        &&& !self.pressed ==> self.duration_held == 0
    }

    /// The record one tick later, given whether the key is held on that tick
    /// and how long the tick lasted. The hold time starts at zero on the
    /// press-edge, grows by the tick length while the key stays held, and
    /// stops growing at `u64::MAX`.
    pub open spec fn advanced(self, held: bool, delta: u64) -> ActionRecord {
        ActionRecord {
            pressed: held,
            just_pressed: held && !self.pressed,
            just_released: !held && self.pressed,
            duration_held: if held && self.pressed {
                self.duration_held.saturating_add(delta)
            } else {
                0
            },
        }
    }

    /// The record of a key that is not held and was not held before.
    pub fn released() -> (record: ActionRecord)
        ensures
            record == ActionRecord::idle(),
            record.wf(),
    {
        ActionRecord { pressed: false, just_pressed: false, just_released: false, duration_held: 0 }
    }

    /// Moves the record on by one tick.
    pub fn advance(&mut self, held: bool, delta: u64)
        ensures
            *final(self) == old(self).advanced(held, delta),
            final(self).wf(),
    {
        let was_pressed = self.pressed;
        self.pressed = held;
        self.just_pressed = held && !was_pressed;
        self.just_released = !held && was_pressed;
        self.duration_held = if held && was_pressed {
            self.duration_held.saturating_add(delta)
        } else {
            0
        };
    }
}

/// Press state of every logical action.
#[derive(Clone, Copy, Debug, PartialEq, Eq, Structural)]
pub struct ActionTemporalState {
    pub up: ActionRecord,
    pub down: ActionRecord,
    pub left: ActionRecord,
    pub right: ActionRecord,
    pub ability_primary: ActionRecord,
    pub ability_secondary: ActionRecord,
}

impl View for ActionTemporalState {
    type V = Map<LogicalAction, ActionRecord>;

    /// The table as a total map from actions to records.
    open spec fn view(&self) -> Map<LogicalAction, ActionRecord> {
        Map::total(|action: LogicalAction| self.record(action))
    }
}

impl ActionTemporalState {
    /// The record kept for an action.
    pub open spec fn record(self, action: LogicalAction) -> ActionRecord {
        match action {
            LogicalAction::Up => self.up,
            LogicalAction::Down => self.down,
            LogicalAction::Left => self.left,
            LogicalAction::Right => self.right,
            LogicalAction::AbilityPrimary => self.ability_primary,
            LogicalAction::AbilitySecondary => self.ability_secondary,
        }
    }

    /// Every record is well-formed.
    pub open spec fn wf(self) -> bool {
        forall|action: LogicalAction| #[trigger] self.record(action).wf()
    }

    /// The table in which no action is held or was held.
    pub open spec fn idle() -> ActionTemporalState {
        ActionTemporalState {
            up: ActionRecord::idle(),
            down: ActionRecord::idle(),
            left: ActionRecord::idle(),
            right: ActionRecord::idle(),
            ability_primary: ActionRecord::idle(),
            ability_secondary: ActionRecord::idle(),
        }
    }

    /// A table in which no action is held.
    pub fn new() -> (state: ActionTemporalState)
        ensures
            state == ActionTemporalState::idle(),
            state.wf(),
    {
        ActionTemporalState {
            up: ActionRecord::released(),
            down: ActionRecord::released(),
            left: ActionRecord::released(),
            right: ActionRecord::released(),
            ability_primary: ActionRecord::released(),
            ability_secondary: ActionRecord::released(),
        }
    }

    /// The record kept for an action.
    pub fn get(&self, action: LogicalAction) -> (record: ActionRecord)
        ensures
            record == self@[action],
    {
        match action {
            LogicalAction::Up => self.up,
            LogicalAction::Down => self.down,
            LogicalAction::Left => self.left,
            LogicalAction::Right => self.right,
            LogicalAction::AbilityPrimary => self.ability_primary,
            LogicalAction::AbilitySecondary => self.ability_secondary,
        }
    }

    /// Replaces the record kept for an action and leaves the others alone.
    pub fn set(&mut self, action: LogicalAction, record: ActionRecord)
        ensures
            final(self)@ == old(self)@.insert(action, record),
    {
        match action {
            LogicalAction::Up => {
                self.up = record;
            },
            LogicalAction::Down => {
                self.down = record;
            },
            LogicalAction::Left => {
                self.left = record;
            },
            LogicalAction::Right => {
                self.right = record;
            },
            LogicalAction::AbilityPrimary => {
                self.ability_primary = record;
            },
            LogicalAction::AbilitySecondary => {
                self.ability_secondary = record;
            },
        }
        assert(self@ =~= old(self)@.insert(action, record));
    }

    /// Whether an action is held on this tick.
    pub fn pressed(&self, action: LogicalAction) -> (held: bool)
        ensures
            held == self@[action].pressed,
    {
        self.get(action).pressed
    }

    /// Whether an action has its press-edge on this tick.
    pub fn just_pressed(&self, action: LogicalAction) -> (edge: bool)
        ensures
            edge == self@[action].just_pressed,
    {
        self.get(action).just_pressed
    }

    /// Whether an action was let go on this tick.
    pub fn just_released(&self, action: LogicalAction) -> (edge: bool)
        ensures
            edge == self@[action].just_released,
    {
        self.get(action).just_released
    }
}

/// Press state of every ability.
#[derive(Clone, Copy, Debug, PartialEq, Eq, Structural)]
pub struct AbilityTemporalState {
    pub blast_launch: ActionRecord,
    pub blast_activate: ActionRecord,
}

impl View for AbilityTemporalState {
    type V = Map<AbilityId, ActionRecord>;

    /// The table as a total map from abilities to records.
    open spec fn view(&self) -> Map<AbilityId, ActionRecord> {
        Map::total(|ability: AbilityId| self.record(ability))
    }
}

impl AbilityTemporalState {
    /// The record kept for an ability.
    pub open spec fn record(self, ability: AbilityId) -> ActionRecord {
        match ability {
            AbilityId::BlastLaunch => self.blast_launch,
            AbilityId::BlastActivate => self.blast_activate,
        }
    }

    /// Every record is well-formed.
    pub open spec fn wf(self) -> bool {
        forall|ability: AbilityId| #[trigger] self.record(ability).wf()
    }

    /// The table in which no ability is triggered or was triggered.
    pub open spec fn idle() -> AbilityTemporalState {
        AbilityTemporalState {
            blast_launch: ActionRecord::idle(),
            blast_activate: ActionRecord::idle(),
        }
    }

    /// A table in which no ability is triggered.
    pub fn new() -> (state: AbilityTemporalState)
        ensures
            state == AbilityTemporalState::idle(),
            state.wf(),
    {
        AbilityTemporalState {
            blast_launch: ActionRecord::released(),
            blast_activate: ActionRecord::released(),
        }
    }

    /// The record kept for an ability.
    pub fn get(&self, ability: AbilityId) -> (record: ActionRecord)
        ensures
            record == self@[ability],
    {
        match ability {
            AbilityId::BlastLaunch => self.blast_launch,
            AbilityId::BlastActivate => self.blast_activate,
        }
    }

    /// Replaces the record kept for an ability and leaves the other alone.
    pub fn set(&mut self, ability: AbilityId, record: ActionRecord)
        ensures
            final(self)@ == old(self)@.insert(ability, record),
    {
        match ability {
            AbilityId::BlastLaunch => {
                self.blast_launch = record;
            },
            AbilityId::BlastActivate => {
                self.blast_activate = record;
            },
        }
        assert(self@ =~= old(self)@.insert(ability, record));
    }

    /// Whether an ability's trigger is held on this tick.
    pub fn pressed(&self, ability: AbilityId) -> (held: bool)
        ensures
            held == self@[ability].pressed,
    {
        self.get(ability).pressed
    }

    /// Whether an ability has its press-edge on this tick.
    pub fn just_pressed(&self, ability: AbilityId) -> (edge: bool)
        ensures
            edge == self@[ability].just_pressed,
    {
        self.get(ability).just_pressed
    }

    /// The abilities whose press-edge falls on this tick, in declaration
    /// order.
    pub open spec fn just_pressed_abilities(self) -> Seq<AbilityId> {
        AbilityId::all().filter(|ability: AbilityId| self@[ability].just_pressed)
    }

    /// The abilities whose press-edge falls on this tick, in declaration
    /// order.
    pub fn get_just_pressed(&self) -> (fired: Vec<AbilityId>)
        ensures
            fired@ == self.just_pressed_abilities(),
    {
        let all = AbilityId::variants();
        let mut fired: Vec<AbilityId> = Vec::new();
        let ghost edge = |ability: AbilityId| self@[ability].just_pressed;
        proof {
            reveal(Seq::filter);
            assert(all@.take(0).filter(edge) =~= Seq::<AbilityId>::empty());
        }
        for i in 0..all.len()
            invariant
                all@ == AbilityId::all(),
                edge == |ability: AbilityId| self@[ability].just_pressed,
                fired@ == all@.take(i as int).filter(edge),
        {
            proof {
                reveal(Seq::filter);
                assert(all@.take(i + 1).drop_last() =~= all@.take(i as int));
            }
            if self.just_pressed(all[i]) {
                fired.push(all[i]);
            }
        }
        assert(all@.take(all@.len() as int) =~= all@);
        fired
    }
}

} // verus!
