//! The ability state projector: copies press state from the action table
//! into the ability table, along the slot map.
//!
//! Projection is a plain copy of whole records. It runs once per tick, after
//! the input bindings have updated the action table and before anything reads
//! the ability table, and it never writes to the action table.

use crate::actions::AbilityId;
use crate::actions::LogicalAction;
use crate::slots::SlotMap;
use crate::state::AbilityTemporalState;
use crate::state::ActionRecord;
use crate::state::ActionTemporalState;
use vstd::prelude::*;

verus! {

/// Whether the slot map assigns the ability to the action.
pub open spec fn drives(
    slots: Map<LogicalAction, AbilityId>,
    action: LogicalAction,
    ability: AbilityId,
) -> bool {
    slots.dom().contains(action) && slots[action] == ability
}

/// The last action, in declaration order and among those with a code below
/// `below`, to which the slot map assigns the ability.
pub open spec fn last_source(
    slots: Map<LogicalAction, AbilityId>,
    ability: AbilityId,
    below: nat,
) -> Option<LogicalAction>
    decreases below,
{
    if below == 0 {
        None
    } else {
        let action = LogicalAction::of_code((below - 1) as u8);
        if drives(slots, action, ability) {
            Some(action)
        } else {
            last_source(slots, ability, (below - 1) as nat)
        }
    }
}

/// The record that projection leaves at an ability once the actions with a
/// code below `below` have been copied: that of the last action that drives
/// the ability, or the record from before where no action does.
pub open spec fn projected_record(
    actions: Map<LogicalAction, ActionRecord>,
    slots: Map<LogicalAction, AbilityId>,
    before: Map<AbilityId, ActionRecord>,
    ability: AbilityId,
    below: nat,
) -> ActionRecord {
    match last_source(slots, ability, below) {
        Some(action) => actions[action],
        None => before[ability],
    }
}

/// The ability table after projection.
pub open spec fn projected(
    actions: Map<LogicalAction, ActionRecord>,
    slots: Map<LogicalAction, AbilityId>,
    before: Map<AbilityId, ActionRecord>,
) -> AbilityTemporalState {
    AbilityTemporalState {
        blast_launch: projected_record(actions, slots, before, AbilityId::BlastLaunch, 6),
        blast_activate: projected_record(actions, slots, before, AbilityId::BlastActivate, 6),
    }
}

/// Copies, for every action that has a slot, the action's whole record to the
/// ability in that slot. Actions are taken in declaration order, so where
/// several drive one ability the last of them decides. An ability that no
/// action drives keeps the record it had.
pub fn copy_action_state(
    slot_state: &ActionTemporalState,
    spell_state: &mut AbilityTemporalState,
    spell_slot_map: &SlotMap,
)
    ensures
        *final(spell_state) == projected(slot_state@, spell_slot_map@, old(spell_state)@),
{
    let all = LogicalAction::variants();
    for i in 0..all.len()
        invariant
            all@ == LogicalAction::all(),
            forall|ability: AbilityId| #[trigger]
                spell_state@[ability] == projected_record(
                    slot_state@,
                    spell_slot_map@,
                    old(spell_state)@,
                    ability,
                    i as nat,
                ),
    {
        let slot = all[i];
        proof {
            LogicalAction::lemma_codes(slot);
            assert(LogicalAction::of_code(i as u8) == slot);
        }
        match spell_slot_map.lookup(slot) {
            Some(matching_ability) => {
                spell_state.set(matching_ability, slot_state.get(slot));
            },
            None => {},
        }
    }
    proof {
        assert(spell_state@[AbilityId::BlastLaunch] == spell_state.blast_launch);
        assert(spell_state@[AbilityId::BlastActivate] == spell_state.blast_activate);
    }
}

/// Projection fidelity: after projection, the record at an ability equals the
/// record of an action that drives it, provided that no later action drives
/// the same ability with a different record.
pub proof fn lemma_projection_fidelity(
    actions: Map<LogicalAction, ActionRecord>,
    slots: Map<LogicalAction, AbilityId>,
    before: Map<AbilityId, ActionRecord>,
    action: LogicalAction,
    ability: AbilityId,
)
    requires
        drives(slots, action, ability),
        forall|later: LogicalAction|
            later.code() > action.code() && drives(slots, later, ability) ==> actions[later]
                == actions[action],
    ensures
        projected(actions, slots, before)@[ability] == actions[action],
{
    lemma_last_source(slots, ability, 6);
    let last = last_source(slots, ability, 6);
    LogicalAction::lemma_codes(action);
    assert(last is Some);
    let source = last->Some_0;
    if source != action {
        assert(source.code() >= action.code());
        LogicalAction::lemma_codes(source);
        assert(source.code() > action.code());
    }
    let after = projected(actions, slots, before);
    assert(after@[ability] == after.record(ability));
}

/// What `last_source` finds drives the ability, has a code below `below`, and
/// no action after it and below `below` drives the ability; it finds nothing
/// only where no action below `below` drives the ability.
pub proof fn lemma_last_source(slots: Map<LogicalAction, AbilityId>, ability: AbilityId, below: nat)
    requires
        below <= 6,
    ensures
        match last_source(slots, ability, below) {
            Some(action) => {
                &&& drives(slots, action, ability)
                &&& action.code() < below
                &&& forall|other: LogicalAction|
                    other.code() < below && drives(slots, other, ability) ==> other.code()
                        <= action.code()
            },
            None => forall|other: LogicalAction|
                other.code() < below ==> !drives(slots, other, ability),
        },
    decreases below,
{
    if below > 0 {
        let action = LogicalAction::of_code((below - 1) as u8);
        lemma_last_source(slots, ability, (below - 1) as nat);
        assert forall|other: LogicalAction| other.code() == below - 1 implies other == action by {
            LogicalAction::lemma_codes(other);
        }
        LogicalAction::lemma_codes(action);
    }
}

/// With the character's standard slots, each ability mirrors its own action:
/// the blast launch the primary ability action, the blast activation the
/// secondary one.
pub proof fn lemma_standard_projection(
    actions: Map<LogicalAction, ActionRecord>,
    before: Map<AbilityId, ActionRecord>,
)
    ensures
        projected(actions, SlotMap::standard_slots(), before).blast_launch
            == actions[LogicalAction::AbilityPrimary],
        projected(actions, SlotMap::standard_slots(), before).blast_activate
            == actions[LogicalAction::AbilitySecondary],
{
    let slots = SlotMap::standard_slots();
    assert(drives(slots, LogicalAction::AbilityPrimary, AbilityId::BlastLaunch));
    assert(drives(slots, LogicalAction::AbilitySecondary, AbilityId::BlastActivate));
    lemma_projection_fidelity(
        actions,
        slots,
        before,
        LogicalAction::AbilityPrimary,
        AbilityId::BlastLaunch,
    );
    lemma_projection_fidelity(
        actions,
        slots,
        before,
        LogicalAction::AbilitySecondary,
        AbilityId::BlastActivate,
    );
}

} // verus!
