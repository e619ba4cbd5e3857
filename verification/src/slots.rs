//! The slot map: which logical action drives which ability.
//!
//! The assignment is kept in `bevy`'s hash map, keyed and valued by the
//! declaration-order codes of the two enums. The map itself is not verified;
//! what this module assumes of it is written on the three functions that
//! touch it.

use crate::actions::AbilityId;
use crate::actions::LogicalAction;
use bevy::utils::HashMap;
use vstd::prelude::*;

verus! {

/// A `bevy::utils::HashMap` from action codes to ability codes.
///
/// Trusted: the map is opaque to the verifier, which knows it only through
/// `slot_table_entries`.
#[verifier::external_body]
pub struct SlotTable {
    map: HashMap<u8, u8>,
}

/// The key-value pairs that a slot table holds.
pub uninterp spec fn slot_table_entries(table: SlotTable) -> Map<u8, u8>;

/// The contents of a table that holds nothing.
pub open spec fn no_entries() -> Map<u8, u8> {
    Map::empty()
}

/// What a table answers for a key: its value, or nothing.
pub open spec fn entry_of(entries: Map<u8, u8>, key: u8) -> Option<u8> {
    if entries.dom().contains(key) {
        Some(entries[key])
    } else {
        None
    }
}

/// Calls `HashMap::default`.
///
/// Trusted: a default map holds no entry.
#[verifier::external_body]
fn slot_table_new() -> (table: SlotTable)
    ensures
        slot_table_entries(table) == no_entries(),
{
    SlotTable { map: HashMap::default() }
}

/// Calls `HashMap::insert` on the table and hands the table back.
///
/// Trusted: afterwards the key holds the new value and every other key holds
/// what it held.
#[verifier::external_body]
fn slot_table_insert(table: SlotTable, key: u8, value: u8) -> (after: SlotTable)
    ensures
        slot_table_entries(after) == slot_table_entries(table).insert(key, value),
{
    let mut after = table;
    after.map.insert(key, value);
    after
}

/// Calls `HashMap::get`.
///
/// Trusted: the value stored under the key comes back, or nothing where the
/// key is absent.
#[verifier::external_body]
fn slot_table_get(table: &SlotTable, key: u8) -> (value: Option<u8>)
    ensures
        value == entry_of(slot_table_entries(*table), key),
{
    table.map.get(&key).copied()
}

/// A fixed assignment of abilities to the actions that trigger them.
///
/// Each action has at most one ability; several actions may share one. A
/// map is built once, by `assign`, and only read afterwards.
pub struct SlotMap {
    table: SlotTable,
}

impl View for SlotMap {
    type V = Map<LogicalAction, AbilityId>;

    closed spec fn view(&self) -> Map<LogicalAction, AbilityId> {
        Map::new(
            |action: LogicalAction| slot_table_entries(self.table).dom().contains(action.code()),
            |action: LogicalAction| AbilityId::of_code(slot_table_entries(self.table)[action.code()]),
        )
    }
}

impl SlotMap {
    /// Every stored value is the code of an ability.
    #[verifier::type_invariant]
    spec fn holds_ability_codes(self) -> bool {
        forall|key: u8| #[trigger]
            slot_table_entries(self.table).dom().contains(key) ==> slot_table_entries(
                self.table,
            )[key] < 2
    }

    /// The ability that the map assigns to an action, if any.
    pub open spec fn ability_of(self, action: LogicalAction) -> Option<AbilityId> {
        if self@.dom().contains(action) {
            Some(self@[action])
        } else {
            None
        }
    }

    /// The assignment that gives no action an ability.
    pub open spec fn no_slots() -> Map<LogicalAction, AbilityId> {
        Map::empty()
    }

    /// A slot map that assigns nothing.
    pub fn new() -> (slots: SlotMap)
        ensures
            slots@ == SlotMap::no_slots(),
    {
        let slots = SlotMap { table: slot_table_new() };
        assert(slots@ =~= SlotMap::no_slots());
        slots
    }

    /// The map with one more assignment, which replaces what the action had.
    pub fn assign(self, action: LogicalAction, ability: AbilityId) -> (slots: SlotMap)
        ensures
            slots@ == self@.insert(action, ability),
    {
        proof {
            use_type_invariant(&self);
        }
        let table = slot_table_insert(self.table, action.index(), ability.index());
        let slots = SlotMap { table };
        proof {
            assert forall|other: LogicalAction| other.code() == action.code() implies other
                == action by {
                LogicalAction::lemma_codes(other);
                LogicalAction::lemma_codes(action);
            }
            assert(slots@ =~= self@.insert(action, ability));
        }
        slots
    }

    /// The ability assigned to an action, or nothing where the action has no
    /// slot.
    pub fn lookup(&self, action: LogicalAction) -> (ability: Option<AbilityId>)
        ensures
            ability == self.ability_of(action),
    {
        proof {
            use_type_invariant(self);
        }
        match slot_table_get(&self.table, action.index()) {
            Some(code) => AbilityId::from_index(code),
            None => None,
        }
    }

    /// The character's assignment: the primary ability action launches the
    /// blast, the secondary one activates it.
    pub open spec fn standard_slots() -> Map<LogicalAction, AbilityId> {
        map![
            LogicalAction::AbilityPrimary => AbilityId::BlastLaunch,
            LogicalAction::AbilitySecondary => AbilityId::BlastActivate,
        ]
    }

    /// Builds the character's assignment.
    pub fn standard() -> (slots: SlotMap)
        ensures
            slots@ == SlotMap::standard_slots(),
    {
        let slots = SlotMap::new().assign(
            LogicalAction::AbilityPrimary,
            AbilityId::BlastLaunch,
        ).assign(LogicalAction::AbilitySecondary, AbilityId::BlastActivate);
        assert(slots@ =~= SlotMap::standard_slots());
        slots
    }
}

} // verus!
