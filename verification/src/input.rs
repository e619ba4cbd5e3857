//! The input binding layer: from keys that are down to press state per
//! logical action.
//!
//! The binding table is fixed. Once per tick, before anything else reads the
//! action table, `update_action_state` moves every record on by one tick from
//! the set of keys that the device reports as down.

use crate::actions::LogicalAction;
use crate::state::ActionTemporalState;
use vstd::prelude::*;

verus! {

/// A key of the keyboard.
#[derive(Clone, Copy, Debug, PartialEq, Eq, Hash, Structural)]
pub enum Key {
    Q,
    E,
    W,
    A,
    S,
    D,
    /// Any key that the controller has no binding for.
    Other,
}

/// The action that a key is bound to, if it is bound.
pub open spec fn bound_action(key: Key) -> Option<LogicalAction> {
    match key {
        Key::Q => Some(LogicalAction::AbilityPrimary),
        Key::E => Some(LogicalAction::AbilitySecondary),
        Key::W => Some(LogicalAction::Up),
        Key::A => Some(LogicalAction::Left),
        Key::S => Some(LogicalAction::Down),
        Key::D => Some(LogicalAction::Right),
        Key::Other => None,
    }
}

/// The binding table, one row per bound key.
pub open spec fn binding_table() -> Seq<(Key, LogicalAction)> {
    seq![
        (Key::Q, LogicalAction::AbilityPrimary),
        (Key::E, LogicalAction::AbilitySecondary),
        (Key::W, LogicalAction::Up),
        (Key::A, LogicalAction::Left),
        (Key::S, LogicalAction::Down),
        (Key::D, LogicalAction::Right),
    ]
}

/// Whether some key that is down is bound to the action.
pub open spec fn is_held(keys_down: Seq<Key>, action: LogicalAction) -> bool {
    exists|i: int| 0 <= i < keys_down.len() && bound_action(#[trigger] keys_down[i]) == Some(action)
}

/// The action table one tick later, given the keys that are down on that
/// tick and how long the tick lasted.
pub open spec fn updated(
    state: ActionTemporalState,
    keys_down: Seq<Key>,
    delta: u64,
) -> ActionTemporalState {
    ActionTemporalState {
        up: state.up.advanced(is_held(keys_down, LogicalAction::Up), delta),
        down: state.down.advanced(is_held(keys_down, LogicalAction::Down), delta),
        left: state.left.advanced(is_held(keys_down, LogicalAction::Left), delta),
        right: state.right.advanced(is_held(keys_down, LogicalAction::Right), delta),
        ability_primary: state.ability_primary.advanced(
            is_held(keys_down, LogicalAction::AbilityPrimary),
            delta,
        ),
        ability_secondary: state.ability_secondary.advanced(
            is_held(keys_down, LogicalAction::AbilitySecondary),
            delta,
        ),
    }
}

/// The action that a key is bound to, if it is bound.
pub fn binding(key: Key) -> (action: Option<LogicalAction>)
    ensures
        action == bound_action(key),
{
    match key {
        Key::Q => Some(LogicalAction::AbilityPrimary),
        Key::E => Some(LogicalAction::AbilitySecondary),
        Key::W => Some(LogicalAction::Up),
        Key::A => Some(LogicalAction::Left),
        Key::S => Some(LogicalAction::Down),
        Key::D => Some(LogicalAction::Right),
        Key::Other => None,
    }
}

/// The binding table, one row per bound key.
pub fn bindings() -> (table: Vec<(Key, LogicalAction)>)
    ensures
        table@ == binding_table(),
{
    let mut table: Vec<(Key, LogicalAction)> = Vec::new();
    table.push((Key::Q, LogicalAction::AbilityPrimary));
    table.push((Key::E, LogicalAction::AbilitySecondary));
    table.push((Key::W, LogicalAction::Up));
    table.push((Key::A, LogicalAction::Left));
    table.push((Key::S, LogicalAction::Down));
    table.push((Key::D, LogicalAction::Right));
    assert(table@ =~= binding_table());
    table
}

/// The table and the binding function say the same: a key is bound to an
/// action exactly if the table has that row, and no key has two rows.
pub proof fn lemma_binding_table(key: Key, action: LogicalAction)
    ensures
        bound_action(key) == Some(action) <==> binding_table().contains((key, action)),
        forall|i: int, j: int|
            0 <= i < j < binding_table().len() ==> binding_table()[i].0 != binding_table()[j].0,
{
    let table = binding_table();
    if bound_action(key) == Some(action) {
        let i: int = match key {
            Key::Q => 0,
            Key::E => 1,
            Key::W => 2,
            Key::A => 3,
            Key::S => 4,
            _ => 5,
        };
        assert(table[i] == (key, action));
    }
    if table.contains((key, action)) {
        let i = choose|i: int| 0 <= i < table.len() && table[i] == (key, action);
        assert(bound_action(table[i].0) == Some(table[i].1));
    }
}

/// Whether some key that is down is bound to the action.
pub fn action_held(keys_down: &Vec<Key>, action: LogicalAction) -> (held: bool)
    ensures
        held == is_held(keys_down@, action),
{
    for i in 0..keys_down.len()
        invariant
            forall|j: int| 0 <= j < i ==> bound_action(#[trigger] keys_down@[j]) != Some(action),
    {
        match binding(keys_down[i]) {
            Some(bound) => {
                if bound.index() == action.index() {
                    proof {
                        LogicalAction::lemma_codes(bound);
                        LogicalAction::lemma_codes(action);
                    }
                    return true;
                }
            },
            None => {},
        }
    }
    false
}

/// Moves the whole action table on by one tick of `delta` nanoseconds: each
/// action is held on the new tick exactly if a key bound to it is down. Keys
/// without a binding change nothing.
pub fn update_action_state(state: &mut ActionTemporalState, keys_down: &Vec<Key>, delta: u64)
    ensures
        *final(state) == updated(*old(state), keys_down@, delta),
        forall|action: LogicalAction| #[trigger]
            final(state)@[action] == old(state)@[action].advanced(
                is_held(keys_down@, action),
                delta,
            ),
        final(state).wf(),
{
    let all = LogicalAction::variants();
    for i in 0..all.len()
        invariant
            all@ == LogicalAction::all(),
            forall|action: LogicalAction|
                action.code() < i ==> #[trigger] state@[action] == old(state)@[action].advanced(
                    is_held(keys_down@, action),
                    delta,
                ),
            forall|action: LogicalAction|
                action.code() >= i ==> #[trigger] state@[action] == old(state)@[action],
    {
        let action = all[i];
        let held = action_held(keys_down, action);
        let mut record = state.get(action);
        record.advance(held, delta);
        state.set(action, record);
        proof {
            LogicalAction::lemma_codes(action);
            assert forall|other: LogicalAction| other.code() == i implies other == action by {
                LogicalAction::lemma_codes(other);
            }
        }
    }
    proof {
        assert(state.up == state@[LogicalAction::Up]);
        assert(state.down == state@[LogicalAction::Down]);
        assert(state.left == state@[LogicalAction::Left]);
        assert(state.right == state@[LogicalAction::Right]);
        assert(state.ability_primary == state@[LogicalAction::AbilityPrimary]);
        assert(state.ability_secondary == state@[LogicalAction::AbilitySecondary]);
        assert forall|action: LogicalAction| #[trigger] state.record(action).wf() by {
            LogicalAction::lemma_codes(action);
            assert(state@[action] == old(state)@[action].advanced(
                is_held(keys_down@, action),
                delta,
            ));
        }
    }
}

} // verus!
