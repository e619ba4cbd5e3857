//! Logical input actions and ability identities.
//!
//! The two enums are separate namespaces: an action is what the player asks
//! for, an ability is what the character can cast. Which action drives which
//! ability is decided by a slot map, never by the types themselves.

use vstd::prelude::*;

verus! {

/// A movement or trigger input, independent of the physical key bound to it.
#[derive(Clone, Copy, Debug, PartialEq, Eq, Hash, Structural)]
pub enum LogicalAction {
    Up,
    Down,
    Left,
    Right,
    AbilityPrimary,
    AbilitySecondary,
}

/// A castable ability, independent of the input that triggers it.
#[derive(Clone, Copy, Debug, PartialEq, Eq, Hash, Structural)]
pub enum AbilityId {
    BlastLaunch,
    BlastActivate,
}

impl LogicalAction {
    /// Position of the action in declaration order.
    pub open spec fn code(self) -> u8 {
        match self {
            LogicalAction::Up => 0,
            LogicalAction::Down => 1,
            LogicalAction::Left => 2,
            LogicalAction::Right => 3,
            LogicalAction::AbilityPrimary => 4,
            LogicalAction::AbilitySecondary => 5,
        }
    }

    /// The action at a position of the declaration order; positions past the
    /// last action stand for the last one.
    pub open spec fn of_code(code: u8) -> LogicalAction {
        if code == 0 {
            LogicalAction::Up
        } else if code == 1 {
            LogicalAction::Down
        } else if code == 2 {
            LogicalAction::Left
        } else if code == 3 {
            LogicalAction::Right
        } else if code == 4 {
            LogicalAction::AbilityPrimary
        } else {
            LogicalAction::AbilitySecondary
        }
    }

    /// All actions, in declaration order.
    pub open spec fn all() -> Seq<LogicalAction> {
        seq![
            LogicalAction::Up,
            LogicalAction::Down,
            LogicalAction::Left,
            LogicalAction::Right,
            LogicalAction::AbilityPrimary,
            LogicalAction::AbilitySecondary,
        ]
    }

    /// Position of the action in declaration order.
    pub fn index(self) -> (i: u8)
        ensures
            i == self.code(),
            i < 6,
    {
        match self {
            LogicalAction::Up => 0,
            LogicalAction::Down => 1,
            LogicalAction::Left => 2,
            LogicalAction::Right => 3,
            LogicalAction::AbilityPrimary => 4,
            LogicalAction::AbilitySecondary => 5,
        }
    }

    /// Every action, each once, in declaration order.
    pub fn variants() -> (v: Vec<LogicalAction>)
        ensures
            v@ == LogicalAction::all(),
    {
        let mut v: Vec<LogicalAction> = Vec::new();
        v.push(LogicalAction::Up);
        v.push(LogicalAction::Down);
        v.push(LogicalAction::Left);
        v.push(LogicalAction::Right);
        v.push(LogicalAction::AbilityPrimary);
        v.push(LogicalAction::AbilitySecondary);
        assert(v@ =~= LogicalAction::all());
        v
    }

    /// `code` and `of_code` are inverse to each other on the six positions,
    /// and the declaration order lists the action with code `i` at index `i`.
    pub proof fn lemma_codes(a: LogicalAction)
        ensures
            a.code() < 6,
            LogicalAction::of_code(a.code()) == a,
            LogicalAction::all().len() == 6,
            LogicalAction::all()[a.code() as int] == a,
    {
    }
}

impl AbilityId {
    /// Position of the ability in declaration order.
    pub open spec fn code(self) -> u8 {
        match self {
            AbilityId::BlastLaunch => 0,
            AbilityId::BlastActivate => 1,
        }
    }

    /// The ability at a position of the declaration order; positions past
    /// the last ability stand for the last one.
    pub open spec fn of_code(code: u8) -> AbilityId {
        if code == 0 {
            AbilityId::BlastLaunch
        } else {
            AbilityId::BlastActivate
        }
    }

    /// All abilities, in declaration order.
    pub open spec fn all() -> Seq<AbilityId> {
        seq![AbilityId::BlastLaunch, AbilityId::BlastActivate]
    }

    /// Position of the ability in declaration order.
    pub fn index(self) -> (i: u8)
        ensures
            i == self.code(),
            i < 2,
    {
        match self {
            AbilityId::BlastLaunch => 0,
            AbilityId::BlastActivate => 1,
        }
    }

    /// The ability at position `code`, if there is one.
    pub fn from_index(code: u8) -> (b: Option<AbilityId>)
        ensures
            b == (if code < 2 {
                Some(AbilityId::of_code(code))
            } else {
                None
            }),
    {
        match code {
            0 => Some(AbilityId::BlastLaunch),
            1 => Some(AbilityId::BlastActivate),
            _ => None,
        }
    }

    /// Every ability, each once, in declaration order.
    pub fn variants() -> (v: Vec<AbilityId>)
        ensures
            v@ == AbilityId::all(),
    {
        let mut v: Vec<AbilityId> = Vec::new();
        v.push(AbilityId::BlastLaunch);
        v.push(AbilityId::BlastActivate);
        assert(v@ =~= AbilityId::all());
        v
    }
}

} // verus!
