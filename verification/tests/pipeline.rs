use magic_mania::actions::AbilityId;
use magic_mania::actions::LogicalAction;
use magic_mania::animation::RepeatingAnimation;
use magic_mania::character::CharacterState;
use magic_mania::character::Velocity;
use magic_mania::input::Key;
use magic_mania::mage::report_spells_used;
use magic_mania::mage::Mage;
use magic_mania::state::AbilityTemporalState;
use magic_mania::state::ActionRecord;
use magic_mania::state::ActionTemporalState;
use magic_mania::timer::Cooldown;

const MS: u64 = 1_000_000;
const STILL: Velocity = Velocity { x: 0, y: 0 };

#[test]
fn a_new_mage_stands_idle() {
    let mage = Mage::new();
    assert_eq!(mage.slot_action_state, ActionTemporalState::new());
    assert_eq!(mage.spell_action_state, AbilityTemporalState::new());
    assert_eq!(mage.state, CharacterState::new());
    assert_eq!(mage.walk_animation, RepeatingAnimation::new());
    assert_eq!(mage.velocity, STILL);
    assert_eq!(mage.sprite_index, 0);
    assert_eq!(mage.spell_slot_map.lookup(LogicalAction::AbilityPrimary), Some(AbilityId::BlastLaunch));
    assert_eq!(
        mage.spell_slot_map.lookup(LogicalAction::AbilitySecondary),
        Some(AbilityId::BlastActivate)
    );
    assert_eq!(mage.spell_slot_map.lookup(LogicalAction::Up), None);
}

#[test]
fn a_tick_without_input_changes_nothing_to_see() {
    let mut mage = Mage::new();
    let used = mage.tick(&Vec::new(), 16 * MS);
    assert!(used.is_empty());
    assert_eq!(mage.velocity, STILL);
    assert_eq!(mage.sprite_index, 0);
    assert_eq!(mage.state, CharacterState::new());
    assert_eq!(mage.walk_animation, RepeatingAnimation::new());
}

#[test]
fn pressing_q_casts_on_the_same_tick_even_with_d_held() {
    let mut mage = Mage::new();
    assert!(mage.tick(&Vec::new(), 100 * MS).is_empty());
    assert_eq!(mage.velocity, STILL);
    assert_eq!(mage.sprite_index, 0);

    let used = mage.tick(&vec![Key::Q, Key::D], 100 * MS);
    assert_eq!(used, vec![AbilityId::BlastLaunch]);
    assert!(mage.state.is_casting);
    assert!(!mage.state.is_walking);
    assert_eq!(mage.sprite_index, 2);
    assert_eq!(mage.velocity, STILL);
    assert_eq!(mage.state.cooldown, Cooldown { duration: 500 * MS, elapsed: 100 * MS });

    // 200, 300, 400 ms: still casting, standing still, attack frame.
    for elapsed in [200, 300, 400] {
        let used = mage.tick(&vec![Key::Q, Key::D], 100 * MS);
        assert!(used.is_empty());
        assert!(mage.state.is_casting);
        assert_eq!(mage.state.cooldown.elapsed, elapsed * MS);
        assert_eq!(mage.velocity, STILL);
        assert_eq!(mage.sprite_index, 2);
    }

    // 500 ms: the cast ends and the idle frame shows, on this very tick.
    mage.tick(&vec![Key::Q, Key::D], 100 * MS);
    assert!(!mage.state.is_casting);
    assert_eq!(mage.sprite_index, 0);
    assert_eq!(mage.velocity, STILL);
    assert_eq!(mage.state.cooldown, Cooldown { duration: 500 * MS, elapsed: 0 });

    // Q is still held, which is no press-edge: the character walks right.
    mage.tick(&vec![Key::Q, Key::D], 100 * MS);
    assert!(!mage.state.is_casting);
    assert!(mage.state.is_walking);
    assert_eq!(mage.velocity, Velocity { x: 10, y: 0 });
}

#[test]
fn holding_d_walks_right_and_alternates_the_frames() {
    let mut mage = Mage::new();
    let keys = vec![Key::D];
    let mut shown = Vec::new();
    for _ in 0..3 {
        let used = mage.tick(&keys, 400 * MS);
        assert!(used.is_empty());
        assert_eq!(mage.velocity, Velocity { x: 10, y: 0 });
        assert!(mage.state.is_walking);
        assert!(!mage.state.is_casting);
        shown.push(mage.sprite_index);
    }
    // 400 ms, 800 ms, 1200 ms: the boundaries at 500 ms and 1000 ms fall on
    // the second and third tick.
    assert_eq!(shown, vec![0, 1, 0]);
    assert_eq!(mage.walk_animation.frame_timer.elapsed, 200 * MS);
}

#[test]
fn the_cast_ends_on_the_first_tick_that_reaches_the_cooldown() {
    for delta in [1 * MS, 16 * MS, 125 * MS, 250 * MS, 499 * MS, 500 * MS, 3_000 * MS] {
        let mut mage = Mage::new();
        mage.tick(&vec![Key::Q], delta);
        let mut cumulative = delta;
        let mut ticks = 1;
        while cumulative < 500 * MS {
            assert!(mage.state.is_casting);
            assert_eq!(mage.state.cooldown.elapsed, cumulative);
            assert_eq!(mage.sprite_index, 2);
            mage.tick(&Vec::new(), delta);
            cumulative += delta;
            ticks += 1;
        }
        assert!(!mage.state.is_casting);
        assert_eq!(mage.sprite_index, 0);
        assert_eq!(mage.state.cooldown.elapsed, 0);
        assert_eq!(ticks, (500 * MS + delta - 1) / delta);
    }
}

#[test]
fn pressing_q_again_does_not_prolong_the_cast() {
    let mut pressed_once = Mage::new();
    let mut pressed_often = Mage::new();
    pressed_once.tick(&vec![Key::Q], 125 * MS);
    pressed_often.tick(&vec![Key::Q], 125 * MS);
    for tick in 0..3 {
        pressed_once.tick(&Vec::new(), 125 * MS);
        // Released and pressed in turn, so every other tick has a press-edge.
        let keys = if tick % 2 == 0 { Vec::new() } else { vec![Key::Q] };
        pressed_often.tick(&keys, 125 * MS);
        assert_eq!(pressed_often.state, pressed_once.state);
        assert_eq!(pressed_often.sprite_index, pressed_once.sprite_index);
    }
    assert!(!pressed_once.state.is_casting);
    assert!(!pressed_often.state.is_casting);
}

#[test]
fn a_cast_can_begin_again_after_it_ended() {
    let mut mage = Mage::new();
    mage.tick(&vec![Key::Q], 500 * MS);
    assert!(!mage.state.is_casting);
    assert_eq!(mage.sprite_index, 0);
    mage.tick(&Vec::new(), 10 * MS);
    let used = mage.tick(&vec![Key::Q], 10 * MS);
    assert_eq!(used, vec![AbilityId::BlastLaunch]);
    assert!(mage.state.is_casting);
    assert_eq!(mage.sprite_index, 2);
    assert_eq!(mage.state.cooldown.elapsed, 10 * MS);
}

#[test]
fn casting_stops_a_walk_at_once() {
    let mut mage = Mage::new();
    mage.tick(&vec![Key::W, Key::A], 100 * MS);
    assert_eq!(mage.velocity, Velocity { x: -10, y: 10 });
    assert!(mage.state.is_walking);
    mage.tick(&vec![Key::W, Key::A, Key::Q], 100 * MS);
    assert_eq!(mage.velocity, STILL);
    assert!(!mage.state.is_walking);
    assert!(mage.state.is_casting);
    // The walk timer rests during the cast.
    assert_eq!(mage.walk_animation.frame_timer.elapsed, 100 * MS);
}

#[test]
fn opposite_keys_cancel_towards_left_and_down() {
    let mut mage = Mage::new();
    mage.tick(&vec![Key::D, Key::A], 16 * MS);
    assert_eq!(mage.velocity, Velocity { x: -10, y: 0 });
    mage.tick(&vec![Key::A, Key::D], 16 * MS);
    assert_eq!(mage.velocity, Velocity { x: -10, y: 0 });
    mage.tick(&vec![Key::W, Key::S], 16 * MS);
    assert_eq!(mage.velocity, Velocity { x: 0, y: -10 });
    mage.tick(&vec![Key::S, Key::W], 16 * MS);
    assert_eq!(mage.velocity, Velocity { x: 0, y: -10 });
}

#[test]
fn velocity_does_not_carry_over() {
    let mut mage = Mage::new();
    mage.tick(&vec![Key::D], 16 * MS);
    assert_eq!(mage.velocity, Velocity { x: 10, y: 0 });
    mage.tick(&Vec::new(), 16 * MS);
    assert_eq!(mage.velocity, STILL);
    assert!(!mage.state.is_walking);
}

#[test]
fn the_ability_table_mirrors_the_action_table() {
    let mut mage = Mage::new();
    for keys in [vec![Key::Q], vec![Key::Q, Key::E], vec![Key::E], vec![], vec![Key::Other]] {
        mage.tick(&keys, 33 * MS);
        assert_eq!(
            mage.spell_action_state.get(AbilityId::BlastLaunch),
            mage.slot_action_state.get(LogicalAction::AbilityPrimary)
        );
        assert_eq!(
            mage.spell_action_state.get(AbilityId::BlastActivate),
            mage.slot_action_state.get(LogicalAction::AbilitySecondary)
        );
    }
    assert_eq!(
        mage.slot_action_state.get(LogicalAction::AbilitySecondary),
        ActionRecord { pressed: false, just_pressed: false, just_released: false, duration_held: 0 }
    );
}

#[test]
fn blast_activate_is_reported_and_does_nothing_else() {
    let mut mage = Mage::new();
    let used = mage.tick(&vec![Key::E], 16 * MS);
    assert_eq!(used, vec![AbilityId::BlastActivate]);
    assert_eq!(mage.state, CharacterState::new());
    assert_eq!(mage.sprite_index, 0);
    let used = mage.tick(&vec![Key::E, Key::Q], 16 * MS);
    assert_eq!(used, vec![AbilityId::BlastLaunch]);
}

#[test]
fn both_abilities_pressed_together_are_reported_in_order() {
    let mut mage = Mage::new();
    let used = mage.tick(&vec![Key::E, Key::Q], 16 * MS);
    assert_eq!(used, vec![AbilityId::BlastLaunch, AbilityId::BlastActivate]);
    assert_eq!(report_spells_used(&mage.spell_action_state), used);
}

#[test]
fn advance_works_on_an_action_table_filled_from_outside() {
    let mut mage = Mage::new();
    mage.slot_action_state.set(
        LogicalAction::AbilityPrimary,
        ActionRecord { pressed: true, just_pressed: true, just_released: false, duration_held: 0 },
    );
    mage.slot_action_state.set(
        LogicalAction::Right,
        ActionRecord { pressed: true, just_pressed: false, just_released: false, duration_held: 40 },
    );
    let filled = mage.slot_action_state;
    let used = mage.advance(16 * MS);
    assert_eq!(used, vec![AbilityId::BlastLaunch]);
    assert_eq!(mage.slot_action_state, filled);
    assert!(mage.state.is_casting);
    assert_eq!(mage.velocity, STILL);
    assert_eq!(mage.sprite_index, 2);
    assert_eq!(mage.state.cooldown.elapsed, 16 * MS);
}
