use arcade::collections::retain_unmarked;
use arcade::shooter::combat::{self, BULLET_DAMAGE, ENEMY_KILL_POINTS};
use arcade::shooter::enemy::{enemy_count, perimeter_slot};
use arcade::shooter::game::{Command, Game, GameState, CONTACT_DAMAGE, PLAYER_MAX_HEALTH, START_AMMO};
use arcade::shooter::pickup::{self, pickup_for_kill, PickupKind, AMMO_RESTORE, HEALTH_RESTORE};
use arcade::shooter::score::Score;

/// Health of a freshly spawned enemy in the game.
const ENEMY_HEALTH: i32 = 3;

#[test]
fn the_fourth_kill_drops_health() {
    assert_eq!(pickup_for_kill(4), Some(PickupKind::Health));
}

#[test]
fn the_second_kill_drops_ammo() {
    assert_eq!(pickup_for_kill(2), Some(PickupKind::Ammo));
}

#[test]
fn the_first_kill_drops_nothing() {
    assert_eq!(pickup_for_kill(1), None);
}

#[test]
fn the_rule_is_deterministic() {
    assert_eq!(pickup_for_kill(7), pickup_for_kill(7));
    assert_eq!(pickup_for_kill(12), pickup_for_kill(12));
}

#[test]
fn a_health_pickup_increases_health_without_exceeding_the_maximum() {
    let mut health = 90;
    let mut ammo = 0;

    assert!(pickup::resolve(&vec![PickupKind::Health], &vec![true], &mut health, 100, &mut ammo));

    assert_eq!(health, 100, "здоровье после подбора — {}, ожидалось 100 (потолок)", health);
}

#[test]
fn a_health_pickup_below_the_maximum_restores_the_full_amount() {
    let mut health = 50;
    let mut ammo = 0;

    assert!(pickup::resolve(&vec![PickupKind::Health], &vec![true], &mut health, 100, &mut ammo));

    assert_eq!(health, 50 + HEALTH_RESTORE);
}

#[test]
fn an_ammo_pickup_increases_the_ammo_supply() {
    let mut health = 100;
    let mut ammo = 5;

    assert!(pickup::resolve(&vec![PickupKind::Ammo], &vec![true], &mut health, 100, &mut ammo));

    assert_eq!(ammo, 5 + AMMO_RESTORE);
}

#[test]
fn a_picked_up_pickup_is_removed_and_not_picked_up_again() {
    let mut pickups = vec![PickupKind::Ammo];
    let mut health = 100;
    let mut ammo = 0;

    let touched = vec![true];
    assert!(pickup::resolve(&pickups, &touched, &mut health, 100, &mut ammo));
    retain_unmarked(&mut pickups, &touched);
    assert!(pickups.is_empty(), "подобранный pickup не удалился");

    let touched: Vec<bool> = vec![true; pickups.len()];
    assert!(pickup::resolve(&pickups, &touched, &mut health, 100, &mut ammo));

    assert_eq!(ammo, AMMO_RESTORE, "pickup подобран повторно: ammo = {}", ammo);
}

#[test]
fn a_hit_reduces_the_enemys_health_by_one_bullets_damage() {
    let mut health = vec![ENEMY_HEALTH];
    let mut score = Score::new();

    combat::resolve(&vec![vec![true]], 1, &mut health, &mut score).expect("кадр не уложился в пределы");

    assert_eq!(health[0], ENEMY_HEALTH - BULLET_DAMAGE);
}

#[test]
fn an_enemy_with_several_health_dies_on_the_nth_hit_not_the_first() {
    let mut health = vec![ENEMY_HEALTH];
    let mut score = Score::new();

    for _ in 0..ENEMY_HEALTH - 1 {
        let hits = combat::resolve(&vec![vec![true]], 1, &mut health, &mut score).expect("кадр не уложился в пределы");
        assert_eq!(hits.killed, vec![false], "враг погиб раньше последнего попадания");
    }
    let hits = combat::resolve(&vec![vec![true]], 1, &mut health, &mut score).expect("кадр не уложился в пределы");

    assert_eq!(hits.killed, vec![true], "враг пережил своё N-е попадание");
}

#[test]
fn an_enemys_death_awards_points_exactly_once() {
    let mut health = vec![ENEMY_HEALTH];
    let mut score = Score::new();

    for _ in 0..ENEMY_HEALTH {
        let hits = combat::resolve(&vec![vec![true]], 1, &mut health, &mut score).expect("кадр не уложился в пределы");
        retain_unmarked(&mut health, &hits.killed);
    }

    assert_eq!(score.value(), ENEMY_KILL_POINTS);
}

#[test]
fn one_bullet_in_range_of_two_enemies_damages_only_one() {
    let mut health = vec![ENEMY_HEALTH, ENEMY_HEALTH];
    let mut score = Score::new();

    combat::resolve(&vec![vec![true], vec![true]], 1, &mut health, &mut score).expect("кадр не уложился в пределы");

    let damaged_count = health.iter().filter(|h| **h < ENEMY_HEALTH).count();
    assert_eq!(damaged_count, 1);
}

#[test]
fn a_bullet_is_removed_after_a_hit_and_does_not_hit_again_next_frame() {
    let mut bullets = vec!["bullet"];
    let mut health = vec![ENEMY_HEALTH];
    let mut score = Score::new();

    let hits = combat::resolve(&vec![vec![true]], bullets.len(), &mut health, &mut score).expect("кадр не уложился в пределы");
    retain_unmarked(&mut bullets, &hits.spent);
    assert!(bullets.is_empty(), "пуля пережила попадание");

    let health_after_first_frame = health[0];
    combat::resolve(&vec![vec![]], bullets.len(), &mut health, &mut score).expect("кадр не уложился в пределы");

    assert_eq!(health[0], health_after_first_frame);
}

#[test]
fn a_kill_reports_the_dead_enemys_position() {
    let mut health = vec![1];
    let mut score = Score::new();

    let hits = combat::resolve(&vec![vec![true]], 1, &mut health, &mut score).expect("кадр не уложился в пределы");

    assert_eq!(hits.killed, vec![true]);
}

#[test]
fn a_frame_without_a_kill_reports_no_positions() {
    let mut health = vec![ENEMY_HEALTH];
    let mut score = Score::new();

    let hits = combat::resolve(&vec![vec![]], 0, &mut health, &mut score).expect("кадр не уложился в пределы");

    assert_eq!(hits.killed, vec![false]);
}

#[test]
fn a_near_miss_just_outside_the_combined_radius_is_not_a_hit() {
    let mut bullets = vec!["bullet"];
    let mut health = vec![ENEMY_HEALTH];
    let mut score = Score::new();

    let hits = combat::resolve(&vec![vec![false]], 1, &mut health, &mut score).expect("кадр не уложился в пределы");
    retain_unmarked(&mut bullets, &hits.spent);

    assert_eq!(health[0], ENEMY_HEALTH);
    assert_eq!(bullets.len(), 1);
}

#[test]
fn touching_an_enemy_reduces_the_players_health() {
    let mut game = Game::new();
    game.state = GameState::Playing;

    game.take_contact(true);

    assert_eq!(game.health, PLAYER_MAX_HEALTH - CONTACT_DAMAGE);
}

#[test]
fn two_enemies_touching_at_once_deal_a_single_touchs_damage() {
    let mut game = Game::new();
    game.state = GameState::Playing;
    let touches = [true, true];

    game.take_contact(touches.iter().any(|t| *t));

    assert_eq!(game.health, PLAYER_MAX_HEALTH - CONTACT_DAMAGE);
}

#[test]
fn zero_health_ends_the_game_and_freezes_the_world() {
    let mut game = Game::new();
    game.state = GameState::Playing;
    game.health = CONTACT_DAMAGE;

    game.take_contact(true);

    assert_eq!(game.state, GameState::GameOver);
    assert_eq!(game.begin_frame(false), Command::Freeze);
}

#[test]
fn restart_resets_health_score_wave_bullets_and_enemies_from_game_over() {
    let mut game = Game::new();
    game.state = GameState::GameOver;
    game.health = 0;
    game.score.add(500);
    game.wave = 3;

    game.restart();

    assert_eq!(game.health, PLAYER_MAX_HEALTH);
    assert_eq!(game.score.value(), 0);
    assert_eq!(game.wave, 1);
    assert_eq!(game.state, GameState::WaitingToStart);
}

#[test]
fn restart_also_works_from_playing() {
    let mut game = Game::new();
    game.state = GameState::Playing;
    game.score.add(100);

    game.restart();

    assert_eq!(game.score.value(), 0);
    assert_eq!(game.state, GameState::WaitingToStart);
}

#[test]
fn firing_a_shot_reduces_ammo_by_exactly_one() {
    let mut game = Game::new();
    game.state = GameState::Playing;
    let ammo_before = game.ammo;

    assert!(game.may_fire(true));
    game.spend_round();

    assert_eq!(game.ammo, ammo_before - 1);
}

#[test]
fn firing_with_zero_ammo_does_not_create_a_bullet() {
    let mut game = Game::new();
    game.state = GameState::Playing;
    game.ammo = 0;

    assert!(!game.may_fire(true), "выстрел при нуле патронов создал пулю");
}

#[test]
fn ammo_never_goes_negative() {
    let mut game = Game::new();
    game.state = GameState::Playing;
    game.ammo = 1;

    for _ in 0..2 {
        if game.may_fire(true) {
            game.spend_round();
        }
    }

    assert!(game.ammo >= 0, "запас патронов ушёл в минус: {}", game.ammo);
}

#[test]
fn the_last_bullet_fires_and_the_next_click_does_not() {
    let mut game = Game::new();
    game.state = GameState::Playing;
    game.ammo = 1;
    let mut shots = 0;

    for _ in 0..2 {
        if game.may_fire(true) {
            game.spend_round();
            shots += 1;
        }
    }

    assert_eq!(shots, 1);
}

// Tests of this crate's own.

#[test]
fn a_new_match_starts_full_and_waiting() {
    let game = Game::new();
    assert_eq!(game.health, PLAYER_MAX_HEALTH);
    assert_eq!(game.ammo, START_AMMO);
    assert_eq!(game.wave, 1);
    assert_eq!(game.state, GameState::WaitingToStart);
}

#[test]
fn the_space_key_starts_the_match_and_play_fights() {
    let mut game = Game::new();
    assert_eq!(game.begin_frame(false), Command::Move);
    assert_eq!(game.state, GameState::WaitingToStart);
    assert_eq!(game.begin_frame(true), Command::Move);
    assert_eq!(game.state, GameState::Playing);
    assert_eq!(game.begin_frame(true), Command::Fight);
}

#[test]
fn a_touch_before_play_does_no_harm() {
    let mut game = Game::new();
    assert!(!game.take_contact(true));
    assert_eq!(game.health, PLAYER_MAX_HEALTH);
}

#[test]
fn five_touches_end_the_match() {
    let mut game = Game::new();
    game.state = GameState::Playing;
    for _ in 0..4 {
        assert!(game.take_contact(true));
        assert_eq!(game.state, GameState::Playing);
    }
    assert!(game.take_contact(true));
    assert_eq!(game.health, 0);
    assert_eq!(game.state, GameState::GameOver);
    assert!(!game.take_contact(true));
}

#[test]
fn waves_hold_two_more_enemies_each() {
    assert_eq!(enemy_count(1), 3);
    assert_eq!(enemy_count(2), 5);
    assert_eq!(enemy_count(5), 11);
}

#[test]
fn enemies_enter_on_each_side_in_turn() {
    assert_eq!(perimeter_slot(1, 0), (0, 7));
    assert_eq!(perimeter_slot(1, 1), (1, 20));
    assert_eq!(perimeter_slot(3, 5), (1, (21 + 65) % 97));
    assert_eq!(perimeter_slot(10, 4), (0, (70 + 52) % 97));
}

#[test]
fn drops_repeat_every_four_kills() {
    assert_eq!(pickup_for_kill(3), None);
    assert_eq!(pickup_for_kill(6), Some(PickupKind::Ammo));
    assert_eq!(pickup_for_kill(8), Some(PickupKind::Health));
    assert_eq!(pickup_for_kill(0), Some(PickupKind::Health));
}

#[test]
fn pickups_are_collected_in_order_and_health_stays_capped() {
    let kinds = vec![PickupKind::Health, PickupKind::Ammo, PickupKind::Health, PickupKind::Ammo];
    let touched = vec![true, true, true, false];
    let mut health = 50;
    let mut ammo = 2;

    assert!(pickup::resolve(&kinds, &touched, &mut health, PLAYER_MAX_HEALTH, &mut ammo));

    assert_eq!(health, PLAYER_MAX_HEALTH);
    assert_eq!(ammo, 2 + AMMO_RESTORE);
}

#[test]
fn bullets_spend_on_the_first_enemy_they_touch() {
    // Enemy 0 is touched by bullet 1; enemy 1 by bullets 0 and 1; enemy 2 by bullet 2.
    let hits = vec![vec![false, true, false], vec![true, true, false], vec![false, false, true]];
    let mut health = vec![1, 2, 3];
    let mut score = Score::new();

    let outcome = combat::resolve(&hits, 3, &mut health, &mut score).expect("кадр не уложился в пределы");

    assert_eq!(health, vec![0, 1, 2]);
    assert_eq!(outcome.killed, vec![true, false, false]);
    assert_eq!(outcome.spent, vec![true, true, true]);
    assert_eq!(score.value(), ENEMY_KILL_POINTS);
}

#[test]
fn a_frame_that_would_overflow_the_score_changes_nothing() {
    let mut health = vec![1];
    let mut score = Score::new();
    score.add(u32::MAX - 5);

    let outcome = combat::resolve(&vec![vec![true]], 1, &mut health, &mut score);

    assert!(outcome.is_none());
    assert_eq!(health, vec![1]);
    assert_eq!(score.value(), u32::MAX - 5);
}

#[test]
fn pickups_that_would_overflow_ammunition_are_refused() {
    let mut health = 10;
    let mut ammo = i32::MAX - 3;

    let collected = pickup::resolve(&vec![PickupKind::Health, PickupKind::Ammo], &vec![true, true], &mut health, 100, &mut ammo);

    assert!(!collected);
    assert_eq!((health, ammo), (10, i32::MAX - 3));
}
