use arcade::arkanoid::brick::{self, BrickKind, Score};
use arcade::arkanoid::game::{BallStep, Game, GameState, LIVES};
use arcade::arkanoid::level;

#[test]
fn a_hit_destroys_the_brick() {
    let mut destroyed = vec![false];
    let mut score = Score::default();

    let struck = brick::strike(&mut destroyed, &vec![true], &mut score);

    assert_eq!(struck, Some(0));
    assert!(destroyed[0], "попадание не уничтожило блок");
}

#[test]
fn a_frame_without_a_collision_changes_nothing() {
    let mut destroyed = vec![false];
    let mut score = Score::default();

    let struck = brick::strike(&mut destroyed, &vec![false], &mut score);

    assert_eq!(struck, None, "кадр без столкновения отразил мяч");
    assert!(!destroyed[0], "кадр без столкновения уничтожил блок");
    assert_eq!(score.points, 0);
}

#[test]
fn destroying_a_brick_adds_one_hundred_points() {
    let mut destroyed = vec![false];
    let mut score = Score::default();

    brick::strike(&mut destroyed, &vec![true], &mut score);

    assert_eq!(score.points, 100);
}

#[test]
fn a_destroyed_brick_takes_no_further_part() {
    let mut destroyed = vec![false];
    let mut score = Score::default();
    brick::strike(&mut destroyed, &vec![true], &mut score);

    let again = brick::strike(&mut destroyed, &vec![true], &mut score);

    assert_eq!(again, None, "уничтоженный блок отразил мяч");
    assert_eq!(score.points, 100);
}

#[test]
fn a_ball_touching_two_bricks_bounces_once() {
    let mut destroyed = vec![false, false];
    let mut score = Score::default();

    let struck = brick::strike(&mut destroyed, &vec![true, true], &mut score);

    assert_eq!(struck, Some(0));
    assert_eq!(destroyed.iter().filter(|d| **d).count(), 1, "кадр уничтожил больше одного блока");
}

#[test]
fn the_start_signal_begins_the_round() {
    let mut game = Game::new();

    game.start_round();

    assert_eq!(game.state, GameState::Playing);
}

#[test]
fn waiting_to_start_keeps_the_ball_on_the_paddle() {
    let game = Game::new();

    assert_eq!(game.ball_step(), BallStep::Ride);
}

#[test]
fn a_lost_ball_costs_a_life_and_returns_to_the_paddle() {
    let mut game = Game::new();
    game.state = GameState::Playing;

    let lost = game.update(true);

    assert!(lost, "потеря мяча не вернула мяч на ракетку");
    assert_eq!(game.lives, 2);
    assert_eq!(game.state, GameState::LifeLost);
    assert_eq!(game.ball_step(), BallStep::Ride);
}

#[test]
fn a_ball_inside_the_field_costs_no_life() {
    let mut game = Game::new();
    game.state = GameState::Playing;

    game.update(false);

    assert_eq!(game.lives, 3);
    assert_eq!(game.state, GameState::Playing);
}

#[test]
fn arkanoid_losing_the_last_life_ends_the_game() {
    let mut game = Game::new();
    game.state = GameState::Playing;
    game.lives = 1;

    game.update(true);

    assert_eq!(game.lives, 0);
    assert_eq!(game.state, GameState::GameOver);
}

#[test]
fn game_over_freezes_the_frame() {
    let mut game = Game::new();
    game.state = GameState::GameOver;
    game.lives = 0;
    game.score.points = 500;

    assert_eq!(game.ball_step(), BallStep::Freeze);
    game.update(true);

    assert_eq!(game.score.points, 500);
    assert_eq!(game.state, GameState::GameOver);
}

#[test]
fn the_start_signal_resumes_the_round_after_a_lost_life() {
    let mut game = Game::new();
    game.state = GameState::LifeLost;

    game.start_round();

    assert_eq!(game.state, GameState::Playing);
}

#[test]
fn the_start_signal_does_not_revive_a_finished_game() {
    let mut game = Game::new();
    game.state = GameState::GameOver;
    game.lives = 0;

    game.start_round();

    assert_eq!(game.state, GameState::GameOver);
}

// Tests of this crate's own.

#[test]
fn a_game_starts_with_three_lives_waiting() {
    let game = Game::new();
    assert_eq!(game.lives, LIVES);
    assert_eq!(game.lives, 3);
    assert_eq!(game.score.points, 0);
    assert_eq!(game.state, GameState::WaitingToStart);
}

#[test]
fn three_lost_balls_end_the_game() {
    let mut game = Game::new();
    for remaining in [2, 1, 0] {
        game.start_round();
        assert!(game.update(true));
        assert_eq!(game.lives, remaining);
    }
    assert_eq!(game.state, GameState::GameOver);
    assert!(!game.update(true), "законченная игра снова потеряла мяч");
}

#[test]
fn the_first_standing_overlapped_brick_is_struck() {
    let mut destroyed = vec![true, false, false, false];
    let mut score = Score::default();
    let struck = brick::strike(&mut destroyed, &vec![true, false, true, true], &mut score);
    assert_eq!(struck, Some(2));
    assert_eq!(destroyed, vec![true, false, true, false]);
    assert_eq!(score.points, brick::POINTS);
}

#[test]
fn the_standard_grid_is_five_rows_of_ten() {
    let slots = brick::layout_slots();
    assert_eq!(slots.len(), 50);
    assert_eq!(slots[0], (0, 0));
    assert_eq!(slots[9], (0, 9));
    assert_eq!(slots[10], (1, 0));
    assert_eq!(slots[49], (4, 9));
}

#[test]
fn there_are_three_levels_numbered_from_one() {
    assert_eq!(level::count(), 3);
    assert_eq!(level::FIRST, 1);
}

#[test]
fn layout_symbols_name_brick_kinds() {
    assert_eq!(level::kind_of('N'), Some(BrickKind::Normal));
    assert_eq!(level::kind_of('S'), Some(BrickKind::Strong));
    assert_eq!(level::kind_of('I'), Some(BrickKind::Indestructible));
    assert_eq!(level::kind_of('.'), None);
}

#[test]
fn the_first_level_is_three_rows_of_ten_normal_bricks() {
    let cells = level::cells(1);
    assert_eq!(level::columns(1), 10);
    assert_eq!(cells.len(), 30);
    assert!(cells.iter().all(|cell| cell.kind == BrickKind::Normal));
    assert_eq!((cells[29].row, cells[29].column), (2, 9));
}

#[test]
fn empty_places_of_the_second_level_make_no_brick() {
    let cells = level::cells(2);
    assert_eq!(cells.len(), 38);
    assert_eq!(cells[0].kind, BrickKind::Strong);
    assert!(!cells.iter().any(|cell| cell.row == 2 && (cell.column == 1 || cell.column == 8)));
    let third_row: Vec<_> = cells.iter().filter(|cell| cell.row == 2).collect();
    assert_eq!(third_row.len(), 8);
    assert_eq!(third_row[0].kind, BrickKind::Indestructible);
    assert_eq!(third_row[7].kind, BrickKind::Indestructible);
}

#[test]
fn the_third_level_has_five_rows() {
    let cells = level::cells(3);
    assert_eq!(cells.len(), 10 + 10 + 8 + 8 + 10);
    assert_eq!(cells.last().map(|cell| cell.row), Some(4));
    assert_eq!(cells[0].kind, BrickKind::Indestructible);
    assert_eq!(cells[1].kind, BrickKind::Strong);
}
