use arcade::pong::{BallStep, Exit, Game, GameState, Score};

#[test]
fn ball_past_the_left_edge_scores_for_the_right_player() {
    let mut score = Score::default();

    let goal = score.count_goal(Exit::PastLeft);

    assert!(goal, "мяч за левой границей не засчитан как гол");
    assert_eq!(score.right, 1);
    assert_eq!(score.left, 0);
}

#[test]
fn ball_past_the_right_edge_scores_for_the_left_player() {
    let mut score = Score::default();

    let goal = score.count_goal(Exit::PastRight);

    assert!(goal, "мяч за правой границей не засчитан как гол");
    assert_eq!(score.left, 1);
    assert_eq!(score.right, 0);
}

#[test]
fn ball_inside_the_field_scores_nothing() {
    let mut score = Score::default();

    let goal = score.count_goal(Exit::Inside);

    assert!(!goal, "мяч в поле засчитан как гол");
    assert_eq!((score.left, score.right), (0, 0));
}

#[test]
fn waiting_to_start_begins_playing_on_the_start_signal() {
    let mut game = Game::new();

    game.start_round();

    assert_eq!(game.state, GameState::Playing);
}

#[test]
fn a_goal_ends_the_round_with_the_point_scored() {
    let mut game = Game::new();
    game.state = GameState::Playing;
    assert_eq!(game.ball_step(), BallStep::Fly);

    game.update(Exit::PastRight);

    assert_eq!(game.state, GameState::PointScored);
    assert_eq!((game.score.left, game.score.right), (1, 0));
}

#[test]
fn a_round_without_a_goal_keeps_playing() {
    let mut game = Game::new();
    game.state = GameState::Playing;

    assert_eq!(game.ball_step(), BallStep::Fly, "кадр идущего раунда обязан двигать мяч");
    game.update(Exit::Inside);

    assert_eq!(game.state, GameState::Playing);
    assert_eq!((game.score.left, game.score.right), (0, 0));
}

#[test]
fn the_scored_point_starts_the_next_round_waiting() {
    let mut game = Game::new();
    game.state = GameState::PointScored;

    assert_eq!(game.ball_step(), BallStep::Recenter, "мяч должен вернуться в центр");
    game.update(Exit::PastRight);

    assert_eq!(game.state, GameState::WaitingToStart);
    assert_eq!((game.score.left, game.score.right), (0, 0));
}

#[test]
fn the_start_signal_does_not_skip_the_ball_returning_to_the_center() {
    let mut game = Game::new();
    game.state = GameState::PointScored;

    game.start_round();

    assert_eq!(game.state, GameState::PointScored);
}

#[test]
fn restarting_the_match_clears_the_score_and_waits() {
    for state in [GameState::WaitingToStart, GameState::Playing, GameState::PointScored] {
        let mut game = Game::new();
        game.state = state;
        game.score.left = 3;
        game.score.right = 5;

        game.restart_match();

        assert_eq!((game.score.left, game.score.right), (0, 0));
        assert_eq!(game.state, GameState::WaitingToStart);
    }
}

#[test]
fn waiting_to_start_keeps_the_ball_still() {
    let game = Game::new();

    assert_eq!(game.ball_step(), BallStep::Hold);
}

// Tests of this crate's own.

#[test]
fn waiting_ignores_where_the_ball_is() {
    let mut game = Game::new();
    game.update(Exit::PastLeft);
    assert_eq!(game.state, GameState::WaitingToStart);
    assert_eq!((game.score.left, game.score.right), (0, 0));
}

#[test]
fn a_whole_rally_scores_one_point_and_returns_to_waiting() {
    let mut game = Game::new();
    game.start_round();
    game.update(Exit::Inside);
    game.update(Exit::PastLeft);
    assert_eq!((game.score.left, game.score.right), (0, 1));
    assert_eq!(game.state, GameState::PointScored);
    game.update(Exit::Inside);
    assert_eq!(game.state, GameState::WaitingToStart);
    game.start_round();
    assert_eq!(game.state, GameState::Playing);
}

#[test]
fn the_start_signal_during_play_changes_nothing() {
    let mut game = Game::new();
    game.state = GameState::Playing;
    game.start_round();
    assert_eq!(game.state, GameState::Playing);
}
