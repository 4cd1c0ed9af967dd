use arcade::asteroids;
use arcade::shooter;

#[test]
fn adding_points_increases_the_score() {
    let mut score = asteroids::score::Score::new();

    score.add(20);
    score.add(50);

    assert_eq!(
        score.value(),
        70,
        "счёт после начисления 20 и 50 — {}, ожидалось 70",
        score.value()
    );
}

#[test]
fn a_new_score_starts_at_zero() {
    assert_eq!(shooter::score::Score::new().value(), 0, "новый счёт не нулевой");
}

#[test]
fn adding_points_accumulates() {
    let mut score = shooter::score::Score::new();
    score.add(10);
    score.add(25);

    assert_eq!(
        score.value(),
        35,
        "счёт после двух начислений — {}, ожидалось 35",
        score.value()
    );
}

#[test]
fn adding_in_two_steps_equals_adding_the_sum() {
    let mut stepwise = shooter::score::Score::default();
    stepwise.add(7);
    stepwise.add(8);
    let mut at_once = shooter::score::Score::default();
    at_once.add(15);
    assert_eq!(stepwise.value(), at_once.value());
}

#[test]
fn a_score_can_reach_the_largest_value() {
    let mut score = asteroids::score::Score::new();
    score.add(u32::MAX - 1);
    score.add(1);
    assert_eq!(score.value(), u32::MAX);
}
