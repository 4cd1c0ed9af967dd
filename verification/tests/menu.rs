use arcade::menu::{MenuItem, Selection, ITEMS};

#[test]
fn move_down_moves_the_cursor_to_the_next_item() {
    let mut selection = Selection::new();
    selection.move_down();

    assert_eq!(
        selection.cursor(),
        1,
        "курсор после одного move_down: {}, ожидалось 1",
        selection.cursor()
    );
}

#[test]
fn move_up_moves_the_cursor_to_the_previous_item() {
    let mut selection = Selection::new();
    selection.move_down();
    selection.move_down();
    selection.move_up();

    assert_eq!(
        selection.cursor(),
        1,
        "курсор после move_down, move_down, move_up: {}, ожидалось 1",
        selection.cursor()
    );
}

#[test]
fn move_down_wraps_from_the_last_item_to_the_first() {
    let mut selection = Selection::new();
    for _ in 0..(ITEMS.len() - 1) {
        selection.move_down();
    }

    selection.move_down();

    assert_eq!(
        selection.cursor(),
        0,
        "курсор с последнего пункта не завернул на первый: {}, ожидалось 0",
        selection.cursor()
    );
}

#[test]
fn move_up_wraps_from_the_first_item_to_the_last() {
    let mut selection = Selection::new();
    selection.move_up();

    assert_eq!(
        selection.cursor(),
        ITEMS.len() - 1,
        "курсор с первого пункта не завернул на последний: {}, ожидалось {}",
        selection.cursor(),
        ITEMS.len() - 1
    );
}

#[test]
fn confirm_returns_the_item_under_the_cursor() {
    let mut selection = Selection::new();
    selection.move_down();

    assert_eq!(
        selection.confirm(),
        MenuItem::Arkanoid,
        "подтверждение после одного move_down вернуло {:?}, ожидалось Arkanoid",
        selection.confirm()
    );
}

#[test]
fn quit_confirms_to_the_intent_to_quit() {
    let mut selection = Selection::new();
    selection.move_down();
    selection.move_down();
    selection.move_down();
    selection.move_down();
    selection.move_down();

    assert_eq!(
        selection.confirm(),
        MenuItem::Quit,
        "подтверждение на пункте QUIT вернуло {:?}, ожидалось Quit",
        selection.confirm()
    );
}

#[test]
fn escape_gives_the_same_intent_as_quit() {
    let selection = Selection::new();

    assert_eq!(
        selection.escape(),
        MenuItem::Quit,
        "Esc вернул {:?}, ожидалось Quit — то же намерение, что и пункт QUIT",
        selection.escape()
    );
}

#[test]
fn each_item_label_matches_its_name() {
    assert_eq!(MenuItem::Pong.label(), "PONG");
    assert_eq!(MenuItem::Arkanoid.label(), "ARKANOID");
    assert_eq!(MenuItem::Asteroids.label(), "ASTEROIDS");
    assert_eq!(MenuItem::Shooter.label(), "SHOOTER");
    assert_eq!(MenuItem::Room.label(), "ROOM");
    assert_eq!(MenuItem::Quit.label(), "QUIT");
}

#[test]
fn moving_down_two_items_points_at_asteroids() {
    let mut selection = Selection::new();
    selection.move_down();
    selection.move_down();

    assert_eq!(
        selection.confirm(),
        MenuItem::Asteroids,
        "подтверждение после двух move_down вернуло {:?}, ожидалось Asteroids",
        selection.confirm()
    );
}

#[test]
fn moving_down_three_items_points_at_shooter() {
    let mut selection = Selection::new();
    selection.move_down();
    selection.move_down();
    selection.move_down();

    assert_eq!(
        selection.confirm(),
        MenuItem::Shooter,
        "подтверждение после трёх move_down вернуло {:?}, ожидалось Shooter",
        selection.confirm()
    );
}

#[test]
fn moving_down_four_items_points_at_room() {
    let mut selection = Selection::new();
    selection.move_down();
    selection.move_down();
    selection.move_down();
    selection.move_down();

    assert_eq!(
        selection.confirm(),
        MenuItem::Room,
        "подтверждение после четырёх move_down вернуло {:?}, ожидалось Room",
        selection.confirm()
    );
}

// Tests of this crate's own, for the laws of the cursor on concrete values.

#[test]
fn a_step_up_undoes_a_step_down_at_every_entry() {
    for start in 0..ITEMS.len() {
        let mut selection = Selection::new();
        for _ in 0..start {
            selection.move_down();
        }
        selection.move_down();
        selection.move_up();
        assert_eq!(selection.cursor(), start);
        selection.move_up();
        selection.move_down();
        assert_eq!(selection.cursor(), start);
    }
}

#[test]
fn a_full_lap_down_returns_to_the_start_and_visits_every_entry_in_order() {
    let mut selection = Selection::default();
    for (index, item) in ITEMS.iter().enumerate() {
        assert_eq!(selection.cursor(), index);
        assert_eq!(selection.confirm(), *item);
        selection.move_down();
    }
    assert_eq!(selection.cursor(), 0);
}

#[test]
fn escape_means_quit_wherever_the_cursor_is() {
    let mut selection = Selection::new();
    for _ in 0..ITEMS.len() {
        assert_eq!(selection.escape(), MenuItem::Quit);
        selection.move_up();
    }
}

#[test]
fn escape_wins_over_enter_and_enter_picks_the_cursor() {
    let mut selection = Selection::new();
    selection.move_down();
    assert_eq!(selection.intent(true, true), Some(MenuItem::Quit));
    assert_eq!(selection.intent(true, false), Some(MenuItem::Arkanoid));
    assert_eq!(selection.intent(false, false), None);
}
