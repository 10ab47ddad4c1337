use snake_game::game::{key_direction, poll_timeout_ms, App, AppStatus, Key, TICK_RATE_MS};
use snake_game::geometry::{Direction, Field, Point};
use snake_game::snake::Snake;
use snake_game::spawn::{generate_apple, occupies, scan_free_cell, try_candidate};

fn p(x: i64, y: i64) -> Point {
    Point { x, y }
}

fn canonical() -> Vec<Point> {
    vec![p(8, 0), p(6, 0), p(4, 0), p(2, 0), p(0, 0)]
}

fn field_40_20() -> Field {
    Field { width: 40, height: 20 }
}

fn assert_apple_valid(app: &App) {
    let a = app.apple().point;
    let f = app.field();
    assert_eq!(a.x % 2, 0);
    assert!(a.x >= 0 && a.x < f.width as i64 - 3);
    assert!(a.y >= 0 && a.y < f.height as i64 - 3);
    assert!(!app.snake().body().contains(&a));
}

/// Drives a game on a 40x20 field into a wall.
fn game_over_app() -> App {
    let mut app = App::new_game(field_40_20(), p(0, 10));
    for _ in 0..15 {
        app.tick();
    }
    assert_eq!(app.status(), AppStatus::GameOver);
    app
}

#[test]
fn starts_in_menu() {
    let app = App::new();
    assert_eq!(app.status(), AppStatus::Menu);
    assert_eq!(app.score(), 0);
    assert!(!app.should_exit());
    assert_eq!(app.snake().body(), &canonical());
}

#[test]
fn confirm_from_menu_starts_game() {
    let mut app = App::new();
    app.resize(40, 20);
    app.handle_key_event(Key::Char(' '));
    assert_eq!(app.status(), AppStatus::Playing);
    assert_eq!(app.score(), 0);
    assert_eq!(app.snake().body(), &canonical());
    assert_eq!(app.snake().direction(), Direction::Right);
    assert_apple_valid(&app);
}

#[test]
fn tick_without_apple_moves_right() {
    let mut app = App::new_game(field_40_20(), p(0, 10));
    app.tick();
    assert_eq!(app.snake().body(), &vec![p(10, 0), p(8, 0), p(6, 0), p(4, 0), p(2, 0)]);
    assert_eq!(app.status(), AppStatus::Playing);
    assert_eq!(app.score(), 0);
    assert_eq!(app.apple().point, p(0, 10));
}

#[test]
fn tick_onto_apple_grows_and_scores() {
    let mut app = App::new_game(field_40_20(), p(10, 0));
    app.tick();
    let body = app.snake().body();
    assert_eq!(body.len(), 6);
    assert_eq!(body[0], p(10, 0));
    assert_eq!(body, &vec![p(10, 0), p(8, 0), p(6, 0), p(4, 0), p(2, 0), p(0, 0)]);
    assert_eq!(app.score(), 1);
    assert_eq!(app.status(), AppStatus::Playing);
    assert_apple_valid(&app);
}

#[test]
fn tick_into_right_wall_ends_game() {
    let mut app = App::new_game(field_40_20(), p(0, 10));
    for _ in 0..14 {
        app.tick();
    }
    assert_eq!(app.snake().head(), p(36, 0));
    assert_eq!(app.status(), AppStatus::Playing);
    app.tick();
    assert_eq!(app.snake().head(), p(38, 0));
    assert_eq!(app.status(), AppStatus::GameOver);
}

#[test]
fn head_may_reach_last_column_inside_walls() {
    let mut app = App::new_game(Field { width: 41, height: 20 }, p(0, 10));
    for _ in 0..15 {
        app.tick();
    }
    assert_eq!(app.snake().head(), p(38, 0));
    assert_eq!(app.status(), AppStatus::Playing);
}

#[test]
fn tick_into_top_wall_ends_game() {
    let mut app = App::new_game(field_40_20(), p(0, 10));
    app.handle_key_event(Key::Up);
    app.tick();
    assert_eq!(app.snake().head(), p(8, -1));
    assert_eq!(app.status(), AppStatus::GameOver);
}

#[test]
fn game_over_stops_ticks() {
    let mut app = game_over_app();
    let before = app.snake().body().clone();
    app.tick();
    assert_eq!(app.snake().body(), &before);
    assert_eq!(app.status(), AppStatus::GameOver);
}

#[test]
fn running_into_body_ends_game() {
    let mut app = App::new_game(field_40_20(), p(30, 15));
    app.handle_key_event(Key::Down);
    app.tick();
    app.handle_key_event(Key::Left);
    app.tick();
    assert_eq!(app.status(), AppStatus::Playing);
    assert_eq!(app.snake().body(), &vec![p(6, 1), p(8, 1), p(8, 0), p(6, 0), p(4, 0)]);
    app.handle_key_event(Key::Up);
    app.tick();
    assert_eq!(app.snake().head(), p(6, 0));
    assert_eq!(app.status(), AppStatus::GameOver);
}

#[test]
fn reversal_is_rejected() {
    let mut app = App::new_game(field_40_20(), p(0, 10));
    app.handle_key_event(Key::Left);
    assert_eq!(app.snake().next_direction(), Direction::Right);
    app.tick();
    assert_eq!(app.snake().direction(), Direction::Right);
    assert_eq!(app.snake().head(), p(10, 0));
    assert_eq!(app.status(), AppStatus::Playing);
}

#[test]
fn reversal_after_pending_turn_is_judged_against_current() {
    let mut snake = Snake::new();
    snake.request_direction(Direction::Up);
    assert_eq!(snake.next_direction(), Direction::Up);
    snake.request_direction(Direction::Left);
    assert_eq!(snake.next_direction(), Direction::Up);
    snake.request_direction(Direction::Down);
    assert_eq!(snake.next_direction(), Direction::Down);
}

#[test]
fn wasd_keys_turn() {
    let mut app = App::new_game(field_40_20(), p(0, 10));
    app.handle_key_event(Key::Char('s'));
    assert_eq!(app.snake().next_direction(), Direction::Down);
    app.handle_key_event(Key::Char('w'));
    assert_eq!(app.snake().next_direction(), Direction::Up);
    app.handle_key_event(Key::Char('a'));
    assert_eq!(app.snake().next_direction(), Direction::Up);
    app.tick();
    assert_eq!(app.snake().head(), p(8, -1));
}

#[test]
fn key_directions() {
    assert_eq!(key_direction(Key::Up), Some(Direction::Up));
    assert_eq!(key_direction(Key::Char('d')), Some(Direction::Right));
    assert_eq!(key_direction(Key::Char('a')), Some(Direction::Left));
    assert_eq!(key_direction(Key::Char('x')), None);
    assert_eq!(key_direction(Key::Enter), None);
    assert_eq!(Direction::Up.opposite(), Direction::Down);
    assert_eq!(Direction::Left.opposite(), Direction::Right);
}

#[test]
fn direction_keys_ignored_outside_a_game() {
    let mut app = App::new();
    app.handle_key_event(Key::Down);
    assert_eq!(app.snake().next_direction(), Direction::Right);
    assert_eq!(app.status(), AppStatus::Menu);
}

#[test]
fn confirm_from_game_over_restarts() {
    let mut app = game_over_app();
    app.handle_key_event(Key::Char(' '));
    assert_eq!(app.status(), AppStatus::Playing);
    assert_eq!(app.score(), 0);
    assert_eq!(app.snake().body(), &canonical());
    assert_apple_valid(&app);
}

#[test]
fn restart_resets_score() {
    let mut app = App::new_game(field_40_20(), p(10, 0));
    app.tick();
    assert_eq!(app.score(), 1);
    app.handle_key_event(Key::Up);
    for _ in 0..2 {
        app.tick();
    }
    assert_eq!(app.status(), AppStatus::GameOver);
    assert_eq!(app.score(), 1);
    app.handle_key_event(Key::Char(' '));
    assert_eq!(app.score(), 0);
    assert_eq!(app.snake().body().len(), 5);
}

#[test]
fn secondary_confirm_from_game_over_goes_to_menu() {
    let mut app = game_over_app();
    app.handle_key_event(Key::Enter);
    assert_eq!(app.status(), AppStatus::Menu);
}

#[test]
fn secondary_confirm_elsewhere_does_nothing() {
    let mut app = App::new();
    app.handle_key_event(Key::Enter);
    assert_eq!(app.status(), AppStatus::Menu);
    let mut app = App::new_game(field_40_20(), p(0, 10));
    app.handle_key_event(Key::Enter);
    assert_eq!(app.status(), AppStatus::Playing);
}

#[test]
fn confirm_while_playing_does_nothing() {
    let mut app = App::new_game(field_40_20(), p(0, 10));
    app.tick();
    app.handle_key_event(Key::Char(' '));
    assert_eq!(app.snake().head(), p(10, 0));
    assert_eq!(app.apple().point, p(0, 10));
}

#[test]
fn cancel_exits_from_any_state() {
    let mut app = App::new();
    app.handle_key_event(Key::Esc);
    assert!(app.should_exit());
    let mut app = App::new_game(field_40_20(), p(0, 10));
    app.handle_key_event(Key::Esc);
    assert!(app.should_exit());
    assert_eq!(app.status(), AppStatus::Playing);
}

#[test]
fn resize_keeps_positions() {
    let mut app = App::new_game(field_40_20(), p(0, 10));
    app.resize(12, 6);
    assert_eq!(app.field(), Field { width: 12, height: 6 });
    assert_eq!(app.snake().body(), &canonical());
    app.tick();
    assert_eq!(app.status(), AppStatus::GameOver);
}

#[test]
fn tick_timing() {
    assert_eq!(TICK_RATE_MS, 128);
    assert_eq!(poll_timeout_ms(0), 128);
    assert_eq!(poll_timeout_ms(100), 28);
    assert_eq!(poll_timeout_ms(128), 0);
    assert_eq!(poll_timeout_ms(5000), 0);
    let app = App::new_game(field_40_20(), p(0, 10));
    assert!(!app.tick_due(127));
    assert!(app.tick_due(128));
    assert!(!App::new().tick_due(1000));
}

#[test]
fn apple_placement_is_free_even_and_inside() {
    let body = canonical();
    let field = Field { width: 41, height: 20 };
    for _ in 0..500 {
        let a = generate_apple(field, &body).unwrap();
        assert_eq!(a.x % 2, 0);
        assert!(a.x >= 0 && a.x < 38);
        assert!(a.y >= 0 && a.y < 17);
        assert!(!body.contains(&a));
    }
}

#[test]
fn apple_placement_is_random() {
    let body = canonical();
    let first = generate_apple(field_40_20(), &body).unwrap();
    let mut differs = false;
    for _ in 0..200 {
        if generate_apple(field_40_20(), &body).unwrap() != first {
            differs = true;
        }
    }
    assert!(differs);
}

#[test]
fn apple_on_nearly_full_field_finds_last_cell() {
    // apple cells on a 9x4 field: x in {0, 2, 4}, y = 0
    let field = Field { width: 9, height: 4 };
    let body = vec![p(0, 0), p(4, 0)];
    for _ in 0..20 {
        assert_eq!(generate_apple(field, &body), Some(p(2, 0)));
    }
}

#[test]
fn apple_on_full_field_is_none() {
    let field = Field { width: 5, height: 4 };
    assert_eq!(generate_apple(field, &vec![p(0, 0)]), None);
    assert_eq!(generate_apple(Field { width: 3, height: 20 }, &canonical()), None);
    assert_eq!(generate_apple(Field { width: 0, height: 0 }, &canonical()), None);
}

#[test]
fn full_field_keeps_old_apple() {
    // the only apple cell on a 5x4 field is (0, 0)
    let mut app = App::new_game(Field { width: 5, height: 4 }, p(0, 0));
    app.handle_key_event(Key::Down);
    app.tick();
    app.handle_key_event(Key::Left);
    app.tick();
    assert_eq!(app.status(), AppStatus::GameOver);
    assert_eq!(app.apple().point, p(0, 0));
}

#[test]
fn scan_finds_first_free_cell_in_row_order() {
    let field = field_40_20();
    assert_eq!(scan_free_cell(field, &canonical()), Some(p(10, 0)));
    assert_eq!(scan_free_cell(field, &vec![]), Some(p(0, 0)));
}

#[test]
fn candidate_is_snapped_to_even_column() {
    let field = field_40_20();
    let body = canonical();
    assert_eq!(try_candidate(field, &body, 11, 3), Some(p(12, 3)));
    assert_eq!(try_candidate(field, &body, 12, 3), Some(p(12, 3)));
    assert_eq!(try_candidate(field, &body, 5, 0), None);
    assert_eq!(try_candidate(field, &body, 36, 16), Some(p(36, 16)));
    assert_eq!(try_candidate(field, &body, 36, 17), None);
    let wide = Field { width: 41, height: 20 };
    assert_eq!(try_candidate(wide, &body, 37, 0), None);
    assert_eq!(try_candidate(wide, &body, u64::MAX, 0), None);
}

#[test]
fn occupancy() {
    let body = canonical();
    assert!(occupies(&body, p(4, 0)));
    assert!(!occupies(&body, p(4, 1)));
    assert!(!occupies(&vec![], p(0, 0)));
}
