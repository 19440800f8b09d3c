use snaky::{
    cell_avoiding, is_opposite, modulo, rand_point2, Apple, ConfigError, Heading, Input,
    MainState, Point, Snake,
};

fn pt(x: i32, y: i32) -> Point {
    Point { x, y }
}

fn state(head: Point, heading: Heading, body: Vec<Point>, apple: Point, w: i32, h: i32) -> MainState {
    let mut snake = Snake::new(head);
    snake.heading = heading;
    snake.pos_body = body;
    MainState { snake, apple: Apple::new(apple), is_over: false, grid_width: w, grid_height: h }
}

#[test]
fn wrap_gives_true_modulo() {
    assert_eq!(modulo(-1, 5), 4);
    assert_eq!(modulo(5, 5), 0);
    assert_eq!(modulo(7, 5), 2);
    assert_eq!(modulo(-10, 5), 0);
    assert_eq!(modulo(-11, 5), 4);
    assert_eq!(modulo(0, 1), 0);
    assert_eq!(modulo(i32::MAX, 1), 0);
    assert_eq!(modulo(i32::MIN, 7), 5);
    assert_eq!(modulo(i32::MIN, i32::MAX), i32::MAX - 1);
}

#[test]
fn wrap_stays_in_range() {
    for m in 1..20 {
        for x in -100..100 {
            let r = modulo(x, m);
            assert!(0 <= r && r < m);
            assert_eq!((r - x) % m, 0);
        }
    }
}

#[test]
fn advance_wraps_on_every_edge() {
    let mut s = Snake::new(pt(0, 3));
    s.update_pos(4, 6);
    assert_eq!(s.pos_head, pt(3, 3));

    let mut s = Snake::new(pt(3, 3));
    s.heading = Heading::Right;
    s.update_pos(4, 6);
    assert_eq!(s.pos_head, pt(0, 3));

    let mut s = Snake::new(pt(2, 0));
    s.heading = Heading::Up;
    s.update_pos(4, 6);
    assert_eq!(s.pos_head, pt(2, 5));

    let mut s = Snake::new(pt(2, 5));
    s.heading = Heading::Down;
    s.update_pos(4, 6);
    assert_eq!(s.pos_head, pt(2, 0));
}

#[test]
fn advance_keeps_head_on_grid() {
    for heading in [Heading::Up, Heading::Down, Heading::Left, Heading::Right] {
        for x in 0..3 {
            for y in 0..4 {
                let mut s = Snake::new(pt(x, y));
                s.heading = heading;
                s.update_pos(3, 4);
                assert!(0 <= s.pos_head.x && s.pos_head.x < 3);
                assert!(0 <= s.pos_head.y && s.pos_head.y < 4);
            }
        }
    }
}

#[test]
fn advance_drags_body_along() {
    let mut s = Snake::new(pt(2, 2));
    s.pos_body = vec![pt(3, 2), pt(4, 2)];
    s.update_pos(10, 10);
    assert_eq!(s.pos_head, pt(1, 2));
    assert_eq!(s.pos_body, vec![pt(2, 2), pt(3, 2)]);
    assert_eq!(s.pos_prev, pt(2, 2));
}

#[test]
fn reverse_heading_is_ignored() {
    let mut s = Snake::new(pt(1, 1));
    s.heading = Heading::Right;
    s.set_heading(Heading::Left);
    assert_eq!(s.heading, Heading::Right);
    s.set_heading(Heading::Up);
    assert_eq!(s.heading, Heading::Up);
    s.set_heading(Heading::Down);
    assert_eq!(s.heading, Heading::Up);
    s.set_heading(Heading::Up);
    assert_eq!(s.heading, Heading::Up);
}

#[test]
fn opposite_pairs() {
    assert!(is_opposite(Heading::Up, Heading::Down));
    assert!(is_opposite(Heading::Down, Heading::Up));
    assert!(is_opposite(Heading::Left, Heading::Right));
    assert!(is_opposite(Heading::Right, Heading::Left));
    assert!(!is_opposite(Heading::Up, Heading::Up));
    assert!(!is_opposite(Heading::Up, Heading::Left));
    assert!(!is_opposite(Heading::Right, Heading::Down));
}

#[test]
fn growth_adds_the_previous_head_cell() {
    let mut s = Snake::new(pt(5, 5));
    s.pos_body = vec![pt(6, 5), pt(7, 5)];
    s.update_pos(10, 10);
    s.grow();
    assert_eq!(s.pos_body.len(), 3);
    assert_eq!(s.pos_body[2], pt(5, 5));
    assert_eq!(s.pos_head, pt(4, 5));

    let mut s = Snake::new(pt(0, 0));
    s.update_pos(3, 3);
    s.grow();
    assert_eq!(s.pos_body, vec![pt(0, 0)]);
}

#[test]
fn head_on_body_is_a_collision() {
    let mut s = Snake::new(pt(2, 2));
    assert!(!s.is_dead());
    s.pos_body = vec![pt(3, 2), pt(2, 2)];
    assert!(s.is_dead());
    s.pos_body = vec![pt(3, 2), pt(4, 2)];
    assert!(!s.is_dead());
}

#[test]
fn can_eat_only_on_the_apple() {
    let s = Snake::new(pt(2, 3));
    assert!(s.can_eat(&Apple::new(pt(2, 3))));
    assert!(!s.can_eat(&Apple::new(pt(3, 2))));
}

#[test]
fn respawn_avoids_forbidden_cell() {
    for _ in 0..10_000 {
        assert_eq!(Apple::spawn(2, 1, pt(0, 0)).pos, pt(1, 0));
    }
    let mut a = Apple::new(pt(0, 0));
    for _ in 0..10_000 {
        a.reposition(1, 2, pt(0, 1));
        assert_eq!(a.pos, pt(0, 0));
    }
}

#[test]
fn respawn_stays_on_grid() {
    let forbidden = pt(2, 1);
    for _ in 0..2_000 {
        let a = Apple::spawn(4, 3, forbidden);
        assert!(0 <= a.pos.x && a.pos.x < 4 && 0 <= a.pos.y && a.pos.y < 3);
        assert_ne!(a.pos, forbidden);
    }
}

#[test]
fn cell_avoiding_skips_forbidden_index() {
    assert_eq!(cell_avoiding(0, 3, 2, pt(0, 0)), pt(1, 0));
    assert_eq!(cell_avoiding(3, 3, 2, pt(1, 1)), pt(0, 1));
    assert_eq!(cell_avoiding(4, 3, 2, pt(1, 1)), pt(2, 1));
    assert_eq!(cell_avoiding(9, 3, 2, pt(1, 1)), pt(2, 1));
    assert_eq!(cell_avoiding(7, 3, 2, pt(-1, 0)), pt(1, 0));
    assert_eq!(cell_avoiding(u64::MAX, 2, 1, pt(1, 0)), pt(0, 0));
}

#[test]
fn random_points_stay_on_grid() {
    for _ in 0..2_000 {
        let p = rand_point2(7, 3);
        assert!(0 <= p.x && p.x < 7 && 0 <= p.y && p.y < 3);
    }
}

#[test]
fn new_game_rejects_degenerate_grids() {
    assert!(matches!(MainState::new(0, 5), Err(ConfigError::InvalidGrid)));
    assert!(matches!(MainState::new(5, -1), Err(ConfigError::InvalidGrid)));
    assert!(matches!(MainState::new(1, 1), Err(ConfigError::InvalidGrid)));
    assert!(MainState::new(2, 1).is_ok());
}

#[test]
fn new_game_starts_fresh() {
    for _ in 0..500 {
        let g = MainState::new(40, 40).ok().unwrap();
        assert!(!g.is_over);
        assert_eq!(g.snake.heading, Heading::Left);
        assert!(g.snake.pos_body.is_empty());
        assert_ne!(g.snake.pos_head, g.apple.pos);
        assert!(0 <= g.apple.pos.x && g.apple.pos.x < 40);
        assert!(0 <= g.snake.pos_head.y && g.snake.pos_head.y < 40);
    }
}

#[test]
fn tick_moves_without_eating() {
    let mut g = state(pt(2, 2), Heading::Left, vec![], pt(0, 0), 5, 5);
    g.update();
    assert_eq!(g.snake.pos_head, pt(1, 2));
    assert!(!g.is_over);
    assert!(g.snake.pos_body.is_empty());
    assert_eq!(g.apple.pos, pt(0, 0));
}

#[test]
fn tick_eats_and_grows() {
    let mut g = state(pt(1, 2), Heading::Left, vec![], pt(0, 2), 5, 5);
    g.update();
    assert_eq!(g.snake.pos_head, pt(0, 2));
    assert!(g.snake.can_eat(&Apple::new(pt(0, 2))));
    assert_eq!(g.snake.pos_body, vec![pt(1, 2)]);
    assert_ne!(g.apple.pos, pt(0, 2));
    assert!(!g.is_over);
}

#[test]
fn tick_detects_self_collision() {
    let body = vec![pt(2, 1), pt(1, 1), pt(1, 2), pt(1, 3)];
    let mut g = state(pt(2, 2), Heading::Left, body.clone(), pt(1, 2), 5, 5);
    g.update();
    assert!(g.is_over);
    assert_eq!(g.snake.pos_head, pt(1, 2));
    assert_eq!(g.snake.pos_body, vec![pt(2, 2), pt(2, 1), pt(1, 1), pt(1, 2)]);
    assert_eq!(g.apple.pos, pt(1, 2));
}

#[test]
fn game_over_ignores_ticks_until_restart() {
    let mut g = state(pt(3, 3), Heading::Up, vec![pt(3, 4)], pt(0, 0), 6, 6);
    g.is_over = true;
    for _ in 0..10 {
        g.update();
        assert_eq!(g.snake.pos_head, pt(3, 3));
        assert_eq!(g.snake.pos_body, vec![pt(3, 4)]);
        assert!(g.is_over);
    }
    assert!(!g.handle_input(Input::Restart));
    assert!(!g.is_over);
    assert!(g.snake.pos_body.is_empty());
    assert_eq!(g.snake.heading, Heading::Left);
    assert_ne!(g.snake.pos_head, g.apple.pos);
    assert_eq!((g.grid_width, g.grid_height), (6, 6));
}

#[test]
fn inputs_while_playing() {
    let mut g = state(pt(3, 3), Heading::Left, vec![pt(4, 3)], pt(0, 0), 6, 6);
    assert!(!g.handle_input(Input::Turn(Heading::Right)));
    assert_eq!(g.snake.heading, Heading::Left);
    assert!(!g.handle_input(Input::Turn(Heading::Up)));
    assert_eq!(g.snake.heading, Heading::Up);
    assert!(!g.handle_input(Input::Restart));
    assert_eq!(g.snake.pos_head, pt(3, 3));
    assert_eq!(g.snake.pos_body, vec![pt(4, 3)]);
    assert!(!g.handle_input(Input::Quit));
    g.is_over = true;
    assert!(g.handle_input(Input::Quit));
}
