use ratsnake::command::{InputEvent, KeyCode, KeyEvent, Modifiers};
use ratsnake::direction::Direction;
use ratsnake::game::{new_high_score, Game, GameState, Globals};
use ratsnake::geom::Position;
use ratsnake::options::{FruitQty, LevelSize, Options};
use ratsnake::rng::GameRng;
use ratsnake::warning::Warning;
use ratsnake::{INITIAL_SNAKE_LENGTH, SNAKE_GROWTH};

const RNG_SEED: u64 = 0x0123456789ABCDEF;

fn key(code: KeyCode) -> InputEvent {
    InputEvent::Key(KeyEvent { mods: Modifiers::Empty, code })
}

fn dir_key(d: Direction) -> KeyCode {
    match d {
        Direction::North => KeyCode::Up,
        Direction::South => KeyCode::Down,
        Direction::East => KeyCode::Right,
        Direction::West => KeyCode::Left,
    }
}

fn new_game(options: Options, seed: u64) -> Game {
    let globals = Globals { options, ..Globals::default() };
    Game::new_with_rng(globals, GameRng::from_seed(seed))
}

fn wrapping_options() -> Options {
    Options { wraparound: true, ..Options::default() }
}

/// Steer one step roughly towards the first fruit, never reversing into
/// the snake's own neck.
fn step_toward_fruit(game: &mut Game) {
    let head = game.snake().head();
    let fruit = game.fruits()[0];
    let cur = game.snake().direction();
    let mut cands: Vec<Direction> = Vec::new();
    if fruit.x != head.x {
        cands.push(if fruit.x > head.x { Direction::East } else { Direction::West });
    }
    if fruit.y != head.y {
        cands.push(if fruit.y > head.y { Direction::South } else { Direction::North });
    }
    cands.extend([Direction::North, Direction::East, Direction::South, Direction::West]);
    for d in cands {
        if d != cur.reverse() {
            let _ = game.handle_event(key(dir_key(d)));
            game.advance();
            return;
        }
    }
    unreachable!();
}

/// Drive the snake until it has eaten its first fruit.
fn eat_first_fruit(game: &mut Game) {
    let mut steps = 0;
    while game.score() == 0 {
        assert!(matches!(game.state(), GameState::Running));
        step_toward_fruit(game);
        steps += 1;
        assert!(steps < 2000, "snake failed to reach the fruit");
    }
}

#[test]
fn game_new_game() {
    let game = new_game(Options::default(), RNG_SEED);
    assert_eq!(game.score(), 0);
    assert!(matches!(game.state(), GameState::Running));
    assert_eq!(game.snake().head(), Position::new(38, 9));
    assert_eq!(game.snake().direction(), Direction::North);
    assert!(game.snake().body().is_empty());
    assert_eq!(game.snake().max_len(), INITIAL_SNAKE_LENGTH);
    assert_eq!(game.fruits().len(), 1);
    assert_eq!(game.high_score(), None);
    assert!(game.map().obstacles().is_empty());
}

#[test]
fn game_new_wraparound_game() {
    let game = new_game(wrapping_options(), RNG_SEED);
    assert!(game.map().wrap());
    assert_eq!(game.snake().head(), Position::new(38, 9));
    assert_eq!(game.fruits().len(), 1);
}

#[test]
fn game_new_medium_game() {
    let options = Options { level_size: LevelSize::Medium, ..Options::default() };
    let game = new_game(options, RNG_SEED);
    assert_eq!(game.snake().head(), Position::new(26, 6));
    let b = game.map().bounds();
    assert_eq!((b.width, b.height), (53, 12));
    for f in game.fruits() {
        assert!(f.x < b.width && f.y < b.height);
    }
}

#[test]
fn edge_collision_dies() {
    // head starts at (38, 9) facing north on a 76x19 board without
    // wraparound; ten steps up hits the top edge and the round ends
    let mut game = new_game(Options::default(), RNG_SEED);
    for _ in 0..9 {
        game.advance();
        assert!(matches!(game.state(), GameState::Running));
    }
    game.advance();
    match game.state() {
        GameState::Dead(pm) => {
            assert!(!pm.new_high_score);
            assert!(pm.warning.is_none());
        }
        other => panic!("expected a dead game, got {:?}", other),
    }
    // the snake did not move off the board
    assert_eq!(game.snake().head(), Position::new(38, 0));
}

#[test]
fn wraparound_keeps_running() {
    // the same ten steps with wraparound cross the edge and re-enter
    let mut game = new_game(wrapping_options(), RNG_SEED);
    for _ in 0..10 {
        game.advance();
    }
    // unless the snake happened to eat, it is still alive near the
    // opposite edge
    assert!(matches!(game.state(), GameState::Running));
    assert_eq!(game.snake().head().x, 38);
    assert_eq!(game.snake().head().y, 18);
}

#[test]
fn game_eat_fruit() {
    let mut game = new_game(wrapping_options(), RNG_SEED);
    eat_first_fruit(&mut game);
    assert_eq!(game.score(), 1);
    assert_eq!(game.snake().max_len(), INITIAL_SNAKE_LENGTH + SNAKE_GROWTH);
    // exactly one replacement fruit was placed
    assert_eq!(game.fruits().len(), 1);
    assert!(matches!(game.state(), GameState::Running));
}

#[test]
fn game_self_collision() {
    let mut game = new_game(wrapping_options(), RNG_SEED);
    // grow once so that the body is long enough to hit
    eat_first_fruit(&mut game);
    // circle a two-by-two square until the head bites the trail
    let mut steps = 0;
    while matches!(game.state(), GameState::Running) {
        let left = match game.snake().direction() {
            Direction::North => Direction::West,
            Direction::West => Direction::South,
            Direction::South => Direction::East,
            Direction::East => Direction::North,
        };
        let _ = game.handle_event(key(dir_key(left)));
        game.advance();
        steps += 1;
        assert!(steps < 30, "snake failed to bite itself");
    }
    assert!(matches!(game.state(), GameState::Dead(_)));
    // the head really is on a body cell
    let head = game.snake().head();
    assert!(game.snake().body().contains(&head));
}

#[test]
fn death_with_score_sets_high_score() {
    let mut game = new_game(wrapping_options(), RNG_SEED);
    eat_first_fruit(&mut game);
    let mut steps = 0;
    while matches!(game.state(), GameState::Running) {
        let left = match game.snake().direction() {
            Direction::North => Direction::West,
            Direction::West => Direction::South,
            Direction::South => Direction::East,
            Direction::East => Direction::North,
        };
        let _ = game.handle_event(key(dir_key(left)));
        game.advance();
        steps += 1;
        assert!(steps < 30);
    }
    let score = game.score();
    assert!(score >= 1);
    match game.state() {
        GameState::Dead(pm) => assert!(pm.new_high_score),
        other => panic!("expected a dead game, got {:?}", other),
    }
    let opts = game.globals().options;
    assert_eq!(game.globals().high_scores.get(opts), Some(score));
}

#[test]
fn determinism_same_seed_same_run() {
    let script = |game: &mut Game| {
        let mut snapshots = Vec::new();
        for i in 0..60 {
            if i % 7 == 3 {
                let left = match game.snake().direction() {
                    Direction::North => Direction::West,
                    Direction::West => Direction::South,
                    Direction::South => Direction::East,
                    Direction::East => Direction::North,
                };
                let _ = game.handle_event(key(dir_key(left)));
            }
            game.advance();
            let body: Vec<Position> = game.snake().body().iter().copied().collect();
            let state_tag = match game.state() {
                GameState::Running => 0,
                GameState::Paused(_) => 1,
                GameState::Dead(_) => 2,
                GameState::Exhausted(_) => 3,
            };
            snapshots.push((
                game.snake().head(),
                body,
                game.fruits().clone(),
                game.score(),
                state_tag,
            ));
        }
        snapshots
    };
    let mut game1 = new_game(wrapping_options(), RNG_SEED);
    let mut game2 = new_game(wrapping_options(), RNG_SEED);
    assert_eq!(script(&mut game1), script(&mut game2));
}

#[test]
fn different_seeds_place_different_fruits() {
    // not guaranteed in principle, but these two seeds differ in practice,
    // which guards against the seed being ignored
    let game1 = new_game(wrapping_options(), 1);
    let game2 = new_game(wrapping_options(), 2);
    let game1b = new_game(wrapping_options(), 1);
    assert_eq!(game1.fruits(), game1b.fruits());
    assert_ne!(game1.fruits(), game2.fruits());
}

#[test]
fn obstacles_in_bounds_with_clearance() {
    let options = Options { obstacles: true, ..Options::default() };
    for seed in 0..20u64 {
        let game = new_game(options, seed);
        let b = game.map().bounds();
        for p in game.map().obstacles() {
            assert!(b.contains(*p));
        }
        // the forward clearance lane runs north from the start cell,
        // the backward lane runs south; both must be free of obstacles
        let start = Position::new(38, 9);
        for i in 0..7u16 {
            let p = Position::new(start.x, start.y - i);
            assert!(!game.map().obstacles().contains(&p), "seed {seed}");
        }
        for i in 0..3u16 {
            let p = Position::new(start.x, start.y + i);
            assert!(!game.map().obstacles().contains(&p), "seed {seed}");
        }
        // fruits avoid obstacles and the snake
        for f in game.fruits() {
            assert!(!game.map().obstacles().contains(f));
            assert_ne!(*f, game.snake().head());
        }
    }
}

#[test]
fn pause_resume_restart() {
    let mut game = new_game(Options::default(), RNG_SEED);
    assert!(game.handle_event(key(KeyCode::Esc)).is_none());
    assert!(matches!(game.state(), GameState::Paused(_)));
    // ticks do nothing while paused
    let head = game.snake().head();
    game.advance();
    assert_eq!(game.snake().head(), head);
    // Esc resumes
    assert!(game.handle_event(key(KeyCode::Esc)).is_none());
    assert!(matches!(game.state(), GameState::Running));
    // losing focus pauses too, and `r` asks for a restart
    assert!(game.handle_event(InputEvent::FocusLost).is_none());
    assert!(matches!(game.state(), GameState::Paused(_)));
    let r = game.handle_event(key(KeyCode::Char('r')));
    assert_eq!(r, Some(ratsnake::game::GameRequest::Restart));
}

#[test]
fn turn_changes_direction() {
    let mut game = new_game(Options::default(), RNG_SEED);
    assert!(game.handle_event(key(KeyCode::Left)).is_none());
    assert_eq!(game.snake().direction(), Direction::West);
    assert!(game.handle_event(key(KeyCode::Char('j'))).is_none());
    assert_eq!(game.snake().direction(), Direction::South);
}

#[test]
fn test_new_high_score() {
    assert_eq!(new_high_score(0, None), None);
    assert_eq!(new_high_score(1, None), Some(1));
    assert_eq!(new_high_score(42, None), Some(42));
    assert_eq!(new_high_score(0, Some(1)), None);
    assert_eq!(new_high_score(1, Some(1)), None);
    assert_eq!(new_high_score(1, Some(42)), None);
    assert_eq!(new_high_score(42, Some(42)), None);
    assert_eq!(new_high_score(42, Some(1)), Some(42));
}

#[test]
fn game_uses_stored_high_score() {
    let mut globals = Globals::default();
    globals.options = wrapping_options();
    globals.high_scores.set(globals.options, 42);
    let game = Game::new_with_rng(globals, GameRng::from_seed(RNG_SEED));
    assert_eq!(game.high_score(), Some(42));
}

#[test]
fn game_over_keys() {
    // drive the snake into the top edge, then leave the round
    let mut game = new_game(Options::default(), RNG_SEED);
    for _ in 0..10 {
        game.advance();
    }
    assert!(matches!(game.state(), GameState::Dead(_)));
    // unmapped keys do nothing
    assert!(game.handle_event(key(KeyCode::Char('x'))).is_none());
    assert_eq!(
        game.handle_event(key(KeyCode::Char('m'))),
        Some(ratsnake::game::GameRequest::MainMenu)
    );
    assert_eq!(
        game.handle_event(key(KeyCode::Char('q'))),
        Some(ratsnake::game::GameRequest::Quit)
    );
}

#[test]
fn attached_warning_is_dismissable() {
    let mut game = new_game(Options::default(), RNG_SEED);
    for _ in 0..10 {
        game.advance();
    }
    assert!(matches!(game.state(), GameState::Dead(_)));
    let warning = Warning::from_lines(vec![String::from("Failed to save high scores to disk")]);
    game.attach_warning(warning);
    match game.state() {
        GameState::Dead(pm) => assert!(pm.warning.is_some()),
        other => panic!("expected a dead game, got {:?}", other),
    }
    // while the warning is up, the restart key only scrolls or is
    // swallowed; Enter dismisses the pop-up
    assert!(game.handle_event(key(KeyCode::Char('r'))).is_none());
    assert!(game.handle_event(key(KeyCode::Enter)).is_none());
    match game.state() {
        GameState::Dead(pm) => assert!(pm.warning.is_none()),
        other => panic!("expected a dead game, got {:?}", other),
    }
    // with the warning gone, the restart key works again
    assert_eq!(
        game.handle_event(key(KeyCode::Char('r'))),
        Some(ratsnake::game::GameRequest::Restart)
    );
}

#[test]
fn fruit_quantity_is_respected() {
    let options = Options {
        fruits: FruitQty::new(10).unwrap(),
        ..Options::default()
    };
    let game = new_game(options, RNG_SEED);
    assert_eq!(game.fruits().len(), 10);
    // all fruits distinct
    for (i, a) in game.fruits().iter().enumerate() {
        for b in game.fruits().iter().skip(i + 1) {
            assert_ne!(a, b);
        }
    }
}
