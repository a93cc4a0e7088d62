use ratsnake::command::{Command, KeyCode, KeyEvent, Modifiers};
use ratsnake::direction::Direction;
use ratsnake::game::Globals;
use ratsnake::geom::{Bounds, Position};
use ratsnake::highscores::{HighScoreEntry, HighScores};
use ratsnake::options::{LevelSize, Options};
use ratsnake::paused::{PauseOpt, Paused};
use ratsnake::snake::Snake;
use ratsnake::warning::{Warning, WarningOutcome};

fn press(mods: Modifiers, code: KeyCode) -> KeyEvent {
    KeyEvent { mods, code }
}

#[test]
fn command_mapping() {
    let none = Modifiers::Empty;
    assert_eq!(
        Command::from_key_event(press(Modifiers::Control, KeyCode::Char('c'))),
        Some(Command::Quit)
    );
    for c in ['w', 'k', '8'] {
        assert_eq!(Command::from_key_event(press(none, KeyCode::Char(c))), Some(Command::Up));
    }
    for c in ['s', 'j', '2'] {
        assert_eq!(Command::from_key_event(press(none, KeyCode::Char(c))), Some(Command::Down));
    }
    for c in ['a', 'h', '4'] {
        assert_eq!(Command::from_key_event(press(none, KeyCode::Char(c))), Some(Command::Left));
    }
    for c in ['d', 'l', '6'] {
        assert_eq!(Command::from_key_event(press(none, KeyCode::Char(c))), Some(Command::Right));
    }
    assert_eq!(Command::from_key_event(press(none, KeyCode::Up)), Some(Command::Up));
    assert_eq!(Command::from_key_event(press(none, KeyCode::Char(' '))), Some(Command::Space));
    assert_eq!(
        Command::from_key_event(press(Modifiers::Other, KeyCode::Enter)),
        Some(Command::Enter)
    );
    assert_eq!(
        Command::from_key_event(press(Modifiers::Other, KeyCode::BackTab)),
        Some(Command::Prev)
    );
    assert_eq!(Command::from_key_event(press(none, KeyCode::Esc)), Some(Command::Esc));
    assert_eq!(Command::from_key_event(press(none, KeyCode::Char('x'))), None);
    assert_eq!(Command::from_key_event(press(Modifiers::Control, KeyCode::Char('q'))), None);
    assert_eq!(Command::from_key_event(press(Modifiers::Other, KeyCode::Char('m'))), None);
}

#[test]
fn paused_navigation() {
    let mut p = Paused::new();
    assert_eq!(p.selection(), PauseOpt::Resume);
    assert_eq!(p.handle_command(Command::Down), None);
    assert_eq!(p.selection(), PauseOpt::Restart);
    assert_eq!(p.handle_command(Command::End), None);
    assert_eq!(p.selection(), PauseOpt::Quit);
    assert_eq!(p.handle_command(Command::Down), None);
    assert_eq!(p.selection(), PauseOpt::Quit);
    assert_eq!(p.handle_command(Command::Next), None);
    assert_eq!(p.selection(), PauseOpt::Resume);
    assert_eq!(p.handle_command(Command::Prev), None);
    assert_eq!(p.selection(), PauseOpt::Quit);
    assert_eq!(p.handle_command(Command::Enter), Some(PauseOpt::Quit));
    assert_eq!(p.handle_command(Command::Esc), Some(PauseOpt::Resume));
    assert_eq!(p.handle_command(Command::R), Some(PauseOpt::Restart));
    assert_eq!(p.handle_command(Command::M), Some(PauseOpt::MainMenu));
    assert_eq!(p.handle_command(Command::Q), Some(PauseOpt::Quit));
}

#[test]
fn warning_dismiss_and_quit() {
    let mut w = Warning::from_lines(vec![String::from("Terminal broke")]);
    assert!(!w.scrolling());
    assert_eq!(w.handle_command(Command::Down), None);
    assert_eq!(w.scroll_offset(), 0);
    assert_eq!(w.handle_command(Command::Enter), Some(WarningOutcome::Dismissed));
    assert_eq!(w.handle_command(Command::Quit), Some(WarningOutcome::Quit));
}

#[test]
fn warning_scrolling() {
    let lines: Vec<String> = (0..20).map(|i| format!("line {i}")).collect();
    let mut w = Warning::from_lines(lines);
    assert!(w.scrolling());
    assert_eq!(w.max_scroll(), 5);
    assert_eq!(w.handle_command(Command::Up), None);
    assert_eq!(w.scroll_offset(), 0);
    for _ in 0..10 {
        assert_eq!(w.handle_command(Command::Down), None);
    }
    // the offset stops one short of the scroll bound
    assert_eq!(w.scroll_offset(), 4);
    assert_eq!(w.handle_command(Command::Up), None);
    assert_eq!(w.scroll_offset(), 3);
}

#[test]
fn high_scores_get_set() {
    let mut hs = HighScores::default();
    let opts1 = Options::default();
    let opts2 = Options { wraparound: true, ..Options::default() };
    assert_eq!(hs.get(opts1), None);
    hs.set(opts1, 10);
    hs.set(opts2, 3);
    assert_eq!(hs.get(opts1), Some(10));
    assert_eq!(hs.get(opts2), Some(3));
    hs.set(opts1, 12);
    assert_eq!(hs.get(opts1), Some(12));
    assert_eq!(hs.get(opts2), Some(3));
}

#[test]
fn high_scores_json_roundtrip() {
    let mut hs = HighScores::default();
    let opts1 = Options::default();
    let opts2 = Options { level_size: LevelSize::Small, ..Options::default() };
    hs.set(opts1, 7);
    hs.set(opts2, 9);
    let array = hs.to_json_array();
    assert_eq!(array.len(), 2);
    let restored = HighScores::from_json_array(array);
    assert_eq!(restored.get(opts1), Some(7));
    assert_eq!(restored.get(opts2), Some(9));
}

#[test]
fn high_scores_later_entry_wins() {
    let opts = Options::default();
    let array = vec![
        HighScoreEntry { options: opts, score: 5 },
        HighScoreEntry { options: opts, score: 8 },
    ];
    let hs = HighScores::from_json_array(array);
    assert_eq!(hs.get(opts), Some(8));
}

#[test]
fn snake_advances_and_trims() {
    let b = Bounds::new(10, 10, false);
    let mut s = Snake::new(Position::new(5, 5), Direction::North);
    assert!(s.body().is_empty());
    assert!(s.advance(b));
    assert_eq!(s.head(), Position::new(5, 4));
    assert_eq!(s.body().len(), 1);
    assert!(s.advance(b));
    assert!(s.advance(b));
    assert!(s.advance(b));
    // the trail is capped at the target length
    assert_eq!(s.body().len(), 3);
    assert_eq!(s.head(), Position::new(5, 1));
    assert!(s.advance(b));
    assert_eq!(s.head(), Position::new(5, 0));
    // the next step hits the edge: no movement, no mutation
    assert!(!s.advance(b));
    assert_eq!(s.head(), Position::new(5, 0));
    assert_eq!(s.body().len(), 3);
}

#[test]
fn snake_grows_lazily() {
    let b = Bounds::new(20, 20, false);
    let mut s = Snake::new(Position::new(10, 10), Direction::East);
    for _ in 0..5 {
        assert!(s.advance(b));
    }
    assert_eq!(s.body().len(), 3);
    s.grow();
    assert_eq!(s.max_len(), 6);
    // the body is not extended at once; it catches up step by step
    assert_eq!(s.body().len(), 3);
    for _ in 0..3 {
        assert!(s.advance(b));
    }
    assert_eq!(s.body().len(), 6);
    assert!(s.advance(b));
    assert_eq!(s.body().len(), 6);
}

#[test]
fn snake_turn_and_symbols() {
    let mut s = Snake::new(Position::new(3, 3), Direction::North);
    assert_eq!(s.head_symbol(), 'v');
    s.turn(Direction::East);
    assert_eq!(s.head_symbol(), '<');
    s.turn(Direction::South);
    assert_eq!(s.head_symbol(), '^');
    s.turn(Direction::West);
    assert_eq!(s.head_symbol(), '>');
}

#[test]
fn globals_default_is_well_formed() {
    let g = Globals::default();
    assert!(!g.options.wraparound);
    assert!(!g.options.obstacles);
    assert_eq!(g.options.fruits.get(), 1);
    assert_eq!(g.options.level_size, LevelSize::Large);
    assert_eq!(g.high_scores.get(g.options), None);
}
