use ratsnake::command::{InputEvent, KeyCode, KeyEvent, Modifiers};
use ratsnake::game::Globals;
use ratsnake::menu::{MainMenu, MenuRequest, MenuState, OptionsMenu, Selection};
use ratsnake::options::{FruitQty, LevelSize, OptKey, Options};
use ratsnake::warning::Warning;

fn key(code: KeyCode) -> InputEvent {
    InputEvent::Key(KeyEvent { mods: Modifiers::Empty, code })
}

#[test]
fn tab_wraparound() {
    let mut menu = MainMenu::new(Globals::default());
    assert_eq!(menu.opts_menu.selection, None);
    for _ in 0..4 {
        assert!(menu.handle_event(key(KeyCode::Tab)).is_none());
    }
    assert_eq!(menu.opts_menu.selection, Some(OptKey::LevelSize));
    assert!(menu.handle_event(key(KeyCode::Tab)).is_none());
    assert_eq!(menu.opts_menu.selection, None);
    assert!(menu.handle_event(key(KeyCode::Tab)).is_none());
    assert!(menu.handle_event(key(KeyCode::Tab)).is_none());
    assert_eq!(menu.opts_menu.selection, Some(OptKey::Wraparound));
}

#[test]
fn mod_roundtrip_defaults() {
    let opts = Options::default();
    let optmenu = OptionsMenu::new(opts);
    assert_eq!(optmenu.to_options(), opts);
}

#[test]
fn mod_roundtrip_custom() {
    let opts = Options {
        wraparound: true,
        obstacles: true,
        fruits: FruitQty::new(4).unwrap(),
        level_size: LevelSize::Small,
    };
    let optmenu = OptionsMenu::new(opts);
    assert_eq!(optmenu.to_options(), opts);
}

#[test]
fn startup_roundtrip_defaults() {
    let opts = Options::default();
    let optmenu = OptionsMenu::new(opts);
    assert_eq!(optmenu.to_options(), opts);
}

#[test]
fn startup_roundtrip_custom() {
    let opts = Options {
        wraparound: true,
        obstacles: true,
        fruits: FruitQty::new(4).unwrap(),
        level_size: LevelSize::Small,
    };
    let optmenu = OptionsMenu::new(opts);
    assert_eq!(optmenu.to_options(), opts);
}

#[test]
fn interact_options() {
    // walk into the options, toggle wraparound, then shrink the level
    // size twice, mirroring a user session in the options editor
    let mut menu = MainMenu::new(Globals::default());
    assert!(menu.handle_event(key(KeyCode::Down)).is_none());
    assert_eq!(menu.selection, Selection::Options);
    assert_eq!(menu.opts_menu.selection, Some(OptKey::Wraparound));
    assert!(menu.handle_event(key(KeyCode::Char(' '))).is_none());
    assert!(menu.opts_menu.settings.wraparound);
    for _ in 0..3 {
        assert!(menu.handle_event(key(KeyCode::Down)).is_none());
    }
    assert_eq!(menu.opts_menu.selection, Some(OptKey::LevelSize));
    assert!(menu.handle_event(key(KeyCode::Char(' '))).is_none());
    assert_eq!(menu.opts_menu.settings.level_size, LevelSize::Large);
    assert!(menu.handle_event(key(KeyCode::Left)).is_none());
    assert_eq!(menu.opts_menu.settings.level_size, LevelSize::Medium);
    assert!(menu.handle_event(key(KeyCode::Left)).is_none());
    assert_eq!(menu.opts_menu.settings.level_size, LevelSize::Small);
    assert!(menu.handle_event(key(KeyCode::Left)).is_none());
    assert_eq!(menu.opts_menu.settings.level_size, LevelSize::Small);
}

#[test]
fn play_updates_globals() {
    let mut menu = MainMenu::new(Globals::default());
    assert!(menu.handle_event(key(KeyCode::Down)).is_none());
    assert!(menu.handle_event(key(KeyCode::Char(' '))).is_none());
    let r = menu.handle_event(key(KeyCode::Char('p')));
    assert_eq!(r, Some(MenuRequest::Play));
    assert!(menu.globals.options.wraparound);
}

#[test]
fn quit_paths() {
    let mut menu = MainMenu::new(Globals::default());
    assert_eq!(menu.handle_event(key(KeyCode::Char('q'))), Some(MenuRequest::Quit));
    let mut menu = MainMenu::new(Globals::default());
    let ctrl_c = InputEvent::Key(KeyEvent { mods: Modifiers::Control, code: KeyCode::Char('c') });
    assert_eq!(menu.handle_event(ctrl_c), Some(MenuRequest::Quit));
}

#[test]
fn save_warning_flow() {
    let mut menu = MainMenu::new(Globals::default());
    let r = menu.handle_event(key(KeyCode::Char('p')));
    assert_eq!(r, Some(MenuRequest::Play));
    let warning = Warning::from_lines(vec![String::from("Failed to save options to disk")]);
    menu.save_failed(warning);
    assert!(matches!(menu.state, MenuState::SaveWarning(_)));
    // an unrelated key scrolls or does nothing, then Enter plays anyway
    assert!(menu.handle_event(key(KeyCode::Down)).is_none());
    assert_eq!(menu.handle_event(key(KeyCode::Enter)), Some(MenuRequest::Play));
}
