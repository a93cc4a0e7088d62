use ratsnake::options::{FruitQty, LevelSize, OptKey, OptValue, Options};
use ratsnake::MAX_FRUITS;

#[test]
fn options_display_width() {
    let keys = [OptKey::Wraparound, OptKey::Obstacles, OptKey::Fruits, OptKey::LevelSize];
    let actual_width = keys.iter().map(|key| key.as_str().chars().count()).max().unwrap();
    assert_eq!(actual_width, usize::from(OptKey::DISPLAY_WIDTH));

    let values = [
        OptValue::Bool(false),
        OptValue::Bool(true),
        OptValue::FruitQty(FruitQty::new(1).unwrap()),
        OptValue::FruitQty(FruitQty::new(MAX_FRUITS).unwrap()),
        OptValue::LevelSize(LevelSize::Small),
        OptValue::LevelSize(LevelSize::Medium),
        OptValue::LevelSize(LevelSize::Large),
    ];
    assert!(values
        .iter()
        .all(|value| value.display().chars().count() == usize::from(OptValue::DISPLAY_WIDTH)));
}

#[test]
fn options_fmt_width() {
    assert_eq!(
        OptKey::Fruits.padded(usize::from(OptKey::DISPLAY_WIDTH)),
        "Fruits    "
    );
    assert_eq!(LevelSize::Small.padded(6), "Small ");
}

#[test]
fn display_values() {
    assert_eq!(OptValue::Bool(false).display(), "   [ ]    ");
    assert_eq!(OptValue::Bool(true).display(), "   [\u{2713}]    ");
    assert_eq!(
        OptValue::FruitQty(FruitQty::new(1).unwrap()).display(),
        "\u{25c1}   1    \u{25b6}"
    );
    assert_eq!(
        OptValue::FruitQty(FruitQty::new(10).unwrap()).display(),
        "\u{25c0}   10   \u{25b7}"
    );
    assert_eq!(
        OptValue::LevelSize(LevelSize::Large).display(),
        "\u{25c0} Large  \u{25b7}"
    );
}

#[test]
fn fruit_qty_bounds() {
    assert!(FruitQty::new(0).is_none());
    assert!(FruitQty::new(11).is_none());
    for qty in 1..=MAX_FRUITS {
        assert_eq!(FruitQty::new(qty).unwrap().get(), qty);
    }
    assert_eq!(FruitQty::default().get(), 1);
}

#[test]
fn fruit_qty_adjust() {
    let mut q = FruitQty::new(1).unwrap();
    assert!(!q.can_decrease());
    assert!(q.can_increase());
    q.decrease();
    assert_eq!(q.get(), 1);
    q.increase();
    assert_eq!(q.get(), 2);
    let mut q = FruitQty::new(MAX_FRUITS).unwrap();
    assert!(!q.can_increase());
    q.increase();
    assert_eq!(q.get(), MAX_FRUITS);
    q.decrease();
    assert_eq!(q.get(), MAX_FRUITS - 1);
}

#[test]
fn level_size_adjust() {
    let mut s = LevelSize::Small;
    assert!(!s.can_decrease());
    s.decrease();
    assert_eq!(s, LevelSize::Small);
    s.increase();
    assert_eq!(s, LevelSize::Medium);
    s.increase();
    assert_eq!(s, LevelSize::Large);
    assert!(!s.can_increase());
    s.increase();
    assert_eq!(s, LevelSize::Large);
}

#[test]
fn level_bounds_tables() {
    let mut opts = Options::default();
    assert_eq!(opts.level_bounds().width, 76);
    assert_eq!(opts.level_bounds().height, 19);
    assert!(!opts.level_bounds().wrap);
    opts.level_size = LevelSize::Small;
    opts.wraparound = true;
    assert_eq!(opts.level_bounds().width, 38);
    assert_eq!(opts.level_bounds().height, 8);
    assert!(opts.level_bounds().wrap);
    opts.level_size = LevelSize::Medium;
    assert_eq!(opts.level_bounds().width, 53);
    assert_eq!(opts.level_bounds().height, 12);
}

#[test]
fn get_set_roundtrip() {
    let mut opts = Options::default();
    opts.set(OptKey::Wraparound, OptValue::Bool(true));
    opts.set(OptKey::Fruits, OptValue::FruitQty(FruitQty::new(7).unwrap()));
    opts.set(OptKey::LevelSize, OptValue::LevelSize(LevelSize::Small));
    assert_eq!(opts.get(OptKey::Wraparound), OptValue::Bool(true));
    assert_eq!(opts.get(OptKey::Obstacles), OptValue::Bool(false));
    assert_eq!(opts.get(OptKey::Fruits), OptValue::FruitQty(FruitQty::new(7).unwrap()));
    assert_eq!(opts.get(OptKey::LevelSize), OptValue::LevelSize(LevelSize::Small));
}
