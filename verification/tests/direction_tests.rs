use ratsnake::direction::Direction;
use ratsnake::geom::{Bounds, Position};

fn bounds(wrap: bool) -> Bounds {
    Bounds::new(10, 15, wrap)
}

#[test]
fn advance_interior() {
    let b = bounds(false);
    let p = Position::new(2, 7);
    assert_eq!(Direction::North.advance(p, b), Some(Position::new(2, 6)));
    assert_eq!(Direction::South.advance(p, b), Some(Position::new(2, 8)));
    assert_eq!(Direction::East.advance(p, b), Some(Position::new(3, 7)));
    assert_eq!(Direction::West.advance(p, b), Some(Position::new(1, 7)));
}

#[test]
fn advance_north_edge() {
    assert_eq!(Direction::North.advance(Position::new(2, 0), bounds(false)), None);
    assert_eq!(
        Direction::North.advance(Position::new(2, 0), bounds(true)),
        Some(Position::new(2, 14))
    );
}

#[test]
fn advance_south_edge() {
    assert_eq!(Direction::South.advance(Position::new(2, 14), bounds(false)), None);
    assert_eq!(
        Direction::South.advance(Position::new(2, 14), bounds(true)),
        Some(Position::new(2, 0))
    );
}

#[test]
fn advance_east_edge() {
    assert_eq!(Direction::East.advance(Position::new(9, 7), bounds(false)), None);
    assert_eq!(
        Direction::East.advance(Position::new(9, 7), bounds(true)),
        Some(Position::new(0, 7))
    );
}

#[test]
fn advance_west_edge() {
    assert_eq!(Direction::West.advance(Position::new(0, 7), bounds(false)), None);
    assert_eq!(
        Direction::West.advance(Position::new(0, 7), bounds(true)),
        Some(Position::new(9, 7))
    );
}

#[test]
fn advance_wrap_never_fails_on_edges() {
    let b = bounds(true);
    for dir in [Direction::North, Direction::South, Direction::East, Direction::West] {
        for x in [0u16, 9] {
            for y in [0u16, 14] {
                assert!(dir.advance(Position::new(x, y), b).is_some());
            }
        }
    }
}

#[test]
fn reverse_is_opposite() {
    assert_eq!(Direction::North.reverse(), Direction::South);
    assert_eq!(Direction::South.reverse(), Direction::North);
    assert_eq!(Direction::East.reverse(), Direction::West);
    assert_eq!(Direction::West.reverse(), Direction::East);
}
