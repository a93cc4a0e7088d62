use ratsnake::logo::Logo;

#[test]
fn logo_rat_width() {
    assert!(Logo::rat_lines()
        .iter()
        .all(|ln| ln.len() == usize::from(Logo::RAT_WIDTH)));
}

#[test]
fn logo_snake_width() {
    assert!(Logo::snake_lines()
        .iter()
        .all(|ln| ln.len() == usize::from(Logo::SNAKE_WIDTH)));
}

#[test]
fn height() {
    assert_eq!(Logo::rat_lines().len(), usize::from(Logo::TEXT_HEIGHT));
    assert_eq!(Logo::snake_lines().len(), usize::from(Logo::TEXT_HEIGHT));
}

#[test]
fn widgets_rat_width() {
    assert!(Logo::rat_lines()
        .iter()
        .all(|ln| ln.len() == usize::from(Logo::RAT_WIDTH)));
}

#[test]
fn widgets_snake_width() {
    assert!(Logo::snake_lines()
        .iter()
        .all(|ln| ln.len() == usize::from(Logo::SNAKE_WIDTH)));
}

#[test]
fn banner_dimensions() {
    assert_eq!(Logo::WIDTH, Logo::RAT_WIDTH + Logo::SNAKE_WIDTH);
    assert_eq!(Logo::HEIGHT, Logo::TEXT_HEIGHT + 2);
}
