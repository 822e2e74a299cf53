use remotro::balatro::menu::{Deck, Stake};

#[test]
fn deck_names_are_read_loosely() {
    assert_eq!(Deck::parse("  Red \n"), Ok(Deck::Red));
    assert_eq!(Deck::parse("GHOST"), Ok(Deck::GhostDeck));
    assert_eq!("erratic".parse::<Deck>(), Ok(Deck::Erratic));
    assert_eq!(Deck::from_name("Red"), None);
}

#[test]
fn unknown_deck_lists_options() {
    assert_eq!(
        Deck::parse("purple"),
        Err("Invalid deck. Valid options are: Red, Blue, Yellow, Green, Black, Magic, Nebula, Ghost, Abandoned, Checkered, Zodiac, Painted, Anaglyph, Plasma, Erratic".to_string())
    );
}

#[test]
fn stake_names_and_levels() {
    assert_eq!(Stake::parse(" white"), Ok(Stake::White));
    assert_eq!("Gold".parse::<Stake>(), Ok(Stake::Gold));
    assert_eq!(Stake::White.level(), 1);
    assert_eq!(Stake::Gold.level(), 8);
    assert_eq!(
        Stake::parse("plaid"),
        Err("Invalid stake. Valid options are: White, Red, Green, Black, Blue, Purple, Orange, Gold".to_string())
    );
}
