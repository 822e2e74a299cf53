use remotro::agent::{
    choose_move, evaluate_hand, find_all_combinations, get_chip_value, rank_to_value,
    select_discard_cards, Advice, Move,
};
use remotro::balatro::deck::{Card, Rank, Suit};
use remotro::balatro::play::HandCard;
use remotro::balatro::deck::Rank::{
    Ace, Five, Four, Jack, King, Nine, Queen, Seven, Six, Ten, Three, Two,
};
use remotro::balatro::deck::Suit::{Clubs, Diamonds, Hearts, Spades};

fn c(rank: Rank, suit: Suit) -> Card {
    Card { edition: None, enhancement: None, rank, suit, seal: None }
}

fn h(rank: Rank, suit: Suit) -> HandCard {
    HandCard { card: c(rank, suit), selected: false }
}

#[test]
fn rank_values_and_chips() {
    assert_eq!(rank_to_value(&Rank::Two), 0);
    assert_eq!(rank_to_value(&Rank::Ten), 8);
    assert_eq!(rank_to_value(&Rank::Ace), 12);
    assert_eq!(get_chip_value(&Rank::Two), 2);
    assert_eq!(get_chip_value(&Rank::Queen), 10);
    assert_eq!(get_chip_value(&Rank::Ace), 11);
}

#[test]
fn evaluate_hand_kinds() {
    let full_house = [c(King, Spades), c(King, Hearts), c(King, Clubs), c(Two, Spades), c(Two, Hearts)];
    assert_eq!(evaluate_hand(&full_house), ((40 + 10 * 3 + 2 * 2) * 4, "Full House".to_string()));
    let two_pair = [c(Nine, Spades), c(Nine, Hearts), c(Four, Clubs), c(Four, Spades), c(Ace, Hearts)];
    assert_eq!(evaluate_hand(&two_pair), ((20 + 9 + 9 + 4 + 4) * 2, "Two Pair".to_string()));
    let pair = [c(Nine, Spades), c(Nine, Hearts), c(Four, Clubs), c(Five, Spades), c(Ace, Hearts)];
    assert_eq!(evaluate_hand(&pair), ((10 + 18) * 2, "Pair".to_string()));
    let high = [c(Two, Spades), c(Nine, Hearts), c(Four, Clubs), c(Five, Spades), c(King, Hearts)];
    assert_eq!(evaluate_hand(&high), (5 + 10, "High Card".to_string()));
    let wheel = [c(Ace, Spades), c(Two, Hearts), c(Three, Clubs), c(Four, Spades), c(Five, Hearts)];
    assert_eq!(evaluate_hand(&wheel), ((30 + 11 + 2 + 3 + 4 + 5) * 4, "Straight".to_string()));
    let royal = [c(Ace, Hearts), c(King, Hearts), c(Queen, Hearts), c(Jack, Hearts), c(Ten, Hearts)];
    assert_eq!(evaluate_hand(&royal), ((100 + 11 + 40) * 8, "Straight Flush".to_string()));
    let flush = [c(Two, Clubs), c(Nine, Clubs), c(Four, Clubs), c(Five, Clubs), c(King, Clubs)];
    assert_eq!(evaluate_hand(&flush), ((35 + 2 + 9 + 4 + 5 + 10) * 4, "Flush".to_string()));
    let four = [c(Six, Clubs), c(Six, Hearts), c(Six, Spades), c(Six, Diamonds), c(King, Clubs)];
    assert_eq!(evaluate_hand(&four), ((60 + 24) * 7, "Four of a Kind".to_string()));
    let three = [c(Six, Clubs), c(Six, Hearts), c(Six, Spades), c(Two, Diamonds), c(King, Clubs)];
    assert_eq!(evaluate_hand(&three), ((30 + 18) * 3, "Three of a Kind".to_string()));
    let five = [c(Ace, Clubs), c(Ace, Clubs), c(Ace, Clubs), c(Ace, Clubs), c(Ace, Clubs)];
    assert_eq!(evaluate_hand(&five), (3440, "Flush Five".to_string()));
}

#[test]
fn evaluate_hand_wrong_size() {
    let four = [c(Rank::Ace, Suit::Clubs); 4];
    assert_eq!(evaluate_hand(&four), (0, "Invalid hand size".to_string()));
    assert_eq!(evaluate_hand(&[]), (0, "Invalid hand size".to_string()));
}

#[test]
fn combinations_ranked_best_first() {
    let hand = [
        h(Two, Spades),
        h(King, Hearts),
        h(King, Clubs),
        h(Four, Diamonds),
        h(Seven, Spades),
        h(Nine, Hearts),
    ];
    let all = find_all_combinations(&hand);
    assert_eq!(all.len(), 6);
    for w in all.windows(2) {
        assert!(w[0].1 >= w[1].1);
    }
    assert_eq!(all[0].0, vec![0, 1, 2, 3, 4]);
    assert_eq!(all[3].0, vec![1, 2, 3, 4, 5]);
    assert_eq!(all[0].2, "Pair");
    assert_eq!(all[0].1, (10 + 20) * 2);
    assert_eq!(all[4].0, vec![0, 1, 3, 4, 5]);
    assert_eq!(all[5].0, vec![0, 2, 3, 4, 5]);
    assert_eq!(all[5].2, "High Card");
}

#[test]
fn combinations_need_five_cards() {
    let hand = [h(Rank::Two, Suit::Spades); 4];
    assert!(find_all_combinations(&hand).is_empty());
}

#[test]
fn discard_by_threshold() {
    let hand = [
        h(Two, Spades),
        h(King, Hearts),
        h(Three, Clubs),
        h(Four, Diamonds),
        h(Five, Spades),
        h(Six, Hearts),
        h(Seven, Hearts),
        h(Ace, Hearts),
    ];
    assert_eq!(select_discard_cards(&hand, "threshold", None), vec![0, 2, 3, 4, 5]);
    assert_eq!(select_discard_cards(&hand, "threshold", Some(2)), vec![0, 2]);
    assert_eq!(select_discard_cards(&hand, "other", None), Vec::<u32>::new());
}

#[test]
fn discard_keeping_pairs() {
    let hand = [
        h(Two, Spades),
        h(King, Hearts),
        h(Two, Clubs),
        h(Four, Diamonds),
        h(Five, Spades),
        h(Queen, Hearts),
        h(Seven, Hearts),
        h(Ace, Hearts),
    ];
    assert_eq!(select_discard_cards(&hand, "keep_pairs", None), vec![3, 4, 6]);
}

fn six() -> [HandCard; 6] {
    [
        h(Two, Spades),
        h(King, Hearts),
        h(King, Clubs),
        h(Four, Diamonds),
        h(Seven, Spades),
        h(Nine, Hearts),
    ]
}

#[test]
fn advised_best_hand_is_played() {
    match choose_move(&six(), 2, Some(&Advice::PlayBestHand)) {
        Move::Play(ix) => assert_eq!(ix, vec![0, 1, 2, 3, 4]),
        other => panic!("unexpected move {other:?}"),
    }
    match choose_move(&six(), 2, Some(&Advice::EvaluateAllCombinations)) {
        Move::Play(ix) => assert_eq!(ix, vec![0, 1, 2, 3, 4]),
        other => panic!("unexpected move {other:?}"),
    }
}

#[test]
fn advised_discard_uses_strategy() {
    let advice = Advice::SelectDiscardCards { strategy: "threshold".to_string(), threshold: Some(6) };
    match choose_move(&six(), 1, Some(&advice)) {
        Move::Discard(ix) => assert_eq!(ix, vec![0, 3, 4]),
        other => panic!("unexpected move {other:?}"),
    }
    let advice = Advice::SelectDiscardCards { strategy: "threshold".to_string(), threshold: Some(0) };
    assert!(matches!(choose_move(&six(), 1, Some(&advice)), Move::Pass));
}

#[test]
fn no_advice_falls_back() {
    match choose_move(&six(), 1, None) {
        Move::Discard(ix) => assert_eq!(ix, vec![0, 3, 4, 5]),
        other => panic!("unexpected move {other:?}"),
    }
    match choose_move(&six(), 0, None) {
        Move::Play(ix) => assert_eq!(ix, vec![0, 1, 2, 3, 4]),
        other => panic!("unexpected move {other:?}"),
    }
}

#[test]
fn other_advice_passes() {
    assert!(matches!(choose_move(&six(), 1, Some(&Advice::SkipAction)), Move::Pass));
    assert!(matches!(choose_move(&six(), 1, Some(&Advice::AnalyzeHand(vec![0, 1]))), Move::Pass));
    let four = [h(Two, Spades); 4];
    assert!(matches!(choose_move(&four, 0, Some(&Advice::PlayBestHand)), Move::Pass));
}
