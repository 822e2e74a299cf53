use vstd::prelude::*;

verus! {

#[derive(Clone, Copy, Debug, PartialEq, Eq, Structural)]
pub enum Suit {
    Spades,
    Hearts,
    Clubs,
    Diamonds,
}

#[derive(Clone, Copy, Debug, PartialEq, Eq, Structural)]
pub enum Rank {
    Ace,
    Two,
    Three,
    Four,
    Five,
    Six,
    Seven,
    Eight,
    Nine,
    Ten,
    Jack,
    Queen,
    King,
}

#[derive(Clone, Copy, Debug, PartialEq, Eq, Structural)]
pub enum Enhancement {
    Wild,
    Glass,
    Bonus,
    Mult,
    Lucky,
    Steel,
    Stone,
    Gold,
}

#[derive(Clone, Copy, Debug, PartialEq, Eq, Structural)]
pub enum Seal {
    Blue,
    Red,
    Purple,
    Gold,
}

#[derive(Clone, Copy, Debug, PartialEq, Eq, Structural)]
pub enum Edition {
    Base,
    Foil,
    Holographic,
    Polychrome,
}

/// A playing card as the game reports it.
#[derive(Clone, Copy, Debug)]
pub struct Card {
    pub edition: Option<Edition>,
    pub enhancement: Option<Enhancement>,
    pub rank: Rank,
    pub suit: Suit,
    pub seal: Option<Seal>,
}

} // verus!
