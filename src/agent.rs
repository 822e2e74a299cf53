use vstd::prelude::*;

use crate::balatro::deck::{Card, Rank};
use crate::balatro::play::HandCard;
use crate::net::frame::same_text;

verus! {

/// A rank's position from Two (0) up to Ace (12).
pub open spec fn rank_value(rank: Rank) -> u8 {
    match rank {
        Rank::Two => 0,
        Rank::Three => 1,
        Rank::Four => 2,
        Rank::Five => 3,
        Rank::Six => 4,
        Rank::Seven => 5,
        Rank::Eight => 6,
        Rank::Nine => 7,
        Rank::Ten => 8,
        Rank::Jack => 9,
        Rank::Queen => 10,
        Rank::King => 11,
        Rank::Ace => 12,
    }
}

/// The chips a scoring card of the rank at position `v` adds.
pub open spec fn value_chips(v: int) -> nat {
    if v <= 8 {
        (v + 2) as nat
    } else if v <= 11 {
        10
    } else {
        11
    }
}

pub open spec fn rank_chips(rank: Rank) -> u32 {
    match rank {
        Rank::Two => 2,
        Rank::Three => 3,
        Rank::Four => 4,
        Rank::Five => 5,
        Rank::Six => 6,
        Rank::Seven => 7,
        Rank::Eight => 8,
        Rank::Nine => 9,
        Rank::Ten => 10,
        Rank::Jack => 10,
        Rank::Queen => 10,
        Rank::King => 10,
        Rank::Ace => 11,
    }
}

pub fn rank_to_value(rank: &Rank) -> (r: u8)
    ensures
        r == rank_value(*rank),
        r < 13,
{
    match rank {
        Rank::Two => 0,
        Rank::Three => 1,
        Rank::Four => 2,
        Rank::Five => 3,
        Rank::Six => 4,
        Rank::Seven => 5,
        Rank::Eight => 6,
        Rank::Nine => 7,
        Rank::Ten => 8,
        Rank::Jack => 9,
        Rank::Queen => 10,
        Rank::King => 11,
        Rank::Ace => 12,
    }
}

pub fn get_chip_value(rank: &Rank) -> (r: u32)
    ensures
        r == rank_chips(*rank),
        r == value_chips(rank_value(*rank) as int),
{
    match rank {
        Rank::Two => 2,
        Rank::Three => 3,
        Rank::Four => 4,
        Rank::Five => 5,
        Rank::Six => 6,
        Rank::Seven => 7,
        Rank::Eight => 8,
        Rank::Nine => 9,
        Rank::Ten => 10,
        Rank::Jack => 10,
        Rank::Queen => 10,
        Rank::King => 10,
        Rank::Ace => 11,
    }
}

/// The poker hands a five-card play can make, best first.
#[derive(Clone, Copy, Debug, PartialEq, Eq, Structural)]
pub enum HandKind {
    FlushFive,
    FlushHouse,
    FiveOfAKind,
    StraightFlush,
    FourOfAKind,
    FullHouse,
    Flush,
    Straight,
    ThreeOfAKind,
    TwoPair,
    Pair,
    HighCard,
}

pub open spec fn hand_name(k: HandKind) -> Seq<char> {
    match k {
        HandKind::FlushFive => "Flush Five"@,
        HandKind::FlushHouse => "Flush House"@,
        HandKind::FiveOfAKind => "Five of a Kind"@,
        HandKind::StraightFlush => "Straight Flush"@,
        HandKind::FourOfAKind => "Four of a Kind"@,
        HandKind::FullHouse => "Full House"@,
        HandKind::Flush => "Flush"@,
        HandKind::Straight => "Straight"@,
        HandKind::ThreeOfAKind => "Three of a Kind"@,
        HandKind::TwoPair => "Two Pair"@,
        HandKind::Pair => "Pair"@,
        HandKind::HighCard => "High Card"@,
    }
}

/// The hand's base chips and multiplier.
pub open spec fn hand_base(k: HandKind) -> (nat, nat) {
    match k {
        HandKind::FlushFive => (160, 16),
        HandKind::FlushHouse => (140, 14),
        HandKind::FiveOfAKind => (120, 12),
        HandKind::StraightFlush => (100, 8),
        HandKind::FourOfAKind => (60, 7),
        HandKind::FullHouse => (40, 4),
        HandKind::Flush => (35, 4),
        HandKind::Straight => (30, 4),
        HandKind::ThreeOfAKind => (30, 3),
        HandKind::TwoPair => (20, 2),
        HandKind::Pair => (10, 2),
        HandKind::HighCard => (5, 1),
    }
}

/// How many of the cards have the rank at position `v`.
pub open spec fn count(cards: Seq<Card>, v: int) -> nat
    decreases cards.len(),
{
    if cards.len() == 0 {
        0
    } else {
        count(cards.drop_last(), v) + if rank_value(cards.last().rank) == v {
            1nat
        } else {
            0nat
        }
    }
}

/// All cards share the first card's suit.
pub open spec fn is_flush(cards: Seq<Card>) -> bool {
    forall|i: int| 0 <= i < cards.len() ==> #[trigger] cards[i].suit == cards[0].suit
}

/// The cards hold exactly one of each of the five ranks from position `lo`.
pub open spec fn run_from(cards: Seq<Card>, lo: int) -> bool {
    forall|v: int| lo <= v < lo + 5 ==> count(cards, v) == 1
}

/// Five consecutive ranks, or the wheel Ace-2-3-4-5.
pub open spec fn is_straight(cards: Seq<Card>) -> bool {
    (exists|lo: int| 0 <= lo <= 8 && run_from(cards, lo)) || (count(cards, 0) == 1 && count(cards, 1)
        == 1 && count(cards, 2) == 1 && count(cards, 3) == 1 && count(cards, 12) == 1)
}

/// The two largest entries of `c`, the second counted apart from the first.
pub open spec fn top_two(c: Seq<nat>) -> (nat, nat)
    decreases c.len(),
{
    if c.len() == 0 {
        (0, 0)
    } else {
        let (a, b) = top_two(c.drop_last());
        let x = c.last();
        if x > a {
            (x, a)
        } else if x > b {
            (a, x)
        } else {
            (a, b)
        }
    }
}

/// How many cards share each rank, by rank position.
pub open spec fn rank_counts(cards: Seq<Card>) -> Seq<nat> {
    Seq::new(13, |v: int| count(cards, v))
}

/// The size of the largest and of the second largest group of equal ranks.
pub open spec fn groups(cards: Seq<Card>) -> (nat, nat) {
    top_two(rank_counts(cards))
}

pub open spec fn classify(flush: bool, straight: bool, p: nat, s: nat) -> HandKind {
    if flush && p == 5 {
        HandKind::FlushFive
    } else if flush && p == 3 && s == 2 {
        HandKind::FlushHouse
    } else if p == 5 {
        HandKind::FiveOfAKind
    } else if straight && flush {
        HandKind::StraightFlush
    } else if p == 4 {
        HandKind::FourOfAKind
    } else if p == 3 && s == 2 {
        HandKind::FullHouse
    } else if flush {
        HandKind::Flush
    } else if straight {
        HandKind::Straight
    } else if p == 3 {
        HandKind::ThreeOfAKind
    } else if p == 2 && s == 2 {
        HandKind::TwoPair
    } else if p == 2 {
        HandKind::Pair
    } else {
        HandKind::HighCard
    }
}

pub open spec fn hand_kind(cards: Seq<Card>) -> HandKind {
    classify(is_flush(cards), is_straight(cards), groups(cards).0, groups(cards).1)
}

/// Chips of the first `n` cards whose rank appears exactly `t` times in the hand.
pub open spec fn group_chips(cards: Seq<Card>, t: nat, n: int) -> nat
    decreases n,
{
    if n <= 0 {
        0
    } else {
        group_chips(cards, t, n - 1) + if count(cards, rank_value(cards[n - 1].rank) as int) == t {
            rank_chips(cards[n - 1].rank) as nat
        } else {
            0nat
        }
    }
}

/// Chips of the first `n` cards.
pub open spec fn all_chips(cards: Seq<Card>, n: int) -> nat
    decreases n,
{
    if n <= 0 {
        0
    } else {
        all_chips(cards, n - 1) + rank_chips(cards[n - 1].rank) as nat
    }
}

/// The highest rank position among the first `n` cards.
pub open spec fn top_value(cards: Seq<Card>, n: int) -> int
    decreases n,
{
    if n <= 0 {
        0
    } else {
        let v = rank_value(cards[n - 1].rank) as int;
        let m = top_value(cards, n - 1);
        if v > m {
            v
        } else {
            m
        }
    }
}

/// Chips of the cards that score: the largest group for four, three of a
/// kind and a pair, both pairs for two pair, the highest card for a high
/// card, and all five otherwise.
pub open spec fn scoring_chips(cards: Seq<Card>, k: HandKind) -> nat {
    match k {
        HandKind::FourOfAKind => group_chips(cards, groups(cards).0, 5),
        HandKind::ThreeOfAKind => group_chips(cards, groups(cards).0, 5),
        HandKind::Pair => group_chips(cards, groups(cards).0, 5),
        HandKind::TwoPair => group_chips(cards, 2, 5),
        HandKind::HighCard => value_chips(top_value(cards, 5)),
        _ => all_chips(cards, 5),
    }
}

/// The score of a five-card play: base chips plus scoring chips, times the multiplier.
pub open spec fn hand_score(cards: Seq<Card>) -> nat {
    let k = hand_kind(cards);
    (hand_base(k).0 + scoring_chips(cards, k)) * hand_base(k).1
}

/// The largest score a five-card play can reach.
pub const MAX_HAND_SCORE: u32 = 3440;

proof fn lemma_count_bound(cards: Seq<Card>, v: int)
    ensures
        count(cards, v) <= cards.len(),
    decreases cards.len(),
{
    if cards.len() > 0 {
        lemma_count_bound(cards.drop_last(), v);
    }
}

impl HandKind {
    pub fn name(&self) -> (r: String)
        ensures
            r@ == hand_name(*self),
    {
        match self {
            HandKind::FlushFive => String::from_str("Flush Five"),
            HandKind::FlushHouse => String::from_str("Flush House"),
            HandKind::FiveOfAKind => String::from_str("Five of a Kind"),
            HandKind::StraightFlush => String::from_str("Straight Flush"),
            HandKind::FourOfAKind => String::from_str("Four of a Kind"),
            HandKind::FullHouse => String::from_str("Full House"),
            HandKind::Flush => String::from_str("Flush"),
            HandKind::Straight => String::from_str("Straight"),
            HandKind::ThreeOfAKind => String::from_str("Three of a Kind"),
            HandKind::TwoPair => String::from_str("Two Pair"),
            HandKind::Pair => String::from_str("Pair"),
            HandKind::HighCard => String::from_str("High Card"),
        }
    }

    /// Base chips and multiplier.
    pub fn base(&self) -> (r: (u32, u32))
        ensures
            r.0 == hand_base(*self).0,
            r.1 == hand_base(*self).1,
    {
        match self {
            HandKind::FlushFive => (160, 16),
            HandKind::FlushHouse => (140, 14),
            HandKind::FiveOfAKind => (120, 12),
            HandKind::StraightFlush => (100, 8),
            HandKind::FourOfAKind => (60, 7),
            HandKind::FullHouse => (40, 4),
            HandKind::Flush => (35, 4),
            HandKind::Straight => (30, 4),
            HandKind::ThreeOfAKind => (30, 3),
            HandKind::TwoPair => (20, 2),
            HandKind::Pair => (10, 2),
            HandKind::HighCard => (5, 1),
        }
    }

    pub fn classify(flush: bool, straight: bool, p: u8, s: u8) -> (r: HandKind)
        ensures
            r == classify(flush, straight, p as nat, s as nat),
    {
        if flush && p == 5 {
            HandKind::FlushFive
        } else if flush && p == 3 && s == 2 {
            HandKind::FlushHouse
        } else if p == 5 {
            HandKind::FiveOfAKind
        } else if straight && flush {
            HandKind::StraightFlush
        } else if p == 4 {
            HandKind::FourOfAKind
        } else if p == 3 && s == 2 {
            HandKind::FullHouse
        } else if flush {
            HandKind::Flush
        } else if straight {
            HandKind::Straight
        } else if p == 3 {
            HandKind::ThreeOfAKind
        } else if p == 2 && s == 2 {
            HandKind::TwoPair
        } else if p == 2 {
            HandKind::Pair
        } else {
            HandKind::HighCard
        }
    }
}

fn chips_for_value(v: u8) -> (r: u32)
    ensures
        r == value_chips(v as int),
{
    if v <= 8 {
        v as u32 + 2
    } else if v <= 11 {
        10
    } else {
        11
    }
}

/// How many of the five cards have each rank position.
fn count_ranks(cards: &[Card]) -> (r: Vec<u8>)
    requires
        cards@.len() == 5,
    ensures
        r@.len() == 13,
        forall|v: int| 0 <= v < 13 ==> r@[v] as nat == count(cards@, v),
{
    let mut counts: Vec<u8> = Vec::new();
    let mut v: usize = 0;
    while v < 13
        invariant
            v <= 13,
            counts@.len() == v,
            forall|j: int| 0 <= j < v ==> counts@[j] == 0,
        decreases 13 - v,
    {
        counts.push(0);
        v += 1;
    }
    let mut i: usize = 0;
    while i < 5
        invariant
            i <= 5,
            cards@.len() == 5,
            counts@.len() == 13,
            forall|j: int| 0 <= j < 13 ==> counts@[j] as nat == count(cards@.take(i as int), j),
        decreases 5 - i,
    {
        let v = rank_to_value(&cards[i].rank) as usize;
        proof {
            assert(cards@.take(i as int + 1).drop_last() =~= cards@.take(i as int));
            lemma_count_bound(cards@.take(i as int), v as int);
        }
        let c = counts[v];
        counts.set(v, c + 1);
        i += 1;
    }
    assert(cards@.take(5) =~= cards@);
    counts
}

/// Scores a five-card play and names the hand it makes.
pub fn evaluate_hand(cards: &[Card]) -> (r: (u32, String))
    ensures
        cards@.len() != 5 ==> r.0 == 0 && r.1@ == "Invalid hand size"@,
        cards@.len() == 5 ==> r.0 == hand_score(cards@) && r.1@ == hand_name(hand_kind(cards@)),
        r.0 <= MAX_HAND_SCORE,
{
    if cards.len() != 5 {
        return (0, String::from_str("Invalid hand size"));
    }
    let counts = count_ranks(cards);
    let ghost cs = rank_counts(cards@);
    assert(counts@.map_values(|x: u8| x as nat) =~= cs);

    let mut flush = true;
    let mut i: usize = 1;
    while i < 5
        invariant
            1 <= i <= 5,
            cards@.len() == 5,
            flush == (forall|j: int| 0 <= j < i ==> #[trigger] cards@[j].suit == cards@[0].suit),
        decreases 5 - i,
    {
        if cards[i].suit != cards[0].suit {
            flush = false;
        }
        i += 1;
    }

    let mut straight = counts[0] == 1 && counts[1] == 1 && counts[2] == 1 && counts[3] == 1
        && counts[12] == 1;
    let ghost wheel = straight;
    let mut lo: usize = 0;
    while lo <= 8
        invariant
            lo <= 9,
            counts@.len() == 13,
            forall|v: int| 0 <= v < 13 ==> counts@[v] as nat == count(cards@, v),
            straight == (wheel || exists|l: int| 0 <= l < lo && run_from(cards@, l)),
        decreases 9 - lo,
    {
        if counts[lo] == 1 && counts[lo + 1] == 1 && counts[lo + 2] == 1 && counts[lo + 3] == 1
            && counts[lo + 4] == 1 {
            assert(run_from(cards@, lo as int));
            straight = true;
        } else {
            assert(!run_from(cards@, lo as int)) by {
                if counts[lo as int] != 1 {
                    assert(count(cards@, lo as int) != 1);
                } else if counts[lo + 1] != 1 {
                    assert(count(cards@, lo + 1) != 1);
                } else if counts[lo + 2] != 1 {
                    assert(count(cards@, lo + 2) != 1);
                } else if counts[lo + 3] != 1 {
                    assert(count(cards@, lo + 3) != 1);
                } else {
                    assert(count(cards@, lo + 4) != 1);
                }
            }
        }
        lo += 1;
    }
    assert(straight == is_straight(cards@));

    let mut p: u8 = 0;
    let mut s: u8 = 0;
    let mut v: usize = 0;
    while v < 13
        invariant
            v <= 13,
            counts@.len() == 13,
            cs == rank_counts(cards@),
            forall|w: int| 0 <= w < 13 ==> counts@[w] as nat == cs[w],
            (p as nat, s as nat) == top_two(cs.take(v as int)),
        decreases 13 - v,
    {
        assert(cs.take(v as int + 1).drop_last() =~= cs.take(v as int));
        let x = counts[v];
        if x > p {
            s = p;
            p = x;
        } else if x > s {
            s = x;
        }
        v += 1;
    }
    assert(cs.take(13) =~= cs);
    let kind = HandKind::classify(flush, straight, p, s);
    assert(kind == hand_kind(cards@));

    let mut extra: u32 = 0;
    match kind {
        HandKind::FourOfAKind | HandKind::ThreeOfAKind | HandKind::Pair | HandKind::TwoPair => {
            let t = if kind == HandKind::TwoPair {
                2
            } else {
                p
            };
            let mut i: usize = 0;
            while i < 5
                invariant
                    i <= 5,
                    cards@.len() == 5,
                    counts@.len() == 13,
                    forall|w: int| 0 <= w < 13 ==> counts@[w] as nat == count(cards@, w),
                    extra as nat == group_chips(cards@, t as nat, i as int),
                    extra <= 11 * i,
                decreases 5 - i,
            {
                let w = rank_to_value(&cards[i].rank) as usize;
                if counts[w] == t {
                    extra = extra + get_chip_value(&cards[i].rank);
                }
                i += 1;
            }
        },
        HandKind::HighCard => {
            let mut top: u8 = 0;
            let mut i: usize = 0;
            while i < 5
                invariant
                    i <= 5,
                    cards@.len() == 5,
                    top as int == top_value(cards@, i as int),
                    top < 13,
                decreases 5 - i,
            {
                let w = rank_to_value(&cards[i].rank);
                if w > top {
                    top = w;
                }
                i += 1;
            }
            extra = chips_for_value(top);
        },
        _ => {
            let mut i: usize = 0;
            while i < 5
                invariant
                    i <= 5,
                    cards@.len() == 5,
                    extra as nat == all_chips(cards@, i as int),
                    extra <= 11 * i,
                decreases 5 - i,
            {
                extra = extra + get_chip_value(&cards[i].rank);
                i += 1;
            }
        },
    }
    assert(extra as nat == scoring_chips(cards@, kind));
    let (chips, mult) = kind.base();
    assert(chips <= 160 && mult <= 16 && extra <= 55);
    assert((chips + extra) * mult <= 3440) by (nonlinear_arith)
        requires
            chips <= 160,
            mult <= 16,
            extra <= 55,
    ;
    ((chips + extra) * mult, kind.name())
}

/// Every choice of `k` increasing indices from `start` up to `n`, in lexicographic order.
pub open spec fn combos(start: usize, k: nat, n: usize) -> Seq<Seq<usize>>
    decreases n - start,
{
    if k == 0 {
        seq![Seq::<usize>::empty()]
    } else if start >= n {
        Seq::empty()
    } else {
        combos((start + 1) as usize, (k - 1) as nat, n).map_values(|c: Seq<usize>| seq![start] + c)
            + combos((start + 1) as usize, k, n)
    }
}

/// `c` lists indices from `start` up to `n`, strictly increasing.
pub open spec fn increasing_within(c: Seq<usize>, start: usize, n: usize) -> bool {
    &&& forall|j: int| 0 <= j < c.len() ==> start <= #[trigger] c[j] < n
    &&& forall|i: int, j: int| 0 <= i < j < c.len() ==> c[i] < c[j]
}

/// `combos` holds exactly the strictly increasing choices of `k` indices from
/// `start` up to `n`.
pub proof fn lemma_combos_are_choices(start: usize, k: nat, n: usize, c: Seq<usize>)
    ensures
        combos(start, k, n).contains(c) <==> (c.len() == k && increasing_within(c, start, n)),
    decreases n - start,
{
    let whole = combos(start, k, n);
    if k == 0 {
        if c.len() == 0 {
            assert(c =~= Seq::<usize>::empty());
            assert(whole[0] == c);
        }
    } else if start >= n {
        if c.len() == k && increasing_within(c, start, n) {
            assert(start <= c[0] < n);
        }
    } else {
        let s1 = (start + 1) as usize;
        let a = combos(s1, (k - 1) as nat, n);
        let b = combos(s1, k, n);
        let f = |x: Seq<usize>| seq![start] + x;
        let fa = a.map_values(f);
        assert(whole == fa + b);
        if whole.contains(c) {
            let i = choose|i: int| 0 <= i < whole.len() && whole[i] == c;
            if i < fa.len() {
                let x = a[i];
                assert(c == seq![start] + x);
                lemma_combos_are_choices(s1, (k - 1) as nat, n, x);
                assert(a.contains(x));
                assert forall|p: int, q: int| 0 <= p < q < c.len() implies c[p] < c[q] by {
                    if p > 0 {
                        assert(c[p] == x[p - 1]);
                    }
                    assert(c[q] == x[q - 1]);
                }
                assert forall|j: int| 0 <= j < c.len() implies start <= #[trigger] c[j] < n by {
                    if j > 0 {
                        assert(c[j] == x[j - 1]);
                    }
                }
            } else {
                assert(b[i - fa.len()] == c);
                assert(b.contains(c));
                lemma_combos_are_choices(s1, k, n, c);
            }
        }
        if c.len() == k && increasing_within(c, start, n) {
            if c[0] == start {
                let x = c.drop_first();
                assert forall|j: int| 0 <= j < x.len() implies s1 <= #[trigger] x[j] < n by {
                    assert(x[j] == c[j + 1]);
                    assert(c[0] < c[j + 1]);
                }
                assert forall|p: int, q: int| 0 <= p < q < x.len() implies x[p] < x[q] by {
                    assert(x[p] == c[p + 1]);
                    assert(x[q] == c[q + 1]);
                }
                lemma_combos_are_choices(s1, (k - 1) as nat, n, x);
                let i = choose|i: int| 0 <= i < a.len() && a[i] == x;
                assert(fa[i] == seq![start] + x);
                assert(seq![start] + x =~= c);
                assert(whole[i] == c);
            } else {
                assert forall|j: int| 0 <= j < c.len() implies s1 <= #[trigger] c[j] < n by {
                    if j > 0 {
                        assert(c[0] < c[j]);
                    }
                }
                lemma_combos_are_choices(s1, k, n, c);
                let i = choose|i: int| 0 <= i < b.len() && b[i] == c;
                assert(whole[fa.len() + i] == c);
            }
        }
    }
}

pub open spec fn index_views(v: Seq<Vec<usize>>) -> Seq<Seq<usize>> {
    v.map_values(|x: Vec<usize>| x@)
}

/// The cards at the chosen indices of the hand.
pub open spec fn combo_cards(hand: Seq<HandCard>, c: Seq<usize>) -> Seq<Card> {
    c.map_values(|i: usize| hand[i as int].card)
}

/// Each five-card choice of the hand with its score and hand name, in lexicographic order.
pub open spec fn scored_combos(hand: Seq<HandCard>) -> Seq<(Seq<usize>, nat, Seq<char>)> {
    combos(0, 5, hand.len() as usize).map_values(
        |c: Seq<usize>|
            (c, hand_score(combo_cards(hand, c)), hand_name(hand_kind(combo_cards(hand, c)))),
    )
}

/// The entries of `g` that score exactly `s`, in their order in `g`.
pub open spec fn scoring_exactly(g: Seq<(Seq<usize>, nat, Seq<char>)>, s: nat) -> Seq<(Seq<usize>, nat, Seq<char>)>
    decreases g.len(),
{
    if g.len() == 0 {
        g
    } else if g.last().1 == s {
        scoring_exactly(g.drop_last(), s).push(g.last())
    } else {
        scoring_exactly(g.drop_last(), s)
    }
}

/// The entries of `g` scoring from `hi` down to `lo`, best first; equal
/// scores keep their order in `g`.
pub open spec fn ranked(g: Seq<(Seq<usize>, nat, Seq<char>)>, hi: nat, lo: nat) -> Seq<(Seq<usize>, nat, Seq<char>)>
    decreases hi + 1 - lo,
{
    if lo > hi {
        Seq::empty()
    } else {
        ranked(g, hi, lo + 1) + scoring_exactly(g, lo)
    }
}

pub open spec fn entry_view(e: (Vec<usize>, u32, String)) -> (Seq<usize>, nat, Seq<char>) {
    (e.0@, e.1 as nat, e.2@)
}

/// Appends every `k`-index choice from `start` up to `n`, each after `prefix`.
fn push_combos(start: usize, k: usize, n: usize, prefix: &Vec<usize>, out: &mut Vec<Vec<usize>>)
    ensures
        index_views(final(out)@) == index_views(old(out)@) + combos(start, k as nat, n).map_values(
            |c: Seq<usize>| prefix@ + c,
        ),
    decreases n - start,
{
    if k == 0 {
        let copy = copy_indices(prefix);
        out.push(copy);
        assert(combos(start, 0, n).map_values(|c: Seq<usize>| prefix@ + c) =~= seq![prefix@]) by {
            assert(prefix@ + Seq::<usize>::empty() =~= prefix@);
        }
        assert(index_views(out@) =~= index_views(old(out)@) + seq![prefix@]);
    } else if start >= n {
        assert(index_views(out@) =~= index_views(old(out)@) + combos(start, k as nat, n).map_values(
            |c: Seq<usize>| prefix@ + c,
        ));
    } else {
        let mut longer = copy_indices(prefix);
        longer.push(start);
        let ghost mid = index_views(out@);
        push_combos(start + 1, k - 1, n, &longer, out);
        let ghost after_first = index_views(out@);
        push_combos(start + 1, k, n, prefix, out);
        let ghost a = combos((start + 1) as usize, (k - 1) as nat, n);
        let ghost b = combos((start + 1) as usize, k as nat, n);
        let ghost whole = combos(start, k as nat, n);
        assert(whole == a.map_values(|c: Seq<usize>| seq![start] + c) + b);
        assert(whole.map_values(|c: Seq<usize>| prefix@ + c) =~= a.map_values(
            |c: Seq<usize>| longer@ + c,
        ) + b.map_values(|c: Seq<usize>| prefix@ + c)) by {
            assert forall|i: int| 0 <= i < a.len() implies prefix@ + (seq![start] + a[i]) =~= longer@
                + a[i] by {}
        }
        assert(index_views(out@) =~= index_views(old(out)@) + whole.map_values(
            |c: Seq<usize>| prefix@ + c,
        ));
    }
}

fn copy_indices(v: &Vec<usize>) -> (r: Vec<usize>)
    ensures
        r@ == v@,
{
    let mut r: Vec<usize> = Vec::new();
    let mut i: usize = 0;
    while i < v.len()
        invariant
            i <= v@.len(),
            r@ == v@.take(i as int),
        decreases v@.len() - i,
    {
        r.push(v[i]);
        i += 1;
        assert(r@ =~= v@.take(i as int));
    }
    assert(v@.take(v@.len() as int) =~= v@);
    r
}

/// Scores every five-card choice of the hand, best first; choices that score
/// the same stay in lexicographic order of their indices.
pub fn find_all_combinations(hand: &[HandCard]) -> (r: Vec<(Vec<usize>, u32, String)>)
    ensures
        r@.map_values(|e: (Vec<usize>, u32, String)| entry_view(e)) == ranked(
            scored_combos(hand@),
            MAX_HAND_SCORE as nat,
            0,
        ),
{
    let n = hand.len();
    let mut choices: Vec<Vec<usize>> = Vec::new();
    let empty: Vec<usize> = Vec::new();
    push_combos(0, 5, n, &empty, &mut choices);
    let ghost cs = combos(0, 5, n);
    assert(index_views(choices@) =~= cs) by {
        assert forall|i: int| 0 <= i < cs.len() implies empty@ + cs[i] =~= cs[i] by {}
    }
    let ghost g = scored_combos(hand@);
    assert(g.len() == cs.len());
    proof {
        lemma_combos_in_range(0, 5, n);
    }

    let mut scores: Vec<u32> = Vec::new();
    let mut names: Vec<String> = Vec::new();
    let mut i: usize = 0;
    while i < choices.len()
        invariant
            i <= choices@.len(),
            index_views(choices@) == cs,
            cs == combos(0, 5, n),
            g == scored_combos(hand@),
            n == hand@.len(),
            scores@.len() == i,
            names@.len() == i,
            forall|j: int| 0 <= j < i ==> scores@[j] as nat == g[j].1 && names@[j]@ == g[j].2,
        decreases choices@.len() - i,
    {
        let c = &choices[i];
        proof {
            lemma_combos_in_range(0, 5, n);
            assert(cs[i as int] == c@);
            assert(c@.len() == 5);
        }
        let mut cards: Vec<Card> = Vec::new();
        let mut j: usize = 0;
        while j < c.len()
            invariant
                j <= c@.len(),
                c@ == cs[i as int],
                forall|t: int| 0 <= t < c@.len() ==> c@[t] < n,
                n == hand@.len(),
                cards@ == combo_cards(hand@, c@).take(j as int),
            decreases c@.len() - j,
        {
            cards.push(hand[c[j]].card);
            j += 1;
            assert(cards@ =~= combo_cards(hand@, c@).take(j as int));
        }
        assert(cards@ =~= combo_cards(hand@, c@));
        let (score, name) = evaluate_hand(cards.as_slice());
        assert(g[i as int] == (cs[i as int], hand_score(combo_cards(hand@, cs[i as int])), hand_name(
            hand_kind(combo_cards(hand@, cs[i as int])),
        )));
        scores.push(score);
        names.push(name);
        i += 1;
    }

    let mut out: Vec<(Vec<usize>, u32, String)> = Vec::new();
    let mut t: u32 = MAX_HAND_SCORE + 1;
    while t > 0
        invariant
            t <= MAX_HAND_SCORE + 1,
            g.len() == choices@.len(),
            index_views(choices@) == cs,
            g == scored_combos(hand@),
            cs == combos(0, 5, n),
            n == hand@.len(),
            scores@.len() == g.len(),
            names@.len() == g.len(),
            forall|j: int| 0 <= j < g.len() ==> scores@[j] as nat == g[j].1 && names@[j]@ == g[j].2,
            out@.map_values(|e: (Vec<usize>, u32, String)| entry_view(e)) == ranked(
                g,
                MAX_HAND_SCORE as nat,
                t as nat,
            ),
        decreases t,
    {
        let s = t - 1;
        let ghost before = out@.map_values(|e: (Vec<usize>, u32, String)| entry_view(e));
        let mut k: usize = 0;
        while k < choices.len()
            invariant
                k <= choices@.len(),
                g.len() == choices@.len(),
                index_views(choices@) == cs,
                g == scored_combos(hand@),
                cs == combos(0, 5, n),
                n == hand@.len(),
                scores@.len() == g.len(),
                names@.len() == g.len(),
                forall|j: int| 0 <= j < g.len() ==> scores@[j] as nat == g[j].1 && names@[j]@ == g[j].2,
                out@.map_values(|e: (Vec<usize>, u32, String)| entry_view(e)) == before
                    + scoring_exactly(g.take(k as int), s as nat),
            decreases choices@.len() - k,
        {
            assert(g.take(k as int + 1).drop_last() =~= g.take(k as int));
            if scores[k] == s {
                let entry = (copy_indices(&choices[k]), scores[k], names[k].clone());
                proof {
                    assert(g[k as int].0 == cs[k as int]);
                    assert(index_views(choices@)[k as int] == choices@[k as int]@);
                    assert(entry_view(entry) == g[k as int]);
                }
                let ghost prior = out@;
                out.push(entry);
                assert(out@.map_values(|e: (Vec<usize>, u32, String)| entry_view(e)) =~= prior.map_values(
                    |e: (Vec<usize>, u32, String)| entry_view(e),
                ).push(g[k as int]));
            }
            k += 1;
            assert(out@.map_values(|e: (Vec<usize>, u32, String)| entry_view(e)) =~= before
                + scoring_exactly(g.take(k as int), s as nat));
        }
        assert(g.take(g.len() as int) =~= g);
        t = s;
    }
    out
}

/// Every choice lists `k` indices below `n`.
proof fn lemma_combos_in_range(start: usize, k: nat, n: usize)
    ensures
        forall|i: int| 0 <= i < combos(start, k, n).len() ==> #[trigger] combos(start, k, n)[i].len() == k,
        forall|i: int, j: int|
            0 <= i < combos(start, k, n).len() && 0 <= j < combos(start, k, n)[i].len()
                ==> combos(start, k, n)[i][j] < n,
    decreases n - start,
{
    if k > 0 && start < n {
        lemma_combos_in_range((start + 1) as usize, (k - 1) as nat, n);
        lemma_combos_in_range((start + 1) as usize, k, n);
        let a = combos((start + 1) as usize, (k - 1) as nat, n);
        let b = combos((start + 1) as usize, k, n);
        let whole = combos(start, k, n);
        assert forall|i: int| 0 <= i < whole.len() implies #[trigger] whole[i].len() == k by {
            if i < a.len() {
                assert(whole[i] == seq![start] + a[i]);
            } else {
                assert(whole[i] == b[i - a.len()]);
            }
        }
        assert forall|i: int, j: int| 0 <= i < whole.len() && 0 <= j < whole[i].len() implies whole[i][j] < n by {
            if i < a.len() {
                assert(whole[i] == seq![start] + a[i]);
                if j > 0 {
                    assert(whole[i][j] == a[i][j - 1]);
                }
            } else {
                assert(whole[i] == b[i - a.len()]);
            }
        }
    }
}

/// The rank position of the `i`-th card in the hand.
pub open spec fn hand_value(hand: Seq<HandCard>, i: int) -> int {
    rank_value(hand[i].card.rank) as int
}

/// How many of the first `n` cards have rank position `v`.
pub open spec fn value_count(hand: Seq<HandCard>, v: int, n: int) -> nat
    decreases n,
{
    if n <= 0 {
        0
    } else {
        value_count(hand, v, n - 1) + if hand_value(hand, n - 1) == v {
            1nat
        } else {
            0nat
        }
    }
}

/// The `i`-th card shares its rank with another card of the hand.
pub open spec fn in_group(hand: Seq<HandCard>, i: int) -> bool {
    value_count(hand, hand_value(hand, i), hand.len() as int) >= 2
}

/// How many of the first `n` cards share their rank with another card.
pub open spec fn grouped(hand: Seq<HandCard>, n: int) -> nat
    decreases n,
{
    if n <= 0 {
        0
    } else {
        grouped(hand, n - 1) + if in_group(hand, n - 1) {
            1nat
        } else {
            0nat
        }
    }
}

/// How many of the first `n` cards are unpaired and rank above the `i`-th card.
pub open spec fn outranked(hand: Seq<HandCard>, i: int, n: int) -> nat
    decreases n,
{
    if n <= 0 {
        0
    } else {
        outranked(hand, i, n - 1) + if !in_group(hand, n - 1) && hand_value(hand, n - 1) > hand_value(
            hand,
            i,
        ) {
            1nat
        } else {
            0nat
        }
    }
}

/// The `keep_pairs` strategy keeps every card of a pair or larger group, and
/// the highest unpaired cards while fewer than five are kept.
pub open spec fn kept(hand: Seq<HandCard>, i: int) -> bool {
    in_group(hand, i) || grouped(hand, hand.len() as int) + outranked(hand, i, hand.len() as int) < 5
}

/// The indices below `n` of the cards that `keep_pairs` does not keep, ascending.
pub open spec fn unkept(hand: Seq<HandCard>, n: int) -> Seq<u32>
    decreases n,
{
    if n <= 0 {
        Seq::empty()
    } else if kept(hand, n - 1) {
        unkept(hand, n - 1)
    } else {
        unkept(hand, n - 1).push((n - 1) as u32)
    }
}

/// The indices below `n` of the cards ranked below `threshold`, ascending.
pub open spec fn below(hand: Seq<HandCard>, threshold: int, n: int) -> Seq<u32>
    decreases n,
{
    if n <= 0 {
        Seq::empty()
    } else if hand_value(hand, n - 1) < threshold {
        below(hand, threshold, n - 1).push((n - 1) as u32)
    } else {
        below(hand, threshold, n - 1)
    }
}

/// The discard that a strategy picks.
pub open spec fn discard_choice(hand: Seq<HandCard>, strategy: Seq<char>, threshold: Option<u8>) -> Seq<u32> {
    if strategy == "threshold"@ {
        let th = match threshold {
            Some(t) => t as int,
            None => 8,
        };
        let all = below(hand, th, hand.len() as int);
        if all.len() > 5 {
            all.take(5)
        } else {
            all
        }
    } else if strategy == "keep_pairs"@ {
        unkept(hand, hand.len() as int)
    } else {
        Seq::empty()
    }
}

fn hand_value_counts(hand: &[HandCard]) -> (r: Vec<usize>)
    ensures
        r@.len() == 13,
        forall|v: int| 0 <= v < 13 ==> r@[v] as nat == value_count(hand@, v, hand@.len() as int),
{
    let mut counts: Vec<usize> = Vec::new();
    let mut v: usize = 0;
    while v < 13
        invariant
            v <= 13,
            counts@.len() == v,
            forall|j: int| 0 <= j < v ==> counts@[j] == 0,
        decreases 13 - v,
    {
        counts.push(0);
        v += 1;
    }
    let mut i: usize = 0;
    while i < hand.len()
        invariant
            i <= hand@.len(),
            counts@.len() == 13,
            forall|j: int| 0 <= j < 13 ==> counts@[j] as nat == value_count(hand@, j, i as int),
            forall|j: int| 0 <= j < 13 ==> counts@[j] <= i,
        decreases hand@.len() - i,
    {
        let v = rank_to_value(&hand[i].card.rank) as usize;
        let c = counts[v];
        counts.set(v, c + 1);
        i += 1;
    }
    counts
}

/// Picks the cards to discard: `threshold` discards up to five cards ranked
/// below the threshold (Ten when none is given); `keep_pairs` discards all
/// but the grouped and the highest cards; any other strategy discards nothing.
pub fn select_discard_cards(hand: &[HandCard], strategy: &str, threshold: Option<u8>) -> (r: Vec<u32>)
    requires
        hand@.len() <= u32::MAX,
    ensures
        r@ == discard_choice(hand@, strategy@, threshold),
{
    proof {
        reveal_strlit("threshold");
        reveal_strlit("keep_pairs");
    }
    if same_text(strategy, "threshold") {
        let th: u8 = match threshold {
            Some(t) => t,
            None => 8,
        };
        let mut indices: Vec<u32> = Vec::new();
        let mut i: usize = 0;
        while i < hand.len()
            invariant
                i <= hand@.len() <= u32::MAX,
                indices@ == below(hand@, th as int, i as int),
            decreases hand@.len() - i,
        {
            if rank_to_value(&hand[i].card.rank) < th {
                indices.push(i as u32);
            }
            i += 1;
        }
        if indices.len() > 5 {
            indices.truncate(5);
        }
        indices
    } else if same_text(strategy, "keep_pairs") {
        assert(strategy@ != "threshold"@) by {
            if strategy@ == "threshold"@ {
                assert(strategy@[0] != "keep_pairs"@[0]);
            }
        }
        let n = hand.len();
        let counts = hand_value_counts(hand);
        let mut m: usize = 0;
        let mut i: usize = 0;
        while i < n
            invariant
                i <= n == hand@.len(),
                counts@.len() == 13,
                forall|v: int| 0 <= v < 13 ==> counts@[v] as nat == value_count(hand@, v, n as int),
                m as nat == grouped(hand@, i as int),
                m <= i,
            decreases n - i,
        {
            if counts[rank_to_value(&hand[i].card.rank) as usize] >= 2 {
                m += 1;
            }
            i += 1;
        }
        let mut discard: Vec<u32> = Vec::new();
        let mut i: usize = 0;
        while i < n
            invariant
                i <= n == hand@.len() <= u32::MAX,
                counts@.len() == 13,
                forall|v: int| 0 <= v < 13 ==> counts@[v] as nat == value_count(hand@, v, n as int),
                m as nat == grouped(hand@, n as int),
                m <= n,
                discard@ == unkept(hand@, i as int),
            decreases n - i,
        {
            let vi = rank_to_value(&hand[i].card.rank);
            let keep = if counts[vi as usize] >= 2 {
                true
            } else {
                let mut above: usize = 0;
                let mut j: usize = 0;
                while j < n
                    invariant
                        j <= n == hand@.len(),
                        i < n,
                        vi as int == hand_value(hand@, i as int),
                        counts@.len() == 13,
                        forall|v: int| 0 <= v < 13 ==> counts@[v] as nat == value_count(hand@, v, n as int),
                        above as nat == outranked(hand@, i as int, j as int),
                        above <= j,
                    decreases n - j,
                {
                    let vj = rank_to_value(&hand[j].card.rank);
                    if counts[vj as usize] < 2 && vj > vi {
                        above += 1;
                    }
                    j += 1;
                }
                above < 5 && m < 5 - above
            };
            if !keep {
                discard.push(i as u32);
            }
            i += 1;
        }
        discard
    } else {
        assert(strategy@ != "threshold"@);
        assert(strategy@ != "keep_pairs"@);
        Vec::new()
    }
}

/// What the advisor asked for.
#[derive(Debug)]
pub enum Advice {
    AnalyzeHand(Vec<usize>),
    EvaluateAllCombinations,
    SelectDiscardCards { strategy: String, threshold: Option<u8> },
    PlayBestHand,
    SkipAction,
}

/// What to do with the hand: select these cards, then play or discard them.
#[derive(Debug)]
pub enum Move {
    Play(Vec<u32>),
    Discard(Vec<u32>),
    Pass,
}

pub enum Plan {
    Play(Seq<u32>),
    Discard(Seq<u32>),
    Pass,
}

impl View for Move {
    type V = Plan;

    open spec fn view(&self) -> Plan {
        match self {
            Move::Play(v) => Plan::Play(v@),
            Move::Discard(v) => Plan::Discard(v@),
            Move::Pass => Plan::Pass,
        }
    }
}

/// The indices of the best-scoring five cards, the first in lexicographic
/// order among equals; `None` for fewer than five cards.
pub open spec fn best_choice(hand: Seq<HandCard>) -> Option<Seq<u32>> {
    let r = ranked(scored_combos(hand), MAX_HAND_SCORE as nat, 0);
    if r.len() == 0 {
        None
    } else {
        Some(r[0].0.map_values(|i: usize| i as u32))
    }
}

pub open spec fn play_best(hand: Seq<HandCard>) -> Plan {
    match best_choice(hand) {
        Some(c) => Plan::Play(c),
        None => Plan::Pass,
    }
}

/// The move for a hand: the advised one, or without advice, a discard of low
/// cards while discards are left and the best five cards otherwise. A move
/// with no card to select is a pass.
pub open spec fn planned(hand: Seq<HandCard>, discards_left: u8, advice: Option<Advice>) -> Plan {
    let p = match advice {
        Some(Advice::EvaluateAllCombinations) => play_best(hand),
        Some(Advice::PlayBestHand) => play_best(hand),
        Some(Advice::SelectDiscardCards { strategy, threshold }) => Plan::Discard(
            discard_choice(hand, strategy@, threshold),
        ),
        Some(_) => Plan::Pass,
        None => if discards_left > 0 {
            Plan::Discard(discard_choice(hand, "threshold"@, Some(8)))
        } else {
            play_best(hand)
        },
    };
    match p {
        Plan::Discard(d) => if d.len() == 0 {
            Plan::Pass
        } else {
            Plan::Discard(d)
        },
        _ => p,
    }
}

fn best_move(hand: &[HandCard]) -> (r: Move)
    requires
        hand@.len() <= u32::MAX,
    ensures
        r@ == play_best(hand@),
{
    let all = find_all_combinations(hand);
    let ghost g = ranked(scored_combos(hand@), MAX_HAND_SCORE as nat, 0);
    if all.len() == 0 {
        assert(g.len() == 0);
        return Move::Pass;
    }
    assert(entry_view(all@[0]) == g[0]);
    let best = &all[0].0;
    proof {
        lemma_ranked_in_range(hand@);
    }
    let mut out: Vec<u32> = Vec::new();
    let mut i: usize = 0;
    while i < best.len()
        invariant
            i <= best@.len(),
            best@ == g[0].0,
            g.len() > 0,
            g == ranked(scored_combos(hand@), MAX_HAND_SCORE as nat, 0),
            forall|j: int| 0 <= j < best@.len() ==> best@[j] < hand@.len(),
            hand@.len() <= u32::MAX,
            out@ == best@.take(i as int).map_values(|x: usize| x as u32),
        decreases best@.len() - i,
    {
        out.push(best[i] as u32);
        i += 1;
        assert(out@ =~= best@.take(i as int).map_values(|x: usize| x as u32));
    }
    assert(best@.take(best@.len() as int) =~= best@);
    Move::Play(out)
}

/// Every ranked choice lists indices of the hand.
proof fn lemma_ranked_in_range(hand: Seq<HandCard>)
    ensures
        forall|i: int, j: int|
            0 <= i < ranked(scored_combos(hand), MAX_HAND_SCORE as nat, 0).len() && 0 <= j
                < ranked(scored_combos(hand), MAX_HAND_SCORE as nat, 0)[i].0.len() ==> ranked(
                scored_combos(hand),
                MAX_HAND_SCORE as nat,
                0,
            )[i].0[j] < hand.len(),
{
    let g = scored_combos(hand);
    lemma_combos_in_range(0, 5, hand.len() as usize);
    assert forall|k: int, j: int| 0 <= k < g.len() && 0 <= j < g[k].0.len() implies g[k].0[j] < hand.len() by {
        assert(g[k].0 == combos(0, 5, hand.len() as usize)[k]);
    }
    lemma_ranked_from(g, MAX_HAND_SCORE as nat, 0, hand.len());
}

/// Ranking only reorders entries of `g`.
proof fn lemma_ranked_from(g: Seq<(Seq<usize>, nat, Seq<char>)>, hi: nat, lo: nat, n: nat)
    requires
        forall|k: int, j: int| 0 <= k < g.len() && 0 <= j < g[k].0.len() ==> g[k].0[j] < n,
    ensures
        forall|i: int, j: int| 0 <= i < ranked(g, hi, lo).len() && 0 <= j < ranked(g, hi, lo)[i].0.len()
            ==> ranked(g, hi, lo)[i].0[j] < n,
    decreases hi + 1 - lo,
{
    if lo <= hi {
        lemma_ranked_from(g, hi, lo + 1, n);
        lemma_scoring_exactly_from(g, lo, n);
        let a = ranked(g, hi, lo + 1);
        let b = scoring_exactly(g, lo);
        assert forall|i: int, j: int| 0 <= i < ranked(g, hi, lo).len() && 0 <= j < ranked(g, hi, lo)[i].0.len()
            implies ranked(g, hi, lo)[i].0[j] < n by {
            if i < a.len() {
                assert(ranked(g, hi, lo)[i] == a[i]);
            } else {
                assert(ranked(g, hi, lo)[i] == b[i - a.len()]);
            }
        }
    }
}

proof fn lemma_scoring_exactly_from(g: Seq<(Seq<usize>, nat, Seq<char>)>, s: nat, n: nat)
    requires
        forall|k: int, j: int| 0 <= k < g.len() && 0 <= j < g[k].0.len() ==> g[k].0[j] < n,
    ensures
        forall|i: int, j: int| 0 <= i < scoring_exactly(g, s).len() && 0 <= j < scoring_exactly(g, s)[i].0.len()
            ==> scoring_exactly(g, s)[i].0[j] < n,
    decreases g.len(),
{
    if g.len() > 0 {
        let h = g.drop_last();
        assert forall|k: int, j: int| 0 <= k < h.len() && 0 <= j < h[k].0.len() implies h[k].0[j] < n by {
            assert(h[k] == g[k]);
        }
        lemma_scoring_exactly_from(h, s, n);
        let r = scoring_exactly(g, s);
        let rh = scoring_exactly(h, s);
        if g.last().1 == s {
            assert(r == rh.push(g.last()));
            assert forall|i: int, j: int| 0 <= i < r.len() && 0 <= j < r[i].0.len() implies r[i].0[j] < n by {
                if i < rh.len() {
                    assert(r[i] == rh[i]);
                } else {
                    assert(r[i] == g[g.len() - 1]);
                }
            }
        } else {
            assert(r == rh);
        }
    }
}

pub open spec fn given(advice: Option<&Advice>) -> Option<Advice> {
    match advice {
        Some(a) => Some(*a),
        None => None,
    }
}

/// Decides what to do with a hand, given the advisor's answer or `None` when
/// there was none.
pub fn choose_move(hand: &[HandCard], discards_left: u8, advice: Option<&Advice>) -> (r: Move)
    requires
        hand@.len() <= u32::MAX,
    ensures
        r@ == planned(hand@, discards_left, given(advice)),
{
    proof {
        reveal_strlit("threshold");
    }
    let m = match advice {
        Some(Advice::EvaluateAllCombinations) => best_move(hand),
        Some(Advice::PlayBestHand) => best_move(hand),
        Some(Advice::SelectDiscardCards { strategy, threshold }) => Move::Discard(
            select_discard_cards(hand, strategy.as_str(), *threshold),
        ),
        Some(_) => Move::Pass,
        None => if discards_left > 0 {
            Move::Discard(select_discard_cards(hand, "threshold", Some(8)))
        } else {
            best_move(hand)
        },
    };
    match m {
        Move::Discard(d) => if d.len() == 0 {
            Move::Pass
        } else {
            Move::Discard(d)
        },
        _ => m,
    }
}

} // verus!
