use vstd::prelude::*;

use super::blinds::SelectBlind;
use super::protocol::BlindInfo;
use super::Error;
use crate::net::frame::same_text;

verus! {

#[derive(Clone, Copy, Debug, PartialEq, Eq, Structural)]
pub enum Deck {
    Red,
    Blue,
    Yellow,
    Green,
    Black,
    Magic,
    Nebula,
    GhostDeck,
    Abandoned,
    Checkered,
    Zodiac,
    Painted,
    Anaglyph,
    Plasma,
    Erratic,
}

#[derive(Clone, Copy, Debug, PartialEq, Eq, Structural)]
pub enum Stake {
    White,
    Red,
    Green,
    Black,
    Blue,
    Purple,
    Orange,
    Gold,
}

/// A run's seed, as the game writes it.
#[derive(Clone, Debug)]
pub struct Seed(pub String);

/// The session at the main menu.
#[derive(Debug)]
pub struct Menu {}

impl Menu {
    pub fn new() -> (r: Menu) {
        Menu {  }
    }

    /// Starts a run; `reply` answers a `main_menu/start_run` request with the
    /// first blinds on offer.
    pub fn new_run(self, reply: Result<BlindInfo, String>) -> (r: Result<SelectBlind, Error>)
        ensures
            reply matches Ok(info) ==> r == Ok::<SelectBlind, Error>(SelectBlind { info }),
            reply matches Err(m) ==> r == Err::<SelectBlind, Error>(Error::Game(m)),
    {
        match reply {
            Ok(info) => Ok(SelectBlind { info }),
            Err(m) => Err(Error::Game(m)),
        }
    }
}

/// The text with leading and trailing whitespace removed.
pub uninterp spec fn trimmed(s: Seq<char>) -> Seq<char>;

/// The text in lower case.
pub uninterp spec fn lowered(s: Seq<char>) -> Seq<char>;

/// Relies on `str::trim`: the slice without leading and trailing whitespace.
#[verifier::external_body]
fn trim_text(s: &str) -> (r: &str)
    ensures
        r@ == trimmed(s@),
{
    s.trim()
}

/// Relies on `str::to_lowercase`: the lowercase mapping of each character.
#[verifier::external_body]
fn lowercase(s: &str) -> (r: String)
    ensures
        r@ == lowered(s@),
{
    s.to_lowercase()
}

/// What a user typed, trimmed and in lower case.
pub open spec fn normalized(s: Seq<char>) -> Seq<char> {
    lowered(trimmed(s))
}

pub open spec fn deck_named(name: Seq<char>) -> Option<Deck> {
    if name == "red"@ {
        Some(Deck::Red)
    } else if name == "blue"@ {
        Some(Deck::Blue)
    } else if name == "yellow"@ {
        Some(Deck::Yellow)
    } else if name == "green"@ {
        Some(Deck::Green)
    } else if name == "black"@ {
        Some(Deck::Black)
    } else if name == "magic"@ {
        Some(Deck::Magic)
    } else if name == "nebula"@ {
        Some(Deck::Nebula)
    } else if name == "ghost"@ {
        Some(Deck::GhostDeck)
    } else if name == "abandoned"@ {
        Some(Deck::Abandoned)
    } else if name == "checkered"@ {
        Some(Deck::Checkered)
    } else if name == "zodiac"@ {
        Some(Deck::Zodiac)
    } else if name == "painted"@ {
        Some(Deck::Painted)
    } else if name == "anaglyph"@ {
        Some(Deck::Anaglyph)
    } else if name == "plasma"@ {
        Some(Deck::Plasma)
    } else if name == "erratic"@ {
        Some(Deck::Erratic)
    } else {
        None
    }
}

pub open spec fn stake_named(name: Seq<char>) -> Option<Stake> {
    if name == "white"@ {
        Some(Stake::White)
    } else if name == "red"@ {
        Some(Stake::Red)
    } else if name == "green"@ {
        Some(Stake::Green)
    } else if name == "black"@ {
        Some(Stake::Black)
    } else if name == "blue"@ {
        Some(Stake::Blue)
    } else if name == "purple"@ {
        Some(Stake::Purple)
    } else if name == "orange"@ {
        Some(Stake::Orange)
    } else if name == "gold"@ {
        Some(Stake::Gold)
    } else {
        None
    }
}

pub open spec fn stake_level(s: Stake) -> u8 {
    match s {
        Stake::White => 1,
        Stake::Red => 2,
        Stake::Green => 3,
        Stake::Black => 4,
        Stake::Blue => 5,
        Stake::Purple => 6,
        Stake::Orange => 7,
        Stake::Gold => 8,
    }
}

impl Deck {
    /// The deck a lower-case name without surrounding whitespace names.
    pub fn from_name(name: &str) -> (r: Option<Deck>)
        ensures
            r == deck_named(name@),
    {
        if same_text(name, "red") {
            Some(Deck::Red)
        } else if same_text(name, "blue") {
            Some(Deck::Blue)
        } else if same_text(name, "yellow") {
            Some(Deck::Yellow)
        } else if same_text(name, "green") {
            Some(Deck::Green)
        } else if same_text(name, "black") {
            Some(Deck::Black)
        } else if same_text(name, "magic") {
            Some(Deck::Magic)
        } else if same_text(name, "nebula") {
            Some(Deck::Nebula)
        } else if same_text(name, "ghost") {
            Some(Deck::GhostDeck)
        } else if same_text(name, "abandoned") {
            Some(Deck::Abandoned)
        } else if same_text(name, "checkered") {
            Some(Deck::Checkered)
        } else if same_text(name, "zodiac") {
            Some(Deck::Zodiac)
        } else if same_text(name, "painted") {
            Some(Deck::Painted)
        } else if same_text(name, "anaglyph") {
            Some(Deck::Anaglyph)
        } else if same_text(name, "plasma") {
            Some(Deck::Plasma)
        } else if same_text(name, "erratic") {
            Some(Deck::Erratic)
        } else {
            None
        }
    }

    /// Reads a deck name as a user types it, in any case and with blanks around it.
    pub fn parse(s: &str) -> (r: Result<Deck, String>)
        ensures
            r is Ok <==> deck_named(normalized(s@)) is Some,
            r matches Ok(d) ==> deck_named(normalized(s@)) == Some(d),
            r matches Err(m) ==> m@ == "Invalid deck. Valid options are: Red, Blue, Yellow, Green, Black, Magic, Nebula, Ghost, Abandoned, Checkered, Zodiac, Painted, Anaglyph, Plasma, Erratic"@,
    {
        let name = lowercase(trim_text(s));
        match Deck::from_name(name.as_str()) {
            Some(d) => Ok(d),
            None => Err(
                String::from_str(
                    "Invalid deck. Valid options are: Red, Blue, Yellow, Green, Black, Magic, Nebula, Ghost, Abandoned, Checkered, Zodiac, Painted, Anaglyph, Plasma, Erratic",
                ),
            ),
        }
    }
}

impl Stake {
    /// The stake a lower-case name without surrounding whitespace names.
    pub fn from_name(name: &str) -> (r: Option<Stake>)
        ensures
            r == stake_named(name@),
    {
        if same_text(name, "white") {
            Some(Stake::White)
        } else if same_text(name, "red") {
            Some(Stake::Red)
        } else if same_text(name, "green") {
            Some(Stake::Green)
        } else if same_text(name, "black") {
            Some(Stake::Black)
        } else if same_text(name, "blue") {
            Some(Stake::Blue)
        } else if same_text(name, "purple") {
            Some(Stake::Purple)
        } else if same_text(name, "orange") {
            Some(Stake::Orange)
        } else if same_text(name, "gold") {
            Some(Stake::Gold)
        } else {
            None
        }
    }

    /// Reads a stake name as a user types it, in any case and with blanks around it.
    pub fn parse(s: &str) -> (r: Result<Stake, String>)
        ensures
            r is Ok <==> stake_named(normalized(s@)) is Some,
            r matches Ok(k) ==> stake_named(normalized(s@)) == Some(k),
            r matches Err(m) ==> m@ == "Invalid stake. Valid options are: White, Red, Green, Black, Blue, Purple, Orange, Gold"@,
    {
        let name = lowercase(trim_text(s));
        match Stake::from_name(name.as_str()) {
            Some(k) => Ok(k),
            None => Err(
                String::from_str(
                    "Invalid stake. Valid options are: White, Red, Green, Black, Blue, Purple, Orange, Gold",
                ),
            ),
        }
    }

    /// The stake's level as the game numbers it, from 1 for White to 8 for Gold.
    pub fn level(&self) -> (r: u8)
        ensures
            r == stake_level(*self),
    {
        match self {
            Stake::White => 1,
            Stake::Red => 2,
            Stake::Green => 3,
            Stake::Black => 4,
            Stake::Blue => 5,
            Stake::Purple => 6,
            Stake::Orange => 7,
            Stake::Gold => 8,
        }
    }
}

impl std::str::FromStr for Deck {
    type Err = String;

    fn from_str(s: &str) -> Result<Deck, String> {
        Deck::parse(s)
    }
}

impl std::str::FromStr for Stake {
    type Err = String;

    fn from_str(s: &str) -> Result<Stake, String> {
        Stake::parse(s)
    }
}

} // verus!
