use vstd::prelude::*;

use super::deck::Card;
use super::blinds::CurrentBlind;
use super::overview::{GameOverview, RoundOverview};
use super::protocol;
use super::protocol::PlayInfo;
use super::Error;

verus! {

/// A card in the hand, and whether it is selected.
#[derive(Clone, Copy, Debug)]
pub struct HandCard {
    pub card: Card,
    pub selected: bool,
}

impl HandCard {
    pub fn card(&self) -> (r: &Card)
        ensures
            *r == self.card,
    {
        &self.card
    }
}

/// The session while a blind is being played.
#[derive(Debug)]
pub struct Play {
    pub info: PlayInfo,
}

/// Where playing the selected cards leads.
#[derive(Debug)]
pub enum PlayResult {
    Again(Play),
    RoundOver(RoundOverview),
    GameOver(GameOverview),
}

/// Where discarding the selected cards leads.
#[derive(Debug)]
pub enum DiscardResult {
    Again(Play),
    GameOver(GameOverview),
}

impl Play {
    pub open spec fn new_spec(info: PlayInfo) -> Play {
        Play { info }
    }

    pub fn new(info: PlayInfo) -> (r: Play)
        ensures
            r == Play::new_spec(info),
    {
        Play { info }
    }

    pub fn blind(&self) -> (r: &CurrentBlind)
        ensures
            *r == self.info.current_blind,
    {
        &self.info.current_blind
    }

    pub fn hand(&self) -> (r: &[HandCard])
        ensures
            r@ == self.info.hand@,
    {
        self.info.hand.as_slice()
    }

    /// The chips scored so far in this blind.
    pub fn score(&self) -> (r: u64)
        ensures
            r == self.info.score,
    {
        self.info.score
    }

    /// Hands left to play.
    pub fn hands(&self) -> (r: u8)
        ensures
            r == self.info.hands,
    {
        self.info.hands
    }

    /// Discards left.
    pub fn discards(&self) -> (r: u8)
        ensures
            r == self.info.discards,
    {
        self.info.discards
    }

    pub fn money(&self) -> (r: u32)
        ensures
            r == self.info.money,
    {
        self.info.money
    }

    /// Toggles the selection of cards; `reply` answers a `play/click` request
    /// with the updated hand.
    pub fn click(self, reply: Result<PlayInfo, String>) -> (r: Result<Play, Error>)
        ensures
            reply matches Ok(info) ==> r == Ok::<Play, Error>(Play { info }),
            reply matches Err(m) ==> r == Err::<Play, Error>(Error::Game(m)),
    {
        match reply {
            Ok(info) => Ok(Play { info }),
            Err(m) => Err(Error::Game(m)),
        }
    }

    /// Plays the selected cards; `reply` answers a `play/play` request.
    pub fn play(self, reply: Result<protocol::PlayResult, String>) -> (r: Result<PlayResult, Error>)
        ensures
            reply matches Ok(protocol::PlayResult::Again(info)) ==> r == Ok::<PlayResult, Error>(PlayResult::Again(Play { info })),
            reply matches Ok(protocol::PlayResult::RoundOver(info)) ==> r == Ok::<PlayResult, Error>(
                PlayResult::RoundOver(RoundOverview { info }),
            ),
            reply matches Ok(protocol::PlayResult::GameOver) ==> r == Ok::<PlayResult, Error>(PlayResult::GameOver(GameOverview {  })),
            reply matches Err(m) ==> r == Err::<PlayResult, Error>(Error::Game(m)),
    {
        match reply {
            Ok(protocol::PlayResult::Again(info)) => Ok(PlayResult::Again(Play { info })),
            Ok(protocol::PlayResult::RoundOver(info)) => Ok(PlayResult::RoundOver(RoundOverview { info })),
            Ok(protocol::PlayResult::GameOver) => Ok(PlayResult::GameOver(GameOverview {  })),
            Err(m) => Err(Error::Game(m)),
        }
    }

    /// Discards the selected cards; `reply` answers a `play/discard` request.
    pub fn discard(self, reply: Result<protocol::DiscardResult, String>) -> (r: Result<DiscardResult, Error>)
        ensures
            reply matches Ok(protocol::DiscardResult::Again(info)) ==> r == Ok::<DiscardResult, Error>(
                DiscardResult::Again(Play { info }),
            ),
            reply matches Ok(protocol::DiscardResult::GameOver) ==> r == Ok::<DiscardResult, Error>(
                DiscardResult::GameOver(GameOverview {  }),
            ),
            reply matches Err(m) ==> r == Err::<DiscardResult, Error>(Error::Game(m)),
    {
        match reply {
            Ok(protocol::DiscardResult::Again(info)) => Ok(DiscardResult::Again(Play { info })),
            Ok(protocol::DiscardResult::GameOver) => Ok(DiscardResult::GameOver(GameOverview {  })),
            Err(m) => Err(Error::Game(m)),
        }
    }
}

} // verus!
