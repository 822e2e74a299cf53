use vstd::prelude::*;

use super::play::Play;
use super::protocol::{BlindInfo, PlayInfo};
use super::Error;

verus! {

/// The blind being played, with the chips it asks for.
#[derive(Clone, Debug)]
pub enum CurrentBlind {
    Small { chips: u32 },
    Big { chips: u32 },
    /// `kind` is the boss blind's key, such as `bl_ox`.
    Boss { kind: String, chips: u32 },
}

#[derive(Clone, Copy, Debug, PartialEq, Eq, Structural)]
pub enum BlindState {
    Select,
    Skipped,
    Upcoming,
    Defeated,
}

/// The small blind on offer; `tag` is the key of the tag skipping it earns.
#[derive(Clone, Debug)]
pub struct SmallBlindChoice {
    pub state: BlindState,
    pub chips: u64,
    pub tag: String,
}

#[derive(Clone, Debug)]
pub struct BigBlindChoice {
    pub state: BlindState,
    pub chips: u64,
    pub tag: String,
}

/// The boss blind on offer; `kind` is its key.
#[derive(Clone, Debug)]
pub struct BossBlindChoice {
    pub kind: String,
    pub state: BlindState,
    pub chips: u64,
}

/// The session while the player chooses a blind.
#[derive(Debug)]
pub struct SelectBlind {
    pub info: BlindInfo,
}

impl SelectBlind {
    pub fn new(info: BlindInfo) -> (r: SelectBlind)
        ensures
            r.info == info,
    {
        SelectBlind { info }
    }

    /// Plays the blind on offer; `reply` answers a `blind_select/select` request.
    pub fn select(self, reply: Result<PlayInfo, String>) -> (r: Result<Play, Error>)
        ensures
            reply matches Ok(info) ==> r == Ok::<Play, Error>(Play::new_spec(info)),
            reply matches Err(m) ==> r == Err::<Play, Error>(Error::Game(m)),
    {
        match reply {
            Ok(info) => Ok(Play::new(info)),
            Err(m) => Err(Error::Game(m)),
        }
    }

    /// Skips the blind on offer; `reply` answers a `blind_select/skip` request
    /// with the blinds now on offer.
    pub fn skip(self, reply: Result<BlindInfo, String>) -> (r: Result<SelectBlind, Error>)
        ensures
            reply matches Ok(info) ==> r == Ok::<SelectBlind, Error>(SelectBlind { info }),
            reply matches Err(m) ==> r == Err::<SelectBlind, Error>(Error::Game(m)),
    {
        match reply {
            Ok(info) => Ok(SelectBlind { info }),
            Err(m) => Err(Error::Game(m)),
        }
    }

    pub fn small(&self) -> (r: &SmallBlindChoice)
        ensures
            *r == self.info.small,
    {
        &self.info.small
    }

    pub fn big(&self) -> (r: &BigBlindChoice)
        ensures
            *r == self.info.big,
    {
        &self.info.big
    }

    pub fn boss(&self) -> (r: &BossBlindChoice)
        ensures
            *r == self.info.boss,
    {
        &self.info.boss
    }
}

} // verus!
