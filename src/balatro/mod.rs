pub mod blinds;
pub mod deck;
pub mod menu;
pub mod overview;
pub mod play;
pub mod protocol;
pub mod shop;

use vstd::prelude::*;

use crate::net::Error as NetError;
use blinds::SelectBlind;
use menu::Menu;
use play::Play;
use protocol::ScreenInfo;
use shop::Shop;

verus! {

/// What a session step can fail with: the connection, or the game refusing it.
#[derive(Debug)]
pub enum Error {
    Net(NetError),
    Game(String),
}

impl From<NetError> for Error {
    fn from(e: NetError) -> Error {
        Error::Net(e)
    }
}

impl vstd::std_specs::convert::FromSpecImpl<NetError> for Error {
    open spec fn obeys_from_spec() -> bool {
        true
    }

    open spec fn from_spec(e: NetError) -> Error {
        Error::Net(e)
    }
}

/// The session on the screen the game shows.
#[derive(Debug)]
pub enum Screen {
    Menu(Menu),
    SelectBlind(SelectBlind),
    Play(Play),
    Shop(Shop),
}

impl Screen {
    /// The session for the screen that `reply`, the answer to a `screen/get`
    /// request, reports.
    pub fn from_reply(reply: Result<ScreenInfo, String>) -> (r: Result<Screen, Error>)
        ensures
            reply matches Ok(ScreenInfo::Menu) ==> r == Ok::<Screen, Error>(Screen::Menu(Menu {  })),
            reply matches Ok(ScreenInfo::SelectBlind(info)) ==> r == Ok::<Screen, Error>(
                Screen::SelectBlind(SelectBlind { info }),
            ),
            reply matches Ok(ScreenInfo::Play(info)) ==> r == Ok::<Screen, Error>(Screen::Play(Play { info })),
            reply matches Ok(ScreenInfo::Shop(info)) ==> r == Ok::<Screen, Error>(Screen::Shop(Shop { info })),
            reply matches Err(m) ==> r == Err::<Screen, Error>(Error::Game(m)),
    {
        match reply {
            Ok(ScreenInfo::Menu) => Ok(Screen::Menu(Menu {  })),
            Ok(ScreenInfo::SelectBlind(info)) => Ok(Screen::SelectBlind(SelectBlind { info })),
            Ok(ScreenInfo::Play(info)) => Ok(Screen::Play(Play { info })),
            Ok(ScreenInfo::Shop(info)) => Ok(Screen::Shop(Shop { info })),
            Err(m) => Err(Error::Game(m)),
        }
    }
}

} // verus!
