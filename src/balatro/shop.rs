use vstd::prelude::*;

use super::blinds::SelectBlind;
use super::deck::{Card, Edition};
use super::protocol::{BlindInfo, ShopInfo};
use super::Error;

verus! {

/// What a main-slot card is; the consumables and jokers carry their key.
#[derive(Clone, Debug)]
pub enum Item {
    Joker(String),
    Planet(String),
    Tarot(String),
    Spectral(String),
    PlayingCard(Card),
}

#[derive(Clone, Debug)]
pub struct MainCard {
    pub item: Item,
    pub price: u8,
    pub edition: Edition,
}

/// A booster pack on sale; `booster` is its key.
#[derive(Clone, Debug)]
pub struct BoosterItem {
    pub booster: String,
    pub price: u8,
}

/// A voucher on sale; `voucher` is its key.
#[derive(Clone, Debug)]
pub struct VoucherItem {
    pub voucher: String,
    pub price: u8,
}

/// The session while the shop is open.
#[derive(Debug)]
pub struct Shop {
    pub info: ShopInfo,
}

/// The shop after a purchase or a reroll, as the peer reports it.
pub open spec fn shop_after(reply: Result<ShopInfo, String>) -> Result<Shop, Error> {
    match reply {
        Ok(info) => Ok(Shop { info }),
        Err(m) => Err(Error::Game(m)),
    }
}

impl Shop {
    pub fn new(info: ShopInfo) -> (r: Shop)
        ensures
            r.info == info,
    {
        Shop { info }
    }

    pub fn main_cards(&self) -> (r: &[MainCard])
        ensures
            r@ == self.info.main@,
    {
        self.info.main.as_slice()
    }

    pub fn vouchers(&self) -> (r: &[VoucherItem])
        ensures
            r@ == self.info.vouchers@,
    {
        self.info.vouchers.as_slice()
    }

    pub fn boosters(&self) -> (r: &[BoosterItem])
        ensures
            r@ == self.info.boosters@,
    {
        self.info.boosters.as_slice()
    }

    fn updated(self, reply: Result<ShopInfo, String>) -> (r: Result<Shop, Error>)
        ensures
            r == shop_after(reply),
    {
        match reply {
            Ok(info) => Ok(Shop { info }),
            Err(m) => Err(Error::Game(m)),
        }
    }

    /// Buys a main-slot card; `reply` answers a `shop/buymain` request.
    pub fn buy_main(self, reply: Result<ShopInfo, String>) -> (r: Result<Shop, Error>)
        ensures
            r == shop_after(reply),
    {
        self.updated(reply)
    }

    /// Buys a main-slot card and uses it at once; `reply` answers a `shop/buyuse` request.
    pub fn buy_and_use(self, reply: Result<ShopInfo, String>) -> (r: Result<Shop, Error>)
        ensures
            r == shop_after(reply),
    {
        self.updated(reply)
    }

    /// Buys a voucher; `reply` answers a `shop/buyvoucher` request.
    pub fn buy_voucher(self, reply: Result<ShopInfo, String>) -> (r: Result<Shop, Error>)
        ensures
            r == shop_after(reply),
    {
        self.updated(reply)
    }

    /// Buys a booster pack; `reply` answers a `shop/buybooster` request.
    pub fn buy_booster(self, reply: Result<ShopInfo, String>) -> (r: Result<Shop, Error>)
        ensures
            r == shop_after(reply),
    {
        self.updated(reply)
    }

    /// Rerolls the main slots; `reply` answers a `shop/reroll` request.
    pub fn reroll(self, reply: Result<ShopInfo, String>) -> (r: Result<Shop, Error>)
        ensures
            r == shop_after(reply),
    {
        self.updated(reply)
    }

    /// Leaves the shop for the next blind choice; `reply` answers a
    /// `shop/continue` request.
    pub fn leave(self, reply: Result<BlindInfo, String>) -> (r: Result<SelectBlind, Error>)
        ensures
            reply matches Ok(info) ==> r == Ok::<SelectBlind, Error>(SelectBlind { info }),
            reply matches Err(m) ==> r == Err::<SelectBlind, Error>(Error::Game(m)),
    {
        match reply {
            Ok(info) => Ok(SelectBlind { info }),
            Err(m) => Err(Error::Game(m)),
        }
    }
}

} // verus!
