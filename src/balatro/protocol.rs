use vstd::prelude::*;

use super::blinds::{BigBlindChoice, BossBlindChoice, CurrentBlind, SmallBlindChoice};
use super::menu::{Deck, Seed, Stake};
use super::play::HandCard;
use super::shop::{BoosterItem, MainCard, VoucherItem};
use crate::net::protocol::{Packet, Request, Response};

verus! {

/// Starts a new run from the main menu.
#[derive(Clone, Debug)]
pub struct StartRun {
    pub back: Deck,
    pub stake: Stake,
    pub seed: Option<Seed>,
}

/// Asks which screen the game shows.
#[derive(Clone, Copy, Debug)]
pub struct GetScreen;

/// The screen the game shows, with what the session there needs.
#[derive(Clone, Debug)]
pub enum ScreenInfo {
    Menu,
    SelectBlind(BlindInfo),
    Play(PlayInfo),
    Shop(ShopInfo),
}

/// The three blinds on offer.
#[derive(Clone, Debug)]
pub struct BlindInfo {
    pub small: SmallBlindChoice,
    pub big: BigBlindChoice,
    pub boss: BossBlindChoice,
}

/// Plays the blind on offer.
#[derive(Clone, Copy, Debug)]
pub struct SelectBlind;

/// Skips the blind on offer.
#[derive(Clone, Copy, Debug)]
pub struct SkipBlind;

/// The state of a blind being played.
#[derive(Clone, Debug)]
pub struct PlayInfo {
    pub current_blind: CurrentBlind,
    pub hand: Vec<HandCard>,
    pub score: u64,
    pub hands: u8,
    pub discards: u8,
    pub money: u32,
}

/// Toggles the selection of the cards at these hand positions.
#[derive(Clone, Debug)]
pub struct PlayClick {
    pub indices: Vec<u32>,
}

/// Plays the selected cards.
#[derive(Clone, Copy, Debug)]
pub struct PlayPlay;

/// Discards the selected cards.
#[derive(Clone, Copy, Debug)]
pub struct PlayDiscard;

/// Where playing the selected cards led.
#[derive(Clone, Debug)]
pub enum PlayResult {
    Again(PlayInfo),
    RoundOver(RoundOverviewInfo),
    GameOver,
}

/// Where discarding the selected cards led.
#[derive(Clone, Debug)]
pub enum DiscardResult {
    Again(PlayInfo),
    GameOver,
}

/// A beaten blind's payout.
#[derive(Clone, Debug)]
pub struct RoundOverviewInfo {
    pub earnings: Vec<Earning>,
    pub total_earned: u64,
}

#[derive(Clone, Debug)]
pub struct Earning {
    pub kind: EarningKind,
    pub value: u64,
}

#[derive(Clone, Debug)]
pub enum EarningKind {
    Joker(String),
    Tag(String),
    Blind,
    Interest,
    Hands(u64),
    Discards(u64),
}

/// Collects the payout of a beaten blind.
#[derive(Clone, Copy, Debug)]
pub struct CashOut;

/// What the shop offers.
#[derive(Clone, Debug)]
pub struct ShopInfo {
    pub main: Vec<MainCard>,
    pub vouchers: Vec<VoucherItem>,
    pub boosters: Vec<BoosterItem>,
}

/// Buys the main-slot card at `index`.
#[derive(Clone, Copy, Debug)]
pub struct ShopBuyMain {
    pub index: u8,
}

/// Buys the main-slot card at `index` and uses it.
#[derive(Clone, Copy, Debug)]
pub struct ShopBuyUse {
    pub index: u8,
}

/// Buys the voucher at `index`.
#[derive(Clone, Copy, Debug)]
pub struct ShopBuyVoucher {
    pub index: u8,
}

/// Buys the booster pack at `index`.
#[derive(Clone, Copy, Debug)]
pub struct ShopBuyBooster {
    pub index: u8,
}

/// Rerolls the shop's main slots.
#[derive(Clone, Copy, Debug)]
pub struct ShopReroll {}

/// Leaves the shop.
#[derive(Clone, Copy, Debug)]
pub struct ShopContinue {}

impl Packet for StartRun {
    open spec fn spec_kind() -> Seq<char> {
        "main_menu/start_run"@
    }

    fn kind() -> (r: String) {
        String::from_str("main_menu/start_run")
    }
}

impl Request for StartRun {
    type Expect = Result<BlindInfo, String>;
}

impl Packet for GetScreen {
    open spec fn spec_kind() -> Seq<char> {
        "screen/get"@
    }

    fn kind() -> (r: String) {
        String::from_str("screen/get")
    }
}

impl Request for GetScreen {
    type Expect = Result<ScreenInfo, String>;
}

impl Packet for ScreenInfo {
    open spec fn spec_kind() -> Seq<char> {
        "screen/current"@
    }

    fn kind() -> (r: String) {
        String::from_str("screen/current")
    }
}

impl Response for ScreenInfo {
}

impl Packet for BlindInfo {
    open spec fn spec_kind() -> Seq<char> {
        "blind_select/info"@
    }

    fn kind() -> (r: String) {
        String::from_str("blind_select/info")
    }
}

impl Response for BlindInfo {
}

impl Packet for SelectBlind {
    open spec fn spec_kind() -> Seq<char> {
        "blind_select/select"@
    }

    fn kind() -> (r: String) {
        String::from_str("blind_select/select")
    }
}

impl Request for SelectBlind {
    type Expect = Result<PlayInfo, String>;
}

impl Packet for SkipBlind {
    open spec fn spec_kind() -> Seq<char> {
        "blind_select/skip"@
    }

    fn kind() -> (r: String) {
        String::from_str("blind_select/skip")
    }
}

impl Request for SkipBlind {
    type Expect = Result<BlindInfo, String>;
}

impl Packet for PlayInfo {
    open spec fn spec_kind() -> Seq<char> {
        "play/hand"@
    }

    fn kind() -> (r: String) {
        String::from_str("play/hand")
    }
}

impl Response for PlayInfo {
}

impl Packet for PlayClick {
    open spec fn spec_kind() -> Seq<char> {
        "play/click"@
    }

    fn kind() -> (r: String) {
        String::from_str("play/click")
    }
}

impl Request for PlayClick {
    type Expect = Result<PlayInfo, String>;
}

impl Packet for PlayPlay {
    open spec fn spec_kind() -> Seq<char> {
        "play/play"@
    }

    fn kind() -> (r: String) {
        String::from_str("play/play")
    }
}

impl Request for PlayPlay {
    type Expect = Result<PlayResult, String>;
}

impl Packet for PlayDiscard {
    open spec fn spec_kind() -> Seq<char> {
        "play/discard"@
    }

    fn kind() -> (r: String) {
        String::from_str("play/discard")
    }
}

impl Request for PlayDiscard {
    type Expect = Result<DiscardResult, String>;
}

impl Packet for PlayResult {
    open spec fn spec_kind() -> Seq<char> {
        "play/play/result"@
    }

    fn kind() -> (r: String) {
        String::from_str("play/play/result")
    }
}

impl Response for PlayResult {
}

impl Packet for DiscardResult {
    open spec fn spec_kind() -> Seq<char> {
        "play/discard/result"@
    }

    fn kind() -> (r: String) {
        String::from_str("play/discard/result")
    }
}

impl Response for DiscardResult {
}

impl Packet for RoundOverviewInfo {
    open spec fn spec_kind() -> Seq<char> {
        "overview/round"@
    }

    fn kind() -> (r: String) {
        String::from_str("overview/round")
    }
}

impl Response for RoundOverviewInfo {
}

impl Packet for CashOut {
    open spec fn spec_kind() -> Seq<char> {
        "overview/cash_out"@
    }

    fn kind() -> (r: String) {
        String::from_str("overview/cash_out")
    }
}

impl Request for CashOut {
    type Expect = Result<ShopInfo, String>;
}

impl Packet for ShopInfo {
    open spec fn spec_kind() -> Seq<char> {
        "shop/info"@
    }

    fn kind() -> (r: String) {
        String::from_str("shop/info")
    }
}

impl Response for ShopInfo {
}

impl Packet for ShopBuyMain {
    open spec fn spec_kind() -> Seq<char> {
        "shop/buymain"@
    }

    fn kind() -> (r: String) {
        String::from_str("shop/buymain")
    }
}

impl Request for ShopBuyMain {
    type Expect = Result<ShopInfo, String>;
}

impl Packet for ShopBuyUse {
    open spec fn spec_kind() -> Seq<char> {
        "shop/buyuse"@
    }

    fn kind() -> (r: String) {
        String::from_str("shop/buyuse")
    }
}

impl Request for ShopBuyUse {
    type Expect = Result<ShopInfo, String>;
}

impl Packet for ShopBuyVoucher {
    open spec fn spec_kind() -> Seq<char> {
        "shop/buyvoucher"@
    }

    fn kind() -> (r: String) {
        String::from_str("shop/buyvoucher")
    }
}

impl Request for ShopBuyVoucher {
    type Expect = Result<ShopInfo, String>;
}

impl Packet for ShopBuyBooster {
    open spec fn spec_kind() -> Seq<char> {
        "shop/buybooster"@
    }

    fn kind() -> (r: String) {
        String::from_str("shop/buybooster")
    }
}

impl Request for ShopBuyBooster {
    type Expect = Result<ShopInfo, String>;
}

impl Packet for ShopReroll {
    open spec fn spec_kind() -> Seq<char> {
        "shop/reroll"@
    }

    fn kind() -> (r: String) {
        String::from_str("shop/reroll")
    }
}

impl Request for ShopReroll {
    type Expect = Result<ShopInfo, String>;
}

impl Packet for ShopContinue {
    open spec fn spec_kind() -> Seq<char> {
        "shop/continue"@
    }

    fn kind() -> (r: String) {
        String::from_str("shop/continue")
    }
}

impl Request for ShopContinue {
    type Expect = Result<BlindInfo, String>;
}

} // verus!
