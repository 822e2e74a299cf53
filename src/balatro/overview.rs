use vstd::prelude::*;

use super::protocol;
use super::protocol::{RoundOverviewInfo, ShopInfo};
use super::shop::Shop;
use super::Error;

verus! {

/// One line of a round's payout.
#[derive(Debug)]
pub struct Earning {
    pub kind: EarningKind,
    pub value: u64,
}

/// What a payout line is for; `Joker` and `Tag` carry the item's key.
#[derive(Debug)]
pub enum EarningKind {
    Joker(String),
    Tag(String),
    Blind,
    Interest,
    Hands(u64),
    Discards(u64),
}

/// The payout line as reported, in the owner's terms.
pub open spec fn earning_matches(e: Earning, p: protocol::Earning) -> bool {
    &&& e.value == p.value
    &&& match (e.kind, p.kind) {
        (EarningKind::Joker(a), protocol::EarningKind::Joker(b)) => a@ == b@,
        (EarningKind::Tag(a), protocol::EarningKind::Tag(b)) => a@ == b@,
        (EarningKind::Blind, protocol::EarningKind::Blind) => true,
        (EarningKind::Interest, protocol::EarningKind::Interest) => true,
        (EarningKind::Hands(a), protocol::EarningKind::Hands(b)) => a == b,
        (EarningKind::Discards(a), protocol::EarningKind::Discards(b)) => a == b,
        _ => false,
    }
}

/// The session after a blind is beaten, before cashing out.
#[derive(Debug)]
pub struct RoundOverview {
    pub info: RoundOverviewInfo,
}

/// The session once the run is lost: nothing more can be done in it.
#[derive(Debug)]
pub struct GameOverview {}

impl GameOverview {
    pub fn new() -> (r: GameOverview) {
        GameOverview {  }
    }
}

fn copy_earning(p: &protocol::Earning) -> (r: Earning)
    ensures
        earning_matches(r, *p),
{
    let kind = match &p.kind {
        protocol::EarningKind::Joker(s) => EarningKind::Joker(s.clone()),
        protocol::EarningKind::Tag(t) => EarningKind::Tag(t.clone()),
        protocol::EarningKind::Blind => EarningKind::Blind,
        protocol::EarningKind::Interest => EarningKind::Interest,
        protocol::EarningKind::Hands(h) => EarningKind::Hands(*h),
        protocol::EarningKind::Discards(d) => EarningKind::Discards(*d),
    };
    Earning { kind, value: p.value }
}

impl RoundOverview {
    pub fn new(info: RoundOverviewInfo) -> (r: RoundOverview)
        ensures
            r.info == info,
    {
        RoundOverview { info }
    }

    /// The round's payout, line by line.
    pub fn earnings(&self) -> (r: Vec<Earning>)
        ensures
            r@.len() == self.info.earnings@.len(),
            forall|i: int| 0 <= i < r@.len() ==> earning_matches(#[trigger] r@[i], self.info.earnings@[i]),
    {
        let mut out: Vec<Earning> = Vec::new();
        let mut i: usize = 0;
        while i < self.info.earnings.len()
            invariant
                i <= self.info.earnings@.len(),
                out@.len() == i,
                forall|j: int| 0 <= j < i ==> earning_matches(#[trigger] out@[j], self.info.earnings@[j]),
            decreases self.info.earnings@.len() - i,
        {
            out.push(copy_earning(&self.info.earnings[i]));
            i += 1;
        }
        out
    }

    pub fn total_earned(&self) -> (r: u64)
        ensures
            r == self.info.total_earned,
    {
        self.info.total_earned
    }

    /// Collects the payout and enters the shop; `reply` answers an
    /// `overview/cash_out` request.
    pub fn cash_out(self, reply: Result<ShopInfo, String>) -> (r: Result<Shop, Error>)
        ensures
            reply matches Ok(info) ==> r == Ok::<Shop, Error>(Shop { info }),
            reply matches Err(m) ==> r == Err::<Shop, Error>(Error::Game(m)),
    {
        match reply {
            Ok(info) => Ok(Shop { info }),
            Err(m) => Err(Error::Game(m)),
        }
    }
}

} // verus!
