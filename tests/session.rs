use remotro::balatro::blinds::{
    BigBlindChoice, BlindState, BossBlindChoice, CurrentBlind, SmallBlindChoice,
};
use remotro::balatro::deck::{Card, Rank, Suit};
use remotro::balatro::menu::{Deck, Menu, Stake};
use remotro::balatro::overview::EarningKind;
use remotro::balatro::play::{HandCard, PlayResult};
use remotro::balatro::protocol::{
    self, BlindInfo, CashOut, Earning, PlayClick, PlayInfo, PlayPlay, RoundOverviewInfo,
    ScreenInfo, ShopInfo, StartRun,
};
use remotro::balatro::{Error, Screen};
use remotro::net::engine::{Config, Effect, Engine, Event};
use remotro::net::frame::decode;
use remotro::net::protocol::{accept_reply, request_line, Packet, Request};

fn blinds() -> BlindInfo {
    BlindInfo {
        small: SmallBlindChoice { state: BlindState::Select, chips: 300, tag: "tag_economy".to_string() },
        big: BigBlindChoice { state: BlindState::Upcoming, chips: 450, tag: "tag_skip".to_string() },
        boss: BossBlindChoice { kind: "bl_ox".to_string(), state: BlindState::Upcoming, chips: 600 },
    }
}

fn card(rank: Rank, suit: Suit) -> HandCard {
    HandCard {
        card: Card { edition: None, enhancement: None, rank, suit, seal: None },
        selected: false,
    }
}

fn eight_cards() -> Vec<HandCard> {
    vec![
        card(Rank::Ace, Suit::Spades),
        card(Rank::King, Suit::Spades),
        card(Rank::Queen, Suit::Spades),
        card(Rank::Jack, Suit::Spades),
        card(Rank::Ten, Suit::Spades),
        card(Rank::Two, Suit::Hearts),
        card(Rank::Three, Suit::Clubs),
        card(Rank::Four, Suit::Diamonds),
    ]
}

fn hand_info() -> PlayInfo {
    PlayInfo {
        current_blind: CurrentBlind::Small { chips: 300 },
        hand: eight_cards(),
        score: 0,
        hands: 4,
        discards: 3,
        money: 4,
    }
}

#[test]
fn select_gives_play_with_received_counts() {
    let sb = Menu::new().new_run(Ok(blinds())).ok().unwrap();
    assert_eq!(sb.small().chips, 300);
    assert_eq!(sb.boss().kind, "bl_ox");
    let play = sb.select(Ok(hand_info())).ok().unwrap();
    assert_eq!(play.hands(), 4);
    assert_eq!(play.discards(), 3);
    assert_eq!(play.money(), 4);
    assert_eq!(play.score(), 0);
    assert_eq!(play.hand().len(), 8);
}

#[test]
fn skip_gives_new_blind_selection() {
    let sb = Menu::new().new_run(Ok(blinds())).ok().unwrap();
    let mut next = blinds();
    next.small.state = BlindState::Skipped;
    next.big.state = BlindState::Select;
    let sb2 = sb.skip(Ok(next)).ok().unwrap();
    assert_eq!(sb2.small().state, BlindState::Skipped);
    assert_eq!(sb2.big().state, BlindState::Select);
}

#[test]
fn refused_transition_reports_game_error() {
    let sb = Menu::new().new_run(Ok(blinds())).ok().unwrap();
    match sb.select(Err("no blind".to_string())) {
        Err(Error::Game(m)) => assert_eq!(m, "no blind"),
        _ => panic!("expected the game's refusal"),
    }
}

#[test]
fn screen_reply_picks_session() {
    assert!(matches!(Screen::from_reply(Ok(ScreenInfo::Menu)), Ok(Screen::Menu(_))));
    assert!(matches!(Screen::from_reply(Ok(ScreenInfo::Play(hand_info()))), Ok(Screen::Play(_))));
    assert!(matches!(Screen::from_reply(Err("busy".to_string())), Err(Error::Game(_))));
}

#[test]
fn request_kinds_pair_with_reply_kinds() {
    assert_eq!(StartRun::kind(), "main_menu/start_run");
    assert_eq!(<StartRun as Request>::Expect::kind(), "result/blind_select/info");
    assert_eq!(<protocol::SelectBlind as Request>::Expect::kind(), "result/play/hand");
    assert_eq!(<PlayPlay as Request>::Expect::kind(), "result/play/play/result");
    assert_eq!(<CashOut as Request>::Expect::kind(), "result/shop/info");
    assert_eq!(<protocol::ShopContinue as Request>::Expect::kind(), "result/blind_select/info");
    assert_eq!(protocol::ShopBuyVoucher::kind(), "shop/buyvoucher");
    assert_eq!(protocol::GetScreen::kind(), "screen/get");
}

#[test]
fn round_overview_lists_earnings() {
    let info = RoundOverviewInfo {
        earnings: vec![
            Earning { kind: protocol::EarningKind::Blind, value: 3 },
            Earning { kind: protocol::EarningKind::Hands(3), value: 3 },
            Earning { kind: protocol::EarningKind::Joker("j_golden".to_string()), value: 4 },
        ],
        total_earned: 10,
    };
    let sb = Menu::new().new_run(Ok(blinds())).ok().unwrap();
    let play = sb.select(Ok(hand_info())).ok().unwrap();
    let r = match play.play(Ok(protocol::PlayResult::RoundOver(info))).ok().unwrap() {
        PlayResult::RoundOver(r) => r,
        _ => panic!("expected the round to be over"),
    };
    assert_eq!(r.total_earned(), 10);
    let e = r.earnings();
    assert_eq!(e.len(), 3);
    assert!(matches!(e[0].kind, EarningKind::Blind));
    assert!(matches!(e[1].kind, EarningKind::Hands(3)));
    match &e[2].kind {
        EarningKind::Joker(k) => assert_eq!(k, "j_golden"),
        _ => panic!("expected a joker line"),
    }
}

/// Carries one request through the engine and its reply back, recording the
/// kinds on the wire; returns the reply's body.
fn round_trip<R: Request>(
    e: &mut Engine,
    now: &mut u64,
    body: &str,
    reply_line: &str,
    sent: &mut Vec<String>,
    received: &mut Vec<String>,
) -> String {
    *now += 100;
    let line = request_line::<R>(body);
    match e.step(Event::Outbound(line), *now) {
        Some(Effect::Write(t)) => sent.push(decode(&t).ok().unwrap().kind),
        _ => panic!("expected a write"),
    }
    *now += 100;
    let frame = match e.step(Event::Line(reply_line.to_string()), *now) {
        Some(Effect::Forward(f)) => f,
        _ => panic!("expected a forwarded frame"),
    };
    received.push(frame.kind.clone());
    accept_reply::<R::Expect>(Some(Ok(frame))).ok().unwrap()
}

#[test]
fn full_round_scenario() {
    let mut e = Engine::new(Config::standard(), 0);
    let mut now = 0;
    let mut sent = Vec::new();
    let mut received = Vec::new();

    let start = StartRun { back: Deck::Red, stake: Stake::White, seed: None };
    assert_eq!(start.stake.level(), 1);
    let body = round_trip::<StartRun>(
        &mut e, &mut now, "{\"back\":\"b_red\",\"stake\":1,\"seed\":null}",
        "result/blind_select/info!{\"Ok\":{}}\n", &mut sent, &mut received,
    );
    assert_eq!(body, "{\"Ok\":{}}");
    let sb = Menu::new().new_run(Ok(blinds())).ok().unwrap();

    round_trip::<protocol::SelectBlind>(
        &mut e, &mut now, "null", "result/play/hand!{\"Ok\":{}}\n", &mut sent, &mut received,
    );
    let play = sb.select(Ok(hand_info())).ok().unwrap();
    assert_eq!(play.hand().len(), 8);
    assert_eq!((play.hands(), play.discards(), play.score(), play.money()), (4, 3, 0, 4));

    let click = PlayClick { indices: vec![0, 1, 2, 3, 4] };
    assert_eq!(click.indices.len(), 5);
    round_trip::<PlayClick>(
        &mut e, &mut now, "{\"indices\":[0,1,2,3,4]}", "result/play/hand!{\"Ok\":{}}\n",
        &mut sent, &mut received,
    );
    let play = play.click(Ok(hand_info())).ok().unwrap();

    round_trip::<PlayPlay>(
        &mut e, &mut now, "null", "result/play/play/result!{\"Ok\":{\"RoundOver\":{}}}\n",
        &mut sent, &mut received,
    );
    let over = RoundOverviewInfo { earnings: Vec::new(), total_earned: 15 };
    let overview = match play.play(Ok(protocol::PlayResult::RoundOver(over))).ok().unwrap() {
        PlayResult::RoundOver(o) => o,
        _ => panic!("expected the round to be over"),
    };
    assert_eq!(overview.total_earned(), 15);

    round_trip::<CashOut>(
        &mut e, &mut now, "null", "result/shop/info!{\"Ok\":{}}\n", &mut sent, &mut received,
    );
    let shop = overview
        .cash_out(Ok(ShopInfo { main: Vec::new(), vouchers: Vec::new(), boosters: Vec::new() }))
        .ok()
        .unwrap();
    assert_eq!(shop.main_cards().len(), 0);

    assert_eq!(
        sent,
        vec!["main_menu/start_run", "blind_select/select", "play/click", "play/play", "overview/cash_out"]
    );
    assert_eq!(
        received,
        vec![
            "result/blind_select/info",
            "result/play/hand",
            "result/play/hand",
            "result/play/play/result",
            "result/shop/info"
        ]
    );
}
