use remotro::balatro::protocol::{BlindInfo, StartRun};
use remotro::net::engine::{Config, Effect, Engine, Event};
use remotro::net::frame::decode;
use remotro::net::protocol::{accept_reply, request_line};
use remotro::net::Error;

fn short() -> Config {
    Config { inactivity_timeout: 70, ping_response_timeout: 30, max_ping_retries: 3 }
}

fn written(e: Option<Effect>) -> String {
    match e {
        Some(Effect::Write(t)) => t,
        _ => panic!("expected a write"),
    }
}

#[test]
fn standard_config_values() {
    let c = Config::standard();
    assert_eq!(c.inactivity_timeout, 7000);
    assert_eq!(c.ping_response_timeout, 3000);
    assert_eq!(c.max_ping_retries, 3);
}

#[test]
fn busy_connection_never_pings() {
    let mut e = Engine::new(short(), 0);
    let mut now = 0;
    for i in 0..50 {
        now += 60;
        assert!(e.step(Event::Tick, now).is_none());
        let ev = if i % 2 == 0 {
            Event::Outbound("a!1\n".to_string())
        } else {
            Event::Line("b!2\n".to_string())
        };
        match e.step(ev, now) {
            Some(Effect::Write(t)) => assert_ne!(t, "ping!\n"),
            Some(Effect::Forward(f)) => assert_eq!(f.kind, "b"),
            _ => panic!("unexpected effect"),
        }
    }
}

#[test]
fn idle_connection_pings_then_times_out() {
    let mut e = Engine::new(short(), 1000);
    assert_eq!(e.next_deadline(), Some(1070));
    assert!(e.step(Event::Tick, 1069).is_none());
    assert_eq!(written(e.step(Event::Tick, 1070)), "ping!\n");
    assert_eq!(e.next_deadline(), Some(1100));
    assert!(e.step(Event::Tick, 1099).is_none());
    assert_eq!(written(e.step(Event::Tick, 1100)), "ping!\n");
    assert_eq!(written(e.step(Event::Tick, 1130)), "ping!\n");
    assert!(matches!(e.step(Event::Tick, 1160), Some(Effect::Terminate(Error::Timeout))));
    assert!(e.finished);
    assert_eq!(e.next_deadline(), None);
}

#[test]
fn any_frame_answers_outstanding_pings() {
    let mut e = Engine::new(short(), 0);
    assert_eq!(written(e.step(Event::Tick, 70)), "ping!\n");
    assert_eq!(written(e.step(Event::Tick, 100)), "ping!\n");
    assert!(e.step(Event::Line("pong!\n".to_string()), 110).is_none());
    assert_eq!(e.heartbeat.unanswered, 0);
    assert_eq!(e.heartbeat.ping_deadline, None);
    assert_eq!(e.next_deadline(), Some(180));
    assert!(e.step(Event::Tick, 179).is_none());
}

#[test]
fn ping_is_answered_with_one_pong_and_not_forwarded() {
    let mut e = Engine::new(short(), 0);
    assert_eq!(written(e.step(Event::Line("ping!\n".to_string()), 5)), "pong!\n");
    assert_eq!(written(e.step(Event::Outbound("x!y\n".to_string()), 6)), "x!y\n");
}

#[test]
fn malformed_line_stops_engine() {
    let mut e = Engine::new(short(), 0);
    assert!(matches!(
        e.step(Event::Line("no separator\n".to_string()), 1),
        Some(Effect::Terminate(Error::MalformedFrame))
    ));
    assert!(e.finished);
    assert!(e.step(Event::Line("a!b\n".to_string()), 2).is_none());
    assert!(e.step(Event::Tick, 10_000).is_none());
    let r = accept_reply::<Result<BlindInfo, String>>(None);
    assert!(matches!(r, Err(Error::ConnectionClosed)));
}

#[test]
fn terminal_events_stop_engine() {
    let mut e = Engine::new(short(), 0);
    assert!(matches!(e.step(Event::Eof, 1), Some(Effect::Terminate(Error::ConnectionClosed))));
    let mut e = Engine::new(short(), 0);
    match e.step(Event::ReadFailed("reset".to_string()), 1) {
        Some(Effect::Terminate(Error::Io(m))) => assert_eq!(m, "reset"),
        _ => panic!("expected an I/O error"),
    }
    let mut e = Engine::new(short(), 0);
    assert!(matches!(e.step(Event::Close, 1), Some(Effect::Stop)));
    assert!(e.step(Event::Outbound("a!b\n".to_string()), 2).is_none());
    let mut e = Engine::new(short(), 0);
    assert!(matches!(e.step(Event::QueueClosed, 1), Some(Effect::Stop)));
}

#[test]
fn request_after_engine_stopped_fails_closed() {
    let r = accept_reply::<Result<BlindInfo, String>>(None);
    assert!(matches!(r, Err(Error::ConnectionClosed)));
    let r = accept_reply::<Result<BlindInfo, String>>(Some(Err(Error::Timeout)));
    assert!(matches!(r, Err(Error::Timeout)));
}

#[test]
fn reply_of_other_kind_is_a_mismatch() {
    let f = decode("play/hand!{}").unwrap();
    match accept_reply::<Result<BlindInfo, String>>(Some(Ok(f))) {
        Err(Error::KindMismatch { expected, actual }) => {
            assert_eq!(expected, "result/blind_select/info");
            assert_eq!(actual, "play/hand");
        }
        _ => panic!("expected a kind mismatch"),
    }
}

#[test]
fn request_line_tags_body_with_request_kind() {
    let line = request_line::<StartRun>("{\"back\":\"b_red\",\"stake\":1,\"seed\":null}");
    assert_eq!(line, "main_menu/start_run!{\"back\":\"b_red\",\"stake\":1,\"seed\":null}\n");
}
