use vstd::prelude::*;

use super::frame::{content, decode, is_framed, same_text, split_of, Frame};
use super::{Error, ErrorView};

verus! {

/// Milliseconds without traffic before the engine sends a ping.
pub const INACTIVITY_TIMEOUT_MS: u64 = 7000;

/// Milliseconds to wait for any frame after a ping before pinging again.
pub const PING_RESPONSE_TIMEOUT_MS: u64 = 3000;

/// Consecutive unanswered pings after which the peer is declared dead.
pub const MAX_PING_RETRIES: u8 = 3;

/// The heartbeat's timing, in milliseconds of the caller's clock.
#[derive(Clone, Copy, Debug)]
pub struct Config {
    pub inactivity_timeout: u64,
    pub ping_response_timeout: u64,
    pub max_ping_retries: u8,
}

impl Config {
    pub open spec fn wf(&self) -> bool {
        self.max_ping_retries >= 1
    }

    /// The timing used on real connections.
    pub fn standard() -> (r: Config)
        ensures
            r.wf(),
            r.inactivity_timeout == INACTIVITY_TIMEOUT_MS,
            r.ping_response_timeout == PING_RESPONSE_TIMEOUT_MS,
            r.max_ping_retries == MAX_PING_RETRIES,
    {
        Config {
            inactivity_timeout: INACTIVITY_TIMEOUT_MS,
            ping_response_timeout: PING_RESPONSE_TIMEOUT_MS,
            max_ping_retries: MAX_PING_RETRIES,
        }
    }
}

/// Liveness bookkeeping. `ping_deadline` is set exactly while pings are unanswered.
#[derive(Clone, Copy, Debug)]
pub struct Heartbeat {
    pub unanswered: u8,
    pub inactivity_deadline: u64,
    pub ping_deadline: Option<u64>,
}

/// What the engine's loop has just observed.
#[derive(Debug)]
pub enum Event {
    /// The owner asked the connection to close.
    Close,
    /// A line was read from the stream, with its line feed if it had one.
    Line(String),
    /// The peer closed the stream.
    Eof,
    /// Reading the stream failed.
    ReadFailed(String),
    /// The owner queued this wire text for sending.
    Outbound(String),
    /// Writing or flushing the stream failed.
    WriteFailed(String),
    /// The outbound queue has no sender left.
    QueueClosed,
    /// A timer fired, or the clock was looked at.
    Tick,
}

pub enum EventView {
    Close,
    Line(Seq<char>),
    Eof,
    ReadFailed(Seq<char>),
    Outbound(Seq<char>),
    WriteFailed(Seq<char>),
    QueueClosed,
    Tick,
}

impl View for Event {
    type V = EventView;

    open spec fn view(&self) -> EventView {
        match self {
            Event::Close => EventView::Close,
            Event::Line(l) => EventView::Line(l@),
            Event::Eof => EventView::Eof,
            Event::ReadFailed(m) => EventView::ReadFailed(m@),
            Event::Outbound(p) => EventView::Outbound(p@),
            Event::WriteFailed(m) => EventView::WriteFailed(m@),
            Event::QueueClosed => EventView::QueueClosed,
            Event::Tick => EventView::Tick,
        }
    }
}

/// What the engine's loop must do next.
#[derive(Debug)]
pub enum Effect {
    /// Write this text to the stream and flush it.
    Write(String),
    /// Hand this data frame to the owner.
    Forward(Frame),
    /// Report this error to the owner, then report the connection closed and stop.
    Terminate(Error),
    /// Report the connection closed and stop.
    Stop,
}

pub enum EffectView {
    Write(Seq<char>),
    Forward(Seq<char>, Seq<char>),
    Terminate(ErrorView),
    Stop,
}

impl View for Effect {
    type V = EffectView;

    open spec fn view(&self) -> EffectView {
        match self {
            Effect::Write(t) => EffectView::Write(t@),
            Effect::Forward(f) => EffectView::Forward(f.kind@, f.body@),
            Effect::Terminate(e) => EffectView::Terminate(e@),
            Effect::Stop => EffectView::Stop,
        }
    }
}

pub open spec fn effect_view(r: Option<Effect>) -> Option<EffectView> {
    match r {
        Some(e) => Some(e@),
        None => None,
    }
}

/// The reserved probe frame, without its line feed.
pub open spec fn ping_frame() -> Seq<char> {
    seq!['p', 'i', 'n', 'g', '!']
}

/// The reserved answer to a probe, without its line feed.
pub open spec fn pong_frame() -> Seq<char> {
    seq!['p', 'o', 'n', 'g', '!']
}

pub open spec fn ping_line() -> Seq<char> {
    ping_frame().push('\n')
}

pub open spec fn pong_line() -> Seq<char> {
    pong_frame().push('\n')
}

/// `now + d`, held at the largest instant.
pub open spec fn later(now: u64, d: u64) -> u64 {
    if now + d > u64::MAX {
        u64::MAX
    } else {
        (now + d) as u64
    }
}

/// The state of one connection's engine.
#[derive(Clone, Copy, Debug)]
pub struct Engine {
    pub config: Config,
    pub heartbeat: Heartbeat,
    pub finished: bool,
}

impl Engine {
    pub open spec fn wf(&self) -> bool {
        &&& self.config.wf()
        &&& (self.heartbeat.ping_deadline is Some <==> self.heartbeat.unanswered > 0)
        &&& self.heartbeat.unanswered <= self.config.max_ping_retries
    }
}

/// An engine that starts at `now` with no traffic yet.
pub open spec fn fresh(config: Config, now: u64) -> Engine {
    Engine {
        config,
        heartbeat: Heartbeat {
            unanswered: 0,
            inactivity_deadline: later(now, config.inactivity_timeout),
            ping_deadline: None,
        },
        finished: false,
    }
}

/// The engine after traffic at `now`: no ping outstanding, idle timer restarted.
pub open spec fn refreshed(e: Engine, now: u64) -> Engine {
    Engine {
        heartbeat: Heartbeat {
            unanswered: 0,
            inactivity_deadline: later(now, e.config.inactivity_timeout),
            ping_deadline: None,
        },
        ..e
    }
}

/// The engine after sending a ping at `now`.
pub open spec fn pinged(e: Engine, now: u64) -> Engine {
    Engine {
        heartbeat: Heartbeat {
            unanswered: (e.heartbeat.unanswered + 1) as u8,
            inactivity_deadline: later(now, e.config.inactivity_timeout),
            ping_deadline: Some(later(now, e.config.ping_response_timeout)),
        },
        ..e
    }
}

pub open spec fn stopped(e: Engine) -> Engine {
    Engine { finished: true, ..e }
}

/// The heartbeat's decision when the clock reads `now`.
pub open spec fn tick_spec(e: Engine, now: u64) -> (Engine, Option<EffectView>) {
    if e.heartbeat.unanswered > 0 {
        if now >= e.heartbeat.ping_deadline->0 {
            if e.heartbeat.unanswered >= e.config.max_ping_retries {
                (stopped(e), Some(EffectView::Terminate(ErrorView::Timeout)))
            } else {
                (pinged(e, now), Some(EffectView::Write(ping_line())))
            }
        } else {
            (e, None)
        }
    } else if now >= e.heartbeat.inactivity_deadline {
        (pinged(e, now), Some(EffectView::Write(ping_line())))
    } else {
        (e, None)
    }
}

/// The engine's decision for a line read at `now`.
pub open spec fn line_spec(e: Engine, line: Seq<char>, now: u64) -> (Engine, Option<EffectView>) {
    let e2 = refreshed(e, now);
    if content(line) == ping_frame() {
        (e2, Some(EffectView::Write(pong_line())))
    } else if content(line) == pong_frame() {
        (e2, None)
    } else if is_framed(line) {
        (e2, Some(EffectView::Forward(split_of(line).0, split_of(line).1)))
    } else {
        (stopped(e2), Some(EffectView::Terminate(ErrorView::MalformedFrame)))
    }
}

/// One step of the engine: its next state and what its loop must do.
pub open spec fn step_spec(e: Engine, ev: EventView, now: u64) -> (Engine, Option<EffectView>) {
    if e.finished {
        (e, None)
    } else {
        match ev {
            EventView::Close => (stopped(e), Some(EffectView::Stop)),
            EventView::QueueClosed => (stopped(e), Some(EffectView::Stop)),
            EventView::Eof => (stopped(e), Some(EffectView::Terminate(ErrorView::ConnectionClosed))),
            EventView::ReadFailed(m) => (stopped(e), Some(EffectView::Terminate(ErrorView::Io(m)))),
            EventView::WriteFailed(m) => (stopped(e), Some(EffectView::Terminate(ErrorView::Io(m)))),
            EventView::Line(l) => line_spec(e, l, now),
            EventView::Outbound(p) => (refreshed(e, now), Some(EffectView::Write(p))),
            EventView::Tick => tick_spec(e, now),
        }
    }
}

fn later_exec(now: u64, d: u64) -> (r: u64)
    ensures
        r == later(now, d),
{
    if now > u64::MAX - d {
        u64::MAX
    } else {
        now + d
    }
}

/// The line without its line feed.
fn line_content(line: &str) -> (r: &str)
    ensures
        r@ == content(line@),
{
    let n = line.unicode_len();
    if n > 0 && line.get_char(n - 1) == '\n' {
        line.substring_char(0, n - 1)
    } else {
        line.substring_char(0, n)
    }
}

impl Engine {
    /// A fresh engine whose idle timer starts at `now`.
    pub fn new(config: Config, now: u64) -> (r: Engine)
        requires
            config.wf(),
        ensures
            r.wf(),
            !r.finished,
            r.config == config,
            r.heartbeat.unanswered == 0,
            r.heartbeat.ping_deadline is None,
            r.heartbeat.inactivity_deadline == later(now, config.inactivity_timeout),
            r == fresh(config, now),
    {
        Engine {
            config,
            heartbeat: Heartbeat {
                unanswered: 0,
                inactivity_deadline: later_exec(now, config.inactivity_timeout),
                ping_deadline: None,
            },
            finished: false,
        }
    }

    /// When the engine's loop must next look at the clock; `None` once it has stopped.
    pub fn next_deadline(&self) -> (r: Option<u64>)
        requires
            self.wf(),
        ensures
            self.finished ==> r is None,
            !self.finished && self.heartbeat.unanswered > 0 ==> r == self.heartbeat.ping_deadline,
            !self.finished && self.heartbeat.unanswered == 0 ==> r == Some(
                self.heartbeat.inactivity_deadline,
            ),
    {
        if self.finished {
            None
        } else if self.heartbeat.unanswered > 0 {
            self.heartbeat.ping_deadline
        } else {
            Some(self.heartbeat.inactivity_deadline)
        }
    }

    fn refresh(&mut self, now: u64)
        ensures
            *final(self) == refreshed(*old(self), now),
    {
        self.heartbeat = Heartbeat {
            unanswered: 0,
            inactivity_deadline: later_exec(now, self.config.inactivity_timeout),
            ping_deadline: None,
        };
    }

    fn ping(&mut self, now: u64) -> (r: Effect)
        requires
            old(self).heartbeat.unanswered < u8::MAX,
        ensures
            *final(self) == pinged(*old(self), now),
            r@ == EffectView::Write(ping_line()),
    {
        self.heartbeat = Heartbeat {
            unanswered: self.heartbeat.unanswered + 1,
            inactivity_deadline: later_exec(now, self.config.inactivity_timeout),
            ping_deadline: Some(later_exec(now, self.config.ping_response_timeout)),
        };
        let text = String::from_str("ping!\n");
        proof {
            reveal_strlit("ping!\n");
        }
        assert(text@ =~= ping_line());
        Effect::Write(text)
    }

    fn on_tick(&mut self, now: u64) -> (r: Option<Effect>)
        requires
            old(self).wf(),
            !old(self).finished,
        ensures
            final(self).wf(),
            (*final(self), effect_view(r)) == tick_spec(*old(self), now),
    {
        if self.heartbeat.unanswered > 0 {
            let deadline = match self.heartbeat.ping_deadline {
                Some(d) => d,
                None => 0,
            };
            if now >= deadline {
                if self.heartbeat.unanswered >= self.config.max_ping_retries {
                    self.finished = true;
                    Some(Effect::Terminate(Error::Timeout))
                } else {
                    Some(self.ping(now))
                }
            } else {
                None
            }
        } else if now >= self.heartbeat.inactivity_deadline {
            Some(self.ping(now))
        } else {
            None
        }
    }

    fn on_line(&mut self, line: &str, now: u64) -> (r: Option<Effect>)
        requires
            old(self).wf(),
            !old(self).finished,
        ensures
            final(self).wf(),
            (*final(self), effect_view(r)) == line_spec(*old(self), line@, now),
    {
        self.refresh(now);
        let body = line_content(line);
        proof {
            reveal_strlit("ping!");
            reveal_strlit("pong!");
        }
        if same_text(body, "ping!") {
            assert("ping!"@ =~= ping_frame());
            let text = String::from_str("pong!\n");
            proof {
                reveal_strlit("pong!\n");
            }
            assert(text@ =~= pong_line());
            Some(Effect::Write(text))
        } else if same_text(body, "pong!") {
            assert("ping!"@ =~= ping_frame());
            assert("pong!"@ =~= pong_frame());
            None
        } else {
            assert("ping!"@ =~= ping_frame());
            assert("pong!"@ =~= pong_frame());
            match decode(line) {
                Ok(f) => Some(Effect::Forward(f)),
                Err(_) => {
                    self.finished = true;
                    Some(Effect::Terminate(Error::MalformedFrame))
                },
            }
        }
    }

    /// Decides what the engine does with `event`, observed when the clock reads `now`.
    pub fn step(&mut self, event: Event, now: u64) -> (r: Option<Effect>)
        requires
            old(self).wf(),
        ensures
            final(self).wf(),
            (*final(self), effect_view(r)) == step_spec(*old(self), event@, now),
    {
        if self.finished {
            return None;
        }
        match event {
            Event::Close => {
                self.finished = true;
                Some(Effect::Stop)
            },
            Event::QueueClosed => {
                self.finished = true;
                Some(Effect::Stop)
            },
            Event::Eof => {
                self.finished = true;
                Some(Effect::Terminate(Error::ConnectionClosed))
            },
            Event::ReadFailed(m) => {
                self.finished = true;
                Some(Effect::Terminate(Error::Io(m)))
            },
            Event::WriteFailed(m) => {
                self.finished = true;
                Some(Effect::Terminate(Error::Io(m)))
            },
            Event::Line(l) => self.on_line(l.as_str(), now),
            Event::Outbound(p) => {
                self.refresh(now);
                Some(Effect::Write(p))
            },
            Event::Tick => self.on_tick(now),
        }
    }
}

/// Runs the engine over timed events: its final state and every effect, in order.
pub open spec fn run(e: Engine, evs: Seq<(EventView, u64)>) -> (Engine, Seq<EffectView>)
    decreases evs.len(),
{
    if evs.len() == 0 {
        (e, Seq::empty())
    } else {
        let (e2, out) = step_spec(e, evs[0].0, evs[0].1);
        let (e3, rest) = run(e2, evs.drop_first());
        match out {
            Some(x) => (e3, seq![x] + rest),
            None => (e3, rest),
        }
    }
}

/// Every tick comes before `deadline`, the idle deadline set by the latest
/// traffic (a line read, or text sent that is not itself a ping), and no sent
/// text is a ping.
pub open spec fn busy(deadline: u64, idle: u64, evs: Seq<(EventView, u64)>) -> bool
    decreases evs.len(),
{
    if evs.len() == 0 {
        true
    } else {
        match evs[0].0 {
            EventView::Line(_) => busy(later(evs[0].1, idle), idle, evs.drop_first()),
            EventView::Outbound(p) => p != ping_line() && busy(
                later(evs[0].1, idle),
                idle,
                evs.drop_first(),
            ),
            EventView::Tick => evs[0].1 < deadline && busy(deadline, idle, evs.drop_first()),
            _ => busy(deadline, idle, evs.drop_first()),
        }
    }
}

/// `n` ticks, the first at `first`, each later one `gap` after the one before.
pub open spec fn ticks(first: u64, gap: u64, n: nat) -> Seq<(EventView, u64)>
    decreases n,
{
    if n == 0 {
        Seq::empty()
    } else {
        seq![(EventView::Tick, first)] + ticks(later(first, gap), gap, (n - 1) as nat)
    }
}

/// `n` pings written to the stream.
pub open spec fn pings(n: nat) -> Seq<EffectView> {
    Seq::new(n, |i: int| EffectView::Write(ping_line()))
}

/// A stopped engine ignores every later event.
pub proof fn lemma_stopped_engine_is_inert(e: Engine, evs: Seq<(EventView, u64)>)
    requires
        e.finished,
    ensures
        run(e, evs) == (e, Seq::<EffectView>::empty()),
    decreases evs.len(),
{
    if evs.len() > 0 {
        lemma_stopped_engine_is_inert(e, evs.drop_first());
    }
}

/// A connection with traffic more often than its idle timeout never sends a ping.
pub proof fn lemma_busy_connection_never_pings(e: Engine, deadline: u64, evs: Seq<(EventView, u64)>)
    requires
        e.wf(),
        e.finished || (e.heartbeat.unanswered == 0 && e.heartbeat.inactivity_deadline == deadline),
        busy(deadline, e.config.inactivity_timeout, evs),
    ensures
        forall|i: int| 0 <= i < run(e, evs).1.len() ==> run(e, evs).1[i] != EffectView::Write(ping_line()),
    decreases evs.len(),
{
    if evs.len() > 0 {
        if e.finished {
            lemma_stopped_engine_is_inert(e, evs);
        } else {
            let (e2, out) = step_spec(e, evs[0].0, evs[0].1);
            let next = match evs[0].0 {
                EventView::Line(_) => later(evs[0].1, e.config.inactivity_timeout),
                EventView::Outbound(_) => later(evs[0].1, e.config.inactivity_timeout),
                _ => deadline,
            };
            assert(out is Some ==> out->0 != EffectView::Write(ping_line())) by {
                assert(ping_line() != pong_line()) by {
                    assert(ping_line()[1] != pong_line()[1]);
                }
            }
            lemma_busy_connection_never_pings(e2, next, evs.drop_first());
            let rest = run(e2, evs.drop_first()).1;
            if out is Some {
                assert forall|i: int| 0 <= i < run(e, evs).1.len() implies run(e, evs).1[i]
                    != EffectView::Write(ping_line()) by {
                    if i > 0 {
                        assert(run(e, evs).1[i] == rest[i - 1]);
                    }
                }
            }
        }
    }
}

/// Once an engine has `k` pings unanswered and its ping deadline `t` passes,
/// ticks a ping-response timeout apart bring the remaining pings and then `Timeout`.
pub proof fn lemma_unanswered_pings_time_out(e: Engine, t: u64, k: nat)
    requires
        e.wf(),
        !e.finished,
        1 <= k <= e.config.max_ping_retries,
        e.heartbeat.unanswered == k,
        e.heartbeat.ping_deadline == Some(t),
    ensures
        run(e, ticks(t, e.config.ping_response_timeout, (e.config.max_ping_retries - k + 1) as nat)).1
            == pings((e.config.max_ping_retries - k) as nat) + seq![EffectView::Terminate(ErrorView::Timeout)],
        run(e, ticks(t, e.config.ping_response_timeout, (e.config.max_ping_retries - k + 1) as nat)).0.finished,
    decreases e.config.max_ping_retries - k,
{
    let gap = e.config.ping_response_timeout;
    let n = (e.config.max_ping_retries - k + 1) as nat;
    let evs = ticks(t, gap, n);
    assert(evs.drop_first() =~= ticks(later(t, gap), gap, (n - 1) as nat));
    assert(evs[0] == (EventView::Tick, t));
    if k == e.config.max_ping_retries {
        assert(ticks(later(t, gap), gap, 0) =~= Seq::<(EventView, u64)>::empty());
        assert(evs.drop_first() =~= Seq::<(EventView, u64)>::empty());
        assert(step_spec(e, EventView::Tick, t) == (stopped(e), Some(EffectView::Terminate(ErrorView::Timeout))));
        assert(run(stopped(e), evs.drop_first()) == (stopped(e), Seq::<EffectView>::empty()));
        assert(pings(0) =~= Seq::<EffectView>::empty());
        assert(run(e, evs).1 =~= pings(0) + seq![EffectView::Terminate(ErrorView::Timeout)]);
    } else {
        let e2 = pinged(e, t);
        lemma_unanswered_pings_time_out(e2, later(t, gap), k + 1);
        assert(run(e, evs).1 =~= pings((e.config.max_ping_retries - k) as nat) + seq![
            EffectView::Terminate(ErrorView::Timeout),
        ]);
    }
}

/// An idle connection pings once when its idle timeout runs out, pings again
/// each time a ping-response timeout passes unanswered, and after the last
/// allowed ping goes unanswered reports `Timeout` and stops.
pub proof fn lemma_idle_connection_times_out(config: Config, start: u64)
    requires
        config.wf(),
    ensures
        ({
            let evs = ticks(
                later(start, config.inactivity_timeout),
                config.ping_response_timeout,
                (config.max_ping_retries + 1) as nat,
            );
            &&& run(fresh(config, start), evs).1 == pings(config.max_ping_retries as nat) + seq![
                EffectView::Terminate(ErrorView::Timeout),
            ]
            &&& run(fresh(config, start), evs).0.finished
        }),
{
    let e = fresh(config, start);
    let d = later(start, config.inactivity_timeout);
    let gap = config.ping_response_timeout;
    let evs = ticks(d, gap, (config.max_ping_retries + 1) as nat);
    assert(evs.drop_first() =~= ticks(later(d, gap), gap, config.max_ping_retries as nat));
    let e2 = pinged(e, d);
    lemma_unanswered_pings_time_out(e2, later(d, gap), 1);
    assert(run(e, evs).1 =~= pings(config.max_ping_retries as nat) + seq![
        EffectView::Terminate(ErrorView::Timeout),
    ]);
}

/// Before its deadline, a tick changes nothing and sends nothing.
pub proof fn lemma_no_ping_before_deadline(e: Engine, now: u64)
    requires
        e.wf(),
        !e.finished,
        e.heartbeat.unanswered == 0 ==> now < e.heartbeat.inactivity_deadline,
        e.heartbeat.unanswered > 0 ==> now < e.heartbeat.ping_deadline->0,
    ensures
        step_spec(e, EventView::Tick, now) == (e, None::<EffectView>),
{
}

/// A `ping!` from the peer is answered by exactly one `pong!`, written at once,
/// and is not handed to the owner.
pub proof fn lemma_ping_answered_with_pong(e: Engine, line: Seq<char>, now: u64)
    requires
        e.wf(),
        !e.finished,
        content(line) == ping_frame(),
    ensures
        step_spec(e, EventView::Line(line), now) == (refreshed(e, now), Some(EffectView::Write(pong_line()))),
{
}

/// A line without a separator stops the engine with `MalformedFrame`; nothing
/// after it reaches the owner.
pub proof fn lemma_malformed_line_stops(e: Engine, line: Seq<char>, now: u64, rest: Seq<(EventView, u64)>)
    requires
        e.wf(),
        !e.finished,
        !is_framed(line),
    ensures
        run(e, seq![(EventView::Line(line), now)] + rest).1 == seq![EffectView::Terminate(ErrorView::MalformedFrame)],
        run(e, seq![(EventView::Line(line), now)] + rest).0.finished,
{
    let evs = seq![(EventView::Line(line), now)] + rest;
    if content(line) == ping_frame() || content(line) == pong_frame() {
        assert(content(line)[4] == '!');
    }
    assert(evs.drop_first() =~= rest);
    lemma_stopped_engine_is_inert(stopped(refreshed(e, now)), rest);
    assert(run(e, evs).1 =~= seq![EffectView::Terminate(ErrorView::MalformedFrame)]);
}

} // verus!
