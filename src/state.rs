use crate::clock::{is_local_time, local_time, LocalTime};
use crate::draw::{drawn, DrawCommand, Drawn};
use crate::message::{sanitize, sanitized};
use crate::screen::{
    blank_frame, blank_screen, clock_frame, clock_screen, mailbox_frame, mailbox_screen,
    weather_frame, weather_screen,
};
use crate::view::{next_of, previous_of};
// The prelude of vstd has a `View` trait of its own, so the screen enum goes
// by another name here.
use crate::view::View as Screen;
use crate::weather::{FetchError, Weather};
use vstd::prelude::*;

verus! {

/// Settings fixed at startup.
#[derive(Clone, Debug)]
pub struct Config {
    /// IANA name of the zone in which the clock is shown.
    pub timezone: String,
    /// A refresh is due once more than this many seconds have passed since
    /// the last attempt.
    pub refresh_interval_secs: u64,
}

impl Default for Config {
    /// The clock in UTC, a refresh every 10 seconds.
    fn default() -> (r: Config)
        ensures
            r.timezone@ == "UTC"@,
            r.refresh_interval_secs == 10,
    {
        Config { timezone: String::from_str("UTC"), refresh_interval_secs: 10 }
    }
}

/// Scroll position in the mailbox text, and when it last changed
/// (milliseconds since the Unix epoch).
#[derive(Clone, Copy, Debug, PartialEq, Eq, Structural)]
pub struct Cursor {
    pub offset: usize,
    pub changed_at: i64,
}

/// What the driver hands to the engine.
#[derive(Clone, Copy, Debug, PartialEq, Eq, Structural)]
pub enum Event {
    Tick,
    NavigateUp,
    NavigateDown,
    ToggleSleep,
}

/// What the driver does after an event.
#[derive(Clone, Debug)]
pub enum Action {
    /// Nothing to do.
    Idle,
    /// Call the weather source and the message source once each, and pass
    /// both outcomes to `State::finish_tick`.
    Fetch,
    /// Draw these commands, in order.
    Draw(Vec<DrawCommand>),
}

/// The display engine: current screen, cached remote data, scroll position
/// and sleep mode. Times are milliseconds since the Unix epoch.
#[derive(Debug)]
pub struct State {
    pub view: Screen,
    /// When the last refresh was attempted.
    pub last_fetch: Option<i64>,
    pub sleep: bool,
    /// The time of the latest tick.
    pub time: i64,
    pub config: Config,
    /// Last successfully fetched weather.
    pub weather: Weather,
    /// Last successfully fetched message, sanitized.
    pub message: Option<String>,
    pub current_letter: Cursor,
}

/// Shown in the mailbox while no message has arrived.
pub open spec fn no_message_text() -> Seq<char> {
    "No message available."@
}

/// A refresh is due when none was attempted yet, or when more than the
/// interval has passed since the last attempt.
pub open spec fn fetch_due(last: Option<i64>, interval_secs: u64, now: i64) -> bool {
    match last {
        None => true,
        Some(t) => now - t > interval_secs * 1000,
    }
}

/// How long the cursor waits before its next step: longer at the start of
/// the text, so that it can be read.
pub open spec fn dwell_ms(c: Cursor) -> int {
    if c.offset == 0 {
        1500
    } else {
        200
    }
}

/// The cursor after a frame drawn at `now` over a text of `len` characters:
/// one character further once its dwell has passed, back to the start where
/// that would reach the end of the text.
pub open spec fn scroll_step(c: Cursor, len: int, now: i64) -> Cursor {
    if now - c.changed_at >= dwell_ms(c) {
        if c.offset + 1 >= len {
            Cursor { offset: 0, changed_at: now }
        } else {
            Cursor { offset: (c.offset + 1) as usize, changed_at: now }
        }
    } else {
        c
    }
}

impl State {
    /// The text that the mailbox scrolls through.
    pub open spec fn mailbox_text(&self) -> Seq<char> {
        match self.message {
            Some(m) => m@,
            None => no_message_text(),
        }
    }

    /// `cmds` is the frame that `self` draws, and `after` the state once it is
    /// drawn: blank while sleeping, else the current view; only the mailbox
    /// moves its cursor.
    pub open spec fn renders(self, after: State, cmds: Seq<DrawCommand>) -> bool {
        if self.sleep {
            after == self && drawn(cmds) == blank_screen()
        } else {
            match self.view {
                Screen::Clock => after == self && exists|t: Option<LocalTime>|
                    is_local_time(self.config.timezone@, self.time as int, t) && drawn(cmds)
                        == clock_screen(t),
                Screen::Weather => after == self && drawn(cmds) == weather_screen(self.weather),
                Screen::Mailbox => {
                    let c = scroll_step(
                        self.current_letter,
                        self.mailbox_text().len() as int,
                        self.time,
                    );
                    &&& after == State { current_letter: c, ..self }
                    &&& drawn(cmds) == mailbox_screen(self.mailbox_text(), c.offset as int)
                },
            }
        }
    }

    /// The state after a navigation or sleep event at `now`.
    pub open spec fn after_input(self, event: Event, now: i64) -> State {
        match event {
            Event::NavigateUp => State {
                view: next_of(self.view),
                current_letter: Cursor { offset: 0, changed_at: now },
                ..self
            },
            Event::NavigateDown => State {
                view: previous_of(self.view),
                current_letter: Cursor { offset: 0, changed_at: now },
                ..self
            },
            Event::ToggleSleep => State { sleep: !self.sleep, ..self },
            Event::Tick => self,
        }
    }

    /// The state after the outcomes of a refresh are stored: each value that
    /// arrived replaces the cached one, each failure keeps it.
    pub open spec fn stored(
        self,
        after: State,
        weather: Result<Weather, FetchError>,
        message: Result<String, FetchError>,
    ) -> bool {
        &&& after.view == self.view
        &&& after.last_fetch == self.last_fetch
        &&& after.sleep == self.sleep
        &&& after.time == self.time
        &&& after.config == self.config
        &&& after.current_letter == self.current_letter
        &&& after.weather == match weather {
            Ok(w) => w,
            Err(_) => self.weather,
        }
        &&& match message {
            Ok(m) => after.message matches Some(s) && s@ == sanitized(m@),
            Err(_) => after.message == self.message,
        }
    }
}

impl State {
    /// `after` and `action` are what a tick at `now` gives: the clock moves
    /// to `now`; a due refresh is stamped and asked of the driver, else the
    /// frame is drawn.
    pub open spec fn ticked(self, now: i64, after: State, action: Action) -> bool {
        let at_now = State { time: now, ..self };
        if fetch_due(self.last_fetch, self.config.refresh_interval_secs, now) {
            &&& action is Fetch
            &&& after == State { last_fetch: Some(now), ..at_now }
        } else {
            action matches Action::Draw(cmds) && at_now.renders(after, cmds@)
        }
    }
}

impl Cursor {
    /// The cursor after a frame drawn at `now` over a text of `len`
    /// characters.
    pub fn advance(&self, len: usize, now: i64) -> (r: Cursor)
        ensures
            r == scroll_step(*self, len as int, now),
    {
        let elapsed: i128 = now as i128 - self.changed_at as i128;
        let dwell: i128 = if self.offset == 0 {
            1500
        } else {
            200
        };
        if elapsed >= dwell {
            if len == 0 || self.offset >= len - 1 {
                Cursor { offset: 0, changed_at: now }
            } else {
                Cursor { offset: self.offset + 1, changed_at: now }
            }
        } else {
            *self
        }
    }
}

impl State {
    /// The engine at startup: clock screen, awake, nothing fetched yet.
    pub fn new(config: Config, now: i64) -> (r: State)
        ensures
            r.view == Screen::Clock,
            r.last_fetch is None,
            !r.sleep,
            r.time == now,
            r.config == config,
            r.weather == Weather::unknown_spec(),
            r.message is None,
            r.current_letter == (Cursor { offset: 0, changed_at: now }),
    {
        State {
            view: Screen::Clock,
            last_fetch: None,
            sleep: false,
            time: now,
            config,
            weather: Weather::unknown(),
            message: None,
            current_letter: Cursor { offset: 0, changed_at: now },
        }
    }

    /// Decides whether a refresh is due at `now`. When it is, the attempt is
    /// stamped with `now` before any source is called, so that a failing
    /// source is not retried before the next interval.
    pub fn fetch(&mut self, now: i64) -> (r: bool)
        ensures
            r == fetch_due(old(self).last_fetch, old(self).config.refresh_interval_secs, now),
            r ==> *final(self) == (State { last_fetch: Some(now), ..*old(self) }),
            !r ==> *final(self) == *old(self),
    {
        let due = match self.last_fetch {
            None => true,
            Some(t) => (now as i128) - (t as i128) > (self.config.refresh_interval_secs as i128)
                * 1000,
        };
        if due {
            self.last_fetch = Some(now);
        }
        due
    }

    /// Keeps what a refresh brought: each value that arrived replaces the
    /// cached one (the message sanitized), each failure leaves it as it was.
    pub fn store(&mut self, weather: Result<Weather, FetchError>, message: Result<String, FetchError>)
        ensures
            old(self).stored(*final(self), weather, message),
    {
        match weather {
            Ok(w) => {
                self.weather = w;
            },
            Err(_) => {},
        }
        match message {
            Ok(m) => {
                self.message = Some(sanitize(m.as_str()));
            },
            Err(_) => {},
        }
    }

    /// Draws the current state: a blank frame while sleeping, else the
    /// current view, the mailbox moving its cursor on as time has passed.
    pub fn render(&mut self) -> (r: Vec<DrawCommand>)
        ensures
            old(self).renders(*final(self), r@),
    {
        if self.sleep {
            return blank_frame();
        }
        match self.view {
            Screen::Clock => {
                let t = local_time(self.config.timezone.as_str(), self.time);
                let r = clock_frame(t);
                assert(is_local_time(self.config.timezone@, self.time as int, t));
                r
            },
            Screen::Weather => weather_frame(&self.weather),
            Screen::Mailbox => {
                let text: &str = match &self.message {
                    Some(m) => m.as_str(),
                    None => "No message available.",
                };
                let len = text.unicode_len();
                self.current_letter = self.current_letter.advance(len, self.time);
                mailbox_frame(text, self.current_letter.offset)
            },
        }
    }

    /// Handles one event at `now`. Navigation and sleep only change the
    /// state; a tick moves the clock on and either asks for a refresh or
    /// returns the frame to draw.
    pub fn update(&mut self, event: Event, now: i64) -> (r: Action)
        ensures
            event != Event::Tick ==> r is Idle && *final(self) == old(self).after_input(event, now),
            event == Event::Tick ==> old(self).ticked(now, *final(self), r),
    {
        match event {
            Event::Tick => {
                self.time = now;
                if self.fetch(now) {
                    Action::Fetch
                } else {
                    Action::Draw(self.render())
                }
            },
            Event::NavigateUp => {
                self.view = self.view.next();
                self.current_letter = Cursor { offset: 0, changed_at: now };
                Action::Idle
            },
            Event::NavigateDown => {
                self.view = self.view.previous();
                self.current_letter = Cursor { offset: 0, changed_at: now };
                Action::Idle
            },
            Event::ToggleSleep => {
                self.sleep = !self.sleep;
                Action::Idle
            },
        }
    }

    /// Completes a tick that asked for a refresh: stores both outcomes, then
    /// returns the frame to draw.
    pub fn finish_tick(
        &mut self,
        weather: Result<Weather, FetchError>,
        message: Result<String, FetchError>,
    ) -> (r: Vec<DrawCommand>)
        ensures
            exists|mid: State|
                old(self).stored(mid, weather, message) && mid.renders(*final(self), r@),
    {
        self.store(weather, message);
        let ghost mid = *self;
        let r = self.render();
        assert(old(self).stored(mid, weather, message) && mid.renders(*self, r@));
        r
    }
}

/// A tick asks for no refresh while the interval since the last attempt has
/// not passed, and leaves that attempt's time as it was.
pub proof fn lemma_no_refresh_within_interval(s: State, now: i64, after: State, action: Action)
    requires
        s.ticked(now, after, action),
        s.last_fetch matches Some(t) && now - t <= s.config.refresh_interval_secs * 1000,
    ensures
        !(action is Fetch),
        after.last_fetch == s.last_fetch,
{
}

/// Otherwise a tick asks for exactly one refresh: the driver calls each
/// source once and hands over both outcomes. The attempt is stamped with the
/// tick's time whatever the outcomes are.
pub proof fn lemma_refresh_when_due(
    s: State,
    now: i64,
    mid: State,
    action: Action,
    weather: Result<Weather, FetchError>,
    message: Result<String, FetchError>,
    after: State,
)
    requires
        s.ticked(now, mid, action),
        !(s.last_fetch matches Some(t) && now - t <= s.config.refresh_interval_secs * 1000),
        mid.stored(after, weather, message),
    ensures
        action is Fetch,
        mid.last_fetch == Some(now),
        after.last_fetch == Some(now),
{
}

/// A failed weather fetch keeps the cached weather exactly, a failed message
/// fetch keeps the cached message, and neither failure holds back the other
/// value.
pub proof fn lemma_failure_keeps_cache(
    s: State,
    after: State,
    weather: Result<Weather, FetchError>,
    message: Result<String, FetchError>,
)
    requires
        s.stored(after, weather, message),
    ensures
        weather is Err ==> after.weather == s.weather,
        message is Err ==> after.message == s.message,
        weather matches Ok(w) ==> after.weather == w,
        message matches Ok(m) ==> after.message matches Some(k) && k@ == sanitized(m@),
{
}

/// Mailbox scrolling: navigation puts the cursor at the start; from there it
/// stays put for 1500 ms and then moves to the second character; later
/// steps come every 200 ms; a step that would reach the end of the text goes
/// back to the start.
pub proof fn lemma_mailbox_scroll(s: State, event: Event, now: i64, len: int)
    requires
        event == Event::NavigateUp || event == Event::NavigateDown,
        len >= 2,
    ensures
        s.after_input(event, now).current_letter == (Cursor { offset: 0, changed_at: now }),
        forall|t: i64|
            t - now < 1500 ==> scroll_step(Cursor { offset: 0, changed_at: now }, len, t) == (
            Cursor { offset: 0, changed_at: now }),
        forall|t: i64|
            t - now >= 1500 ==> scroll_step(Cursor { offset: 0, changed_at: now }, len, t) == (
            Cursor { offset: 1, changed_at: t }),
        forall|c: Cursor, t: i64|
            c.offset > 0 && t - c.changed_at < 200 ==> scroll_step(c, len, t) == c,
        forall|c: Cursor, t: i64|
            c.offset > 0 && t - c.changed_at >= 200 && c.offset + 1 < len ==> scroll_step(
                c,
                len,
                t,
            ) == (Cursor { offset: (c.offset + 1) as usize, changed_at: t }),
        forall|c: Cursor, t: i64|
            c.offset > 0 && t - c.changed_at >= 200 && c.offset + 1 >= len ==> scroll_step(
                c,
                len,
                t,
            ) == (Cursor { offset: 0, changed_at: t }),
{
}

/// Two sleep toggles give back the state one started from.
pub proof fn lemma_toggle_twice(s: State, first: i64, second: i64)
    ensures
        s.after_input(Event::ToggleSleep, first).after_input(Event::ToggleSleep, second) == s,
        s.after_input(Event::ToggleSleep, first).sleep == !s.sleep,
{
}

/// While sleeping, whatever the view, a frame is a single clear command, and
/// drawing it changes nothing.
pub proof fn lemma_sleep_draws_blank(s: State, after: State, cmds: Seq<DrawCommand>)
    requires
        s.sleep,
        s.renders(after, cmds),
    ensures
        drawn(cmds) == seq![Drawn::Clear],
        after == s,
{
}

/// While sleeping, a tick that draws at once draws a single clear command.
pub proof fn lemma_sleeping_tick_blank(s: State, now: i64, after: State, cmds: Vec<DrawCommand>)
    requires
        s.sleep,
        s.ticked(now, after, Action::Draw(cmds)),
    ensures
        drawn(cmds@) == seq![Drawn::Clear],
{
}

} // verus!
