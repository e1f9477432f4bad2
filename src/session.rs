//! The state of one session: a click counter and a log of received messages,
//! with the three operations that the front end invokes.

use vstd::prelude::*;
use vstd::string::StringExecFns;
use crate::clock::{clock_text, format_clock, utc_seconds_of_day, SECONDS_PER_DAY};
use crate::echo::{echo_text, lower_of, reply_to};
use crate::text::{decimal, decimal_text};

verus! {

/// Reply to the first click of a session.
pub const FIRST_CLICK_REPLY: &'static str = "Hello from Rust backend! 👋";

/// Reply to clicks two to five, before the count.
pub const WELCOME_BACK_PREFIX: &'static str = "Welcome back! Click #";

/// Reply to clicks six to ten, before the count.
pub const GETTING_THE_HANG_PREFIX: &'static str = "You're getting the hang of this! 🎉 (";

/// Reply to clicks six to ten, after the count.
pub const GETTING_THE_HANG_SUFFIX: &'static str = ")";

/// Reply to every later click, before the count.
pub const MANY_CLICKS_PREFIX: &'static str = "Wow, ";

/// Reply to every later click, after the count.
pub const MANY_CLICKS_SUFFIX: &'static str = " clicks! You really like this button! 🔥";

/// The uptime reported by the statistics.
pub const UPTIME_TEXT: &'static str = "Session active";

/// The status reported by the statistics.
pub const STATUS_TEXT: &'static str = "running";

/// The reply to the click that brought the counter to `n`.
pub open spec fn click_reply(n: nat) -> Seq<char> {
    if n == 1 {
        FIRST_CLICK_REPLY@
    } else if 2 <= n <= 5 {
        WELCOME_BACK_PREFIX@ + decimal(n)
    } else if 6 <= n <= 10 {
        GETTING_THE_HANG_PREFIX@ + decimal(n) + GETTING_THE_HANG_SUFFIX@
    } else {
        MANY_CLICKS_PREFIX@ + decimal(n) + MANY_CLICKS_SUFFIX@
    }
}

/// The reply to the click that brought the counter to `count`.
pub fn click_response(count: u64) -> (r: String)
    ensures
        r@ == click_reply(count as nat),
{
    if count == 1 {
        String::from_str(FIRST_CLICK_REPLY)
    } else if 2 <= count && count <= 5 {
        String::from_str(WELCOME_BACK_PREFIX).concat(decimal_text(count).as_str())
    } else if 6 <= count && count <= 10 {
        String::from_str(GETTING_THE_HANG_PREFIX).concat(decimal_text(count).as_str()).concat(
            GETTING_THE_HANG_SUFFIX,
        )
    } else {
        String::from_str(MANY_CLICKS_PREFIX).concat(decimal_text(count).as_str()).concat(
            MANY_CLICKS_SUFFIX,
        )
    }
}

/// What a session holds: the number of clicks and the messages in the order received.
pub struct SessionView {
    pub clicks: nat,
    pub messages: Seq<Seq<char>>,
}

/// The session as it starts: no clicks, no messages.
pub open spec fn initial_session() -> SessionView {
    SessionView { clicks: 0, messages: Seq::empty() }
}

/// The counter after one more click; it stays at the largest `u64` once there.
pub open spec fn next_count(c: nat) -> nat {
    if c < u64::MAX {
        c + 1
    } else {
        c
    }
}

/// The session after a click.
pub open spec fn click_step(s: SessionView) -> SessionView {
    SessionView { clicks: next_count(s.clicks), messages: s.messages }
}

/// The session after the message `m` was received.
pub open spec fn message_step(s: SessionView, m: Seq<char>) -> SessionView {
    SessionView { clicks: s.clicks, messages: s.messages.push(m) }
}

/// The session after `n` clicks in a row, starting from `s`.
pub open spec fn click_run(s: SessionView, n: nat) -> SessionView
    decreases n,
{
    if n == 0 {
        s
    } else {
        click_step(click_run(s, (n - 1) as nat))
    }
}

/// The session after the messages `ms` were received in order, starting from `s`.
pub open spec fn message_run(s: SessionView, ms: Seq<Seq<char>>) -> SessionView
    decreases ms.len(),
{
    if ms.len() == 0 {
        s
    } else {
        message_step(message_run(s, ms.drop_last()), ms.last())
    }
}

/// The answer to a message.
#[derive(Clone, Debug, PartialEq, Eq)]
pub struct MessageResponse {
    pub echo: String,
    pub count: usize,
    pub timestamp: String,
}

/// A snapshot of the session's counters.
#[derive(Clone, Debug, PartialEq, Eq)]
pub struct SessionStats {
    pub total_clicks: u64,
    pub total_messages: usize,
    pub uptime: String,
    pub status: String,
}

/// `r` reports the session `s`.
pub open spec fn reports(s: SessionView, r: SessionStats) -> bool {
    &&& r.total_clicks as nat == s.clicks
    &&& r.total_messages as nat == s.messages.len()
    &&& r.uptime@ == UPTIME_TEXT@
    &&& r.status@ == STATUS_TEXT@
}

/// The state shared by every request of one session.
pub struct AppState {
    click_count: u64,
    messages: Vec<String>,
}

impl View for AppState {
    type V = SessionView;

    closed spec fn view(&self) -> SessionView {
        SessionView { clicks: self.click_count as nat, messages: self.messages@.map_values(|m: String| m@) }
    }
}

impl Default for AppState {
    fn default() -> (r: AppState)
        ensures
            r@ == initial_session(),
    {
        AppState::new()
    }
}

impl AppState {
    /// A session with no clicks and no messages.
    pub fn new() -> (r: AppState)
        ensures
            r@ == initial_session(),
    {
        let r = AppState { click_count: 0, messages: Vec::new() };
        assert(r@.messages =~= Seq::<Seq<char>>::empty());
        r
    }

    /// Counts a click and returns the reply for the new count.
    pub fn button_clicked(&mut self) -> (r: String)
        ensures
            final(self)@ == click_step(old(self)@),
            r@ == click_reply(final(self)@.clicks),
    {
        self.click_count = self.click_count.saturating_add(1);
        click_response(self.click_count)
    }

    /// Logs `message`, received `seconds_of_day` seconds after midnight UTC,
    /// and answers it.
    pub fn record_message(&mut self, message: String, seconds_of_day: u32) -> (r: MessageResponse)
        requires
            seconds_of_day < SECONDS_PER_DAY,
        ensures
            final(self)@ == message_step(old(self)@, message@),
            r.echo@ == echo_text(lower_of(message@), message@),
            r.count as nat == final(self)@.messages.len(),
            r.timestamp@ == clock_text(seconds_of_day as nat),
    {
        let echo = reply_to(message.as_str());
        let ghost text = message@;
        self.messages.push(message);
        assert(self@.messages =~= old(self)@.messages.push(text));
        let count = self.messages.len();
        MessageResponse { echo, count, timestamp: format_clock(seconds_of_day) }
    }

    /// Logs `message` and answers it, stamped with the current time of day in UTC.
    pub fn send_message(&mut self, message: String) -> (r: MessageResponse)
        ensures
            final(self)@ == message_step(old(self)@, message@),
            r.echo@ == echo_text(lower_of(message@), message@),
            r.count as nat == final(self)@.messages.len(),
            exists|secs: nat| secs < SECONDS_PER_DAY && r.timestamp@ == clock_text(secs),
    {
        let secs = utc_seconds_of_day();
        self.record_message(message, secs)
    }

    /// The session's counters, read without changing them.
    pub fn get_stats(&self) -> (r: SessionStats)
        ensures
            reports(self@, r),
    {
        SessionStats {
            total_clicks: self.click_count,
            total_messages: self.messages.len(),
            uptime: String::from_str(UPTIME_TEXT),
            status: String::from_str(STATUS_TEXT),
        }
    }
}

/// Starting from a fresh session, `n` clicks leave the counter at exactly `n`
/// and the message log empty: the `n`-th click is answered with
/// `click_reply(n)`, and the statistics then report `n` clicks.
pub proof fn lemma_clicks_from_start(n: nat)
    requires
        n <= u64::MAX,
    ensures
        click_run(initial_session(), n).clicks == n,
        click_run(initial_session(), n).messages == Seq::<Seq<char>>::empty(),
        click_reply(click_run(initial_session(), n).clicks) == click_reply(n),
    decreases n,
{
    if n > 0 {
        lemma_clicks_from_start((n - 1) as nat);
    }
}

/// Receiving the messages `ms` in order appends them to the log, in that
/// order, and leaves the click counter alone.
pub proof fn lemma_messages_appended(s: SessionView, ms: Seq<Seq<char>>)
    ensures
        message_run(s, ms).messages == s.messages + ms,
        message_run(s, ms).clicks == s.clicks,
    decreases ms.len(),
{
    if ms.len() > 0 {
        lemma_messages_appended(s, ms.drop_last());
        assert(s.messages + ms =~= (s.messages + ms.drop_last()).push(ms.last()));
    } else {
        assert(s.messages + ms =~= s.messages);
    }
}

/// Starting from a fresh session, after the messages `ms` the log holds
/// exactly `ms`: the statistics report `ms.len()` messages, and the count
/// returned for the last of them is that same number.
pub proof fn lemma_messages_from_start(ms: Seq<Seq<char>>)
    ensures
        message_run(initial_session(), ms).messages == ms,
        message_run(initial_session(), ms).messages.len() == ms.len(),
{
    lemma_messages_appended(initial_session(), ms);
    assert(Seq::<Seq<char>>::empty() + ms =~= ms);
}

/// Each click adds one to the counter, up to the largest `u64`: `n` clicks
/// from any session add `n`, none of them lost.
pub proof fn lemma_clicks_add_up(s: SessionView, n: nat)
    ensures
        s.clicks + n <= u64::MAX ==> click_run(s, n).clicks == s.clicks + n,
        click_run(s, n).messages == s.messages,
    decreases n,
{
    if n > 0 {
        lemma_clicks_add_up(s, (n - 1) as nat);
    }
}

/// Clicks leave the message log alone: after the message `m` and then `n`
/// clicks, the statistics report the same number of messages as the count
/// returned for `m`.
pub proof fn lemma_message_count_survives_clicks(s: SessionView, m: Seq<char>, n: nat)
    ensures
        click_run(message_step(s, m), n).messages == message_step(s, m).messages,
        click_run(message_step(s, m), n).messages.len() == s.messages.len() + 1,
{
    lemma_clicks_add_up(message_step(s, m), n);
}

/// A click and a message, applied in either order, give the same session:
/// requests served one at a time in any order leave the same counts.
pub proof fn lemma_click_and_message_commute(s: SessionView, m: Seq<char>)
    ensures
        click_step(message_step(s, m)) == message_step(click_step(s), m),
{
}

/// Two readings of the statistics of one session agree in every field.
pub proof fn lemma_stats_repeatable(s: SessionView, a: SessionStats, b: SessionStats)
    requires
        reports(s, a),
        reports(s, b),
    ensures
        a.total_clicks == b.total_clicks,
        a.total_messages == b.total_messages,
        a.uptime@ == b.uptime@,
        a.status@ == b.status@,
{
}

} // verus!
