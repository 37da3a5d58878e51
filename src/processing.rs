//! The processing engine: the one owner of the status snapshot and of the
//! transmit guard timer. Each event handed to it yields the events it answers
//! with; the time it is handed decides when the guard cuts transmission off.
use vstd::prelude::*;
use crate::event::{Event, EventView, views, lemma_views_push, lemma_views_empty};
use crate::config::Config;
use crate::schema::{Status, Command, command_of, command_events, response_json, encode_response};
use crate::json::local_timestamp;

verus! {

/// `a + b`, or the largest `u64` where the sum does not fit.
pub open spec fn sat_add(a: u64, b: u64) -> u64 {
    if a + b > u64::MAX {
        u64::MAX
    } else {
        (a + b) as u64
    }
}

/// The decimal digit `d`.
pub open spec fn digit_text(d: nat) -> Seq<char> {
    if d == 0 {
        "0"@
    } else if d == 1 {
        "1"@
    } else if d == 2 {
        "2"@
    } else if d == 3 {
        "3"@
    } else if d == 4 {
        "4"@
    } else if d == 5 {
        "5"@
    } else if d == 6 {
        "6"@
    } else if d == 7 {
        "7"@
    } else if d == 8 {
        "8"@
    } else {
        "9"@
    }
}

/// `n` in decimal, without sign or leading zeros.
pub open spec fn decimal(n: nat) -> Seq<char>
    decreases n,
{
    if n < 10 {
        digit_text(n)
    } else {
        decimal(n / 10) + digit_text(n % 10)
    }
}

/// The message that comes with a guard cutoff.
pub open spec fn timeout_text(guard_ms: u64) -> Seq<char> {
    "TX timed out after "@ + decimal(guard_ms as nat) + "ms"@
}

/// A guard cutoff: TX power off, PTT off, then the reason.
pub open spec fn cutoff_events(guard_ms: u64) -> Seq<EventView> {
    seq![
        EventView::SetTxPowerEnable(false),
        EventView::SetPttEnable(false),
        EventView::SendStatus(Some(timeout_text(guard_ms))),
    ]
}

/// The status after an event: each `*Changed` event records its value.
pub open spec fn next_status(s: Status, e: EventView) -> Status {
    match e {
        EventView::TxPowerEnableStateChanged(b) => Status { tx_power_enabled: Some(b), ..s },
        EventView::TxPowerStateChanged(b) => Status { tx_power_active: Some(b), ..s },
        EventView::PttEnableStateChanged(b) => Status { ptt_enabled: Some(b), ..s },
        EventView::PttStateChanged(b) => Status { ptt_active: Some(b), ..s },
        _ => s,
    }
}

/// The pending guard deadline after an event handed over at time `now`. With a
/// guard time, every change of the PTT state cancels the pending deadline, and
/// PTT turning active arms a new one; `Exit` releases it.
pub open spec fn next_deadline(guard: Option<u64>, deadline: Option<u64>, e: EventView, now: u64) -> Option<u64> {
    match e {
        EventView::Exit => None,
        EventView::PttStateChanged(active) => match guard {
            Some(d) => if active {
                Some(sat_add(now, d))
            } else {
                None
            },
            None => deadline,
        },
        _ => deadline,
    }
}

/// The events that answer an event, given the status after it.
pub open spec fn answer(status: Status, topic: Seq<char>, e: EventView, stamp: Seq<char>) -> Seq<EventView> {
    match e {
        EventView::MqttMessageReceive { topic: _, message } => match command_of(message) {
            Some(c) => command_events(c),
            None => Seq::empty(),
        },
        EventView::TxPowerEnableStateChanged(_) => seq![EventView::SendStatus(None)],
        EventView::TxPowerStateChanged(_) => seq![EventView::SendStatus(None)],
        EventView::PttEnableStateChanged(_) => seq![EventView::SendStatus(None)],
        EventView::PttStateChanged(_) => seq![EventView::SendStatus(None)],
        EventView::SendStatus(m) => seq![
            EventView::MqttMessageSend { topic, message: response_json(status, m, stamp) },
        ],
        _ => Seq::empty(),
    }
}

/// Whether the guard fires at time `now`.
pub open spec fn guard_fires(guard: Option<u64>, deadline: Option<u64>, now: u64) -> bool {
    guard is Some && (deadline matches Some(t) && t <= now)
}

/// The pending deadline after the guard is looked at, at time `now`.
pub open spec fn polled_deadline(guard: Option<u64>, deadline: Option<u64>, now: u64) -> Option<u64> {
    if guard_fires(guard, deadline, now) {
        None
    } else {
        deadline
    }
}

/// The events that the guard emits at time `now`.
pub open spec fn poll_events(guard: Option<u64>, deadline: Option<u64>, now: u64) -> Seq<EventView> {
    if guard_fires(guard, deadline, now) {
        cutoff_events(guard->Some_0)
    } else {
        Seq::empty()
    }
}

fn append_digit(out: &mut String, d: u64)
    requires
        d < 10,
    ensures
        final(out)@ == old(out)@ + digit_text(d as nat),
{
    if d == 0 {
        out.append("0")
    } else if d == 1 {
        out.append("1")
    } else if d == 2 {
        out.append("2")
    } else if d == 3 {
        out.append("3")
    } else if d == 4 {
        out.append("4")
    } else if d == 5 {
        out.append("5")
    } else if d == 6 {
        out.append("6")
    } else if d == 7 {
        out.append("7")
    } else if d == 8 {
        out.append("8")
    } else {
        out.append("9")
    }
}

fn append_decimal(out: &mut String, n: u64)
    ensures
        final(out)@ == old(out)@ + decimal(n as nat),
    decreases n,
{
    if n >= 10 {
        append_decimal(out, n / 10);
    }
    append_digit(out, n % 10);
    assert(final(out)@ =~= old(out)@ + decimal(n as nat));
}

/// The message that comes with a guard cutoff after `guard_ms` milliseconds.
pub fn timeout_message(guard_ms: u64) -> (r: String)
    ensures
        r@ == timeout_text(guard_ms),
{
    let mut out = String::from_str("TX timed out after ");
    append_decimal(&mut out, guard_ms);
    out.append("ms");
    out
}

/// The processing engine's state.
pub struct Processor {
    status: Status,
    status_topic: String,
    tx_guard_time: Option<u64>,
    guard_deadline: Option<u64>,
}

impl Processor {
    /// Status messages go to `status_topic`; with `tx_guard_time` (in
    /// milliseconds) transmission is cut off after that long.
    pub fn new(status_topic: String, tx_guard_time: Option<u64>) -> (r: Processor)
        ensures
            r.status_spec() == Status::unknown(),
            r.topic_spec() == status_topic@,
            r.guard_spec() == tx_guard_time,
            r.deadline_spec() is None,
    {
        Processor {
            status: Status {
                tx_power_enabled: None,
                tx_power_active: None,
                ptt_enabled: None,
                ptt_active: None,
            },
            status_topic,
            tx_guard_time,
            guard_deadline: None,
        }
    }

    pub fn from_config(config: &Config) -> (r: Processor)
        ensures
            r.status_spec() == Status::unknown(),
            r.topic_spec() == config.mqtt.status_topic@,
            r.guard_spec() == config.tx_guard_time,
            r.deadline_spec() is None,
    {
        Processor::new(config.mqtt.status_topic.clone(), config.tx_guard_time)
    }

    pub closed spec fn status_spec(&self) -> Status {
        self.status
    }

    pub closed spec fn topic_spec(&self) -> Seq<char> {
        self.status_topic@
    }

    pub closed spec fn guard_spec(&self) -> Option<u64> {
        self.tx_guard_time
    }

    pub closed spec fn deadline_spec(&self) -> Option<u64> {
        self.guard_deadline
    }

    pub fn status(&self) -> (r: Status)
        ensures
            r == self.status_spec(),
    {
        self.status
    }

    /// When the pending guard timer expires, if one is pending.
    pub fn guard_deadline(&self) -> (r: Option<u64>)
        ensures
            r == self.deadline_spec(),
    {
        self.guard_deadline
    }

    /// Takes an event at time `now` (milliseconds on a monotonic clock) and
    /// returns the events that answer it; a status message is stamped `stamp`.
    pub fn handle(&mut self, event: Event, now: u64, stamp: &str) -> (r: Vec<Event>)
        ensures
            final(self).status_spec() == next_status(old(self).status_spec(), event@),
            final(self).topic_spec() == old(self).topic_spec(),
            final(self).guard_spec() == old(self).guard_spec(),
            final(self).deadline_spec() == next_deadline(
                old(self).guard_spec(),
                old(self).deadline_spec(),
                event@,
                now,
            ),
            views(r@) == answer(final(self).status_spec(), old(self).topic_spec(), event@, stamp@),
    {
        let ghost e = event@;
        let mut out: Vec<Event> = Vec::new();
        proof {
            lemma_views_empty();
        }
        match event {
            Event::Exit => {
                self.guard_deadline = None;
            },
            Event::MqttMessageReceive(m) => {
                if let Some(cmd) = Command::parse(m.message.as_str()) {
                    out = cmd.generate_events();
                }
            },
            Event::TxPowerEnableStateChanged(state) => {
                self.status.tx_power_enabled = Some(state);
                out.push(Event::SendStatus(None));
            },
            Event::TxPowerStateChanged(state) => {
                self.status.tx_power_active = Some(state);
                out.push(Event::SendStatus(None));
            },
            Event::PttEnableStateChanged(state) => {
                self.status.ptt_enabled = Some(state);
                out.push(Event::SendStatus(None));
            },
            Event::PttStateChanged(state) => {
                self.status.ptt_active = Some(state);
                out.push(Event::SendStatus(None));
                if let Some(guard) = self.tx_guard_time {
                    // Cancel the pending timer, then arm a new one while PTT is active.
                    self.guard_deadline = None;
                    if state {
                        self.guard_deadline = Some(now.saturating_add(guard));
                    }
                }
            },
            Event::SendStatus(msg) => {
                let payload = encode_response(&self.status, &msg, stamp);
                let topic = self.status_topic.clone();
                out.push(Event::MqttMessageSend(crate::event::MqttMessageEvent { topic, message: payload }));
            },
            _ => {},
        }
        assert(views(out@) =~= answer(self.status, old(self).status_topic@, e, stamp@));
        out
    }

    /// As `handle`, with the status messages stamped with the local time now.
    pub fn process(&mut self, event: Event, now: u64) -> (r: Vec<Event>)
        ensures
            final(self).status_spec() == next_status(old(self).status_spec(), event@),
            final(self).topic_spec() == old(self).topic_spec(),
            final(self).guard_spec() == old(self).guard_spec(),
            final(self).deadline_spec() == next_deadline(
                old(self).guard_spec(),
                old(self).deadline_spec(),
                event@,
                now,
            ),
            exists|stamp: Seq<char>|
                views(r@) == #[trigger] answer(
                    final(self).status_spec(),
                    old(self).topic_spec(),
                    event@,
                    stamp,
                ),
    {
        let stamp = local_timestamp();
        let r = self.handle(event, now, stamp.as_str());
        assert(views(r@) == answer(self.status_spec(), old(self).topic_spec(), event@, stamp@));
        r
    }

    /// Looks at the guard timer at time `now`: once the pending deadline is
    /// reached the timer is spent and the cutoff events are returned.
    pub fn poll_guard(&mut self, now: u64) -> (r: Vec<Event>)
        ensures
            final(self).status_spec() == old(self).status_spec(),
            final(self).topic_spec() == old(self).topic_spec(),
            final(self).guard_spec() == old(self).guard_spec(),
            final(self).deadline_spec() == polled_deadline(
                old(self).guard_spec(),
                old(self).deadline_spec(),
                now,
            ),
            views(r@) == poll_events(old(self).guard_spec(), old(self).deadline_spec(), now),
    {
        let mut out: Vec<Event> = Vec::new();
        proof {
            lemma_views_empty();
        }
        if let (Some(deadline), Some(guard)) = (self.guard_deadline, self.tx_guard_time) {
            if deadline <= now {
                self.guard_deadline = None;
                proof {
                    lemma_views_push(out@, Event::SetTxPowerEnable(false));
                }
                out.push(Event::SetTxPowerEnable(false));
                proof {
                    lemma_views_push(out@, Event::SetPttEnable(false));
                }
                out.push(Event::SetPttEnable(false));
                let msg = timeout_message(guard);
                proof {
                    lemma_views_push(out@, Event::SendStatus(Some(msg)));
                }
                out.push(Event::SendStatus(Some(msg)));
            }
        }
        assert(views(out@) =~= poll_events(old(self).guard_spec(), old(self).deadline_spec(), now));
        out
    }
}

/// With a guard time, PTT turning active and then inactive again before the
/// guard time has passed never yields a cutoff: no look at the guard before
/// release fires it, and release leaves no timer pending. (Stated for a
/// deadline that the millisecond clock can reach without saturating.)
pub proof fn lemma_guard_released(
    guard_ms: u64,
    pending: Option<u64>,
    t_on: u64,
    t_poll: u64,
    t_off: u64,
    t_later: u64,
)
    requires
        t_on <= t_poll,
        t_poll < t_on + guard_ms,
        t_on + guard_ms <= u64::MAX,
    ensures
        ({
            let armed = next_deadline(Some(guard_ms), pending, EventView::PttStateChanged(true), t_on);
            &&& poll_events(Some(guard_ms), armed, t_poll) == Seq::<EventView>::empty()
            &&& polled_deadline(Some(guard_ms), armed, t_poll) == armed
            &&& next_deadline(Some(guard_ms), armed, EventView::PttStateChanged(false), t_off) is None
            &&& poll_events(
                Some(guard_ms),
                next_deadline(Some(guard_ms), armed, EventView::PttStateChanged(false), t_off),
                t_later,
            ) == Seq::<EventView>::empty()
        }),
{
}

/// With a guard time, PTT that stays active for the guard time yields one
/// cutoff: the first look at the guard from then on emits it, with a message
/// that names the guard time, and every later look emits nothing.
pub proof fn lemma_guard_fires_once(guard_ms: u64, pending: Option<u64>, t_on: u64, t: u64, t_later: u64)
    requires
        t_on + guard_ms <= t,
        t <= t_later,
    ensures
        ({
            let armed = next_deadline(Some(guard_ms), pending, EventView::PttStateChanged(true), t_on);
            &&& poll_events(Some(guard_ms), armed, t) == cutoff_events(guard_ms)
            &&& polled_deadline(Some(guard_ms), armed, t) is None
            &&& poll_events(Some(guard_ms), polled_deadline(Some(guard_ms), armed, t), t_later)
                == Seq::<EventView>::empty()
        }),
        timeout_text(guard_ms).subrange(19, 19 + decimal(guard_ms as nat).len() as int)
            == decimal(guard_ms as nat),
{
    reveal_strlit("TX timed out after ");
    assert(timeout_text(guard_ms).subrange(19, 19 + decimal(guard_ms as nat).len() as int)
        =~= decimal(guard_ms as nat));
}

/// With a guard time, each turn of PTT to active replaces whatever timer was
/// pending by one of its own: the guard is looked at in vain until the full
/// guard time has passed since this latest activation. (Stated for a
/// deadline that the millisecond clock can reach without saturating.)
pub proof fn lemma_guard_rearmed(guard_ms: u64, pending: Option<u64>, t_on: u64, t: u64)
    requires
        t < t_on + guard_ms,
        t_on + guard_ms <= u64::MAX,
    ensures
        next_deadline(Some(guard_ms), pending, EventView::PttStateChanged(true), t_on)
            == Some(sat_add(t_on, guard_ms)),
        poll_events(
            Some(guard_ms),
            next_deadline(Some(guard_ms), pending, EventView::PttStateChanged(true), t_on),
            t,
        ) == Seq::<EventView>::empty(),
{
}

/// A status message asked for after an event carries the status as that event
/// left it, not an earlier copy.
pub proof fn lemma_status_is_current(s: Status, topic: Seq<char>, e: EventView, stamp: Seq<char>)
    ensures
        answer(
            next_status(next_status(s, e), EventView::SendStatus(None)),
            topic,
            EventView::SendStatus(None),
            stamp,
        ) == seq![
            EventView::MqttMessageSend {
                topic,
                message: response_json(next_status(s, e), None, stamp),
            },
        ],
{
}

} // verus!
