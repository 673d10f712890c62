//! The debounced, rate-limited flush of the counters.
//!
//! The handler is a state machine driven by events and by the expiry of its
//! deadline. It decides; the caller performs the network exchange of a
//! [`FlushOutcome::Send`] and runs the timer.
use vstd::prelude::*;
use crate::config::Config;
use crate::events::CodeStatsEvent;
use crate::pulse::{build_pulse, pulse_url, rfc3339_of, PulsePayload, MAX_TIMESTAMP_MS};
use crate::xp::{incremented, lemma_incremented, no_xp, snapshot_and_clear, unique_keys, xp_of, XpStore};

verus! {

/// How long edits must pause before a scheduled flush fires, and the least
/// time between two sends unless forced, in milliseconds.
pub const QUIET_WINDOW_MS: i64 = 10_000;

/// A request to post: the address, the API key and the report.
#[derive(Debug)]
pub struct PulseRequest {
    pub url: String,
    pub key: String,
    pub payload: PulsePayload,
}

/// What a flush decided.
#[derive(Debug)]
pub enum FlushOutcome {
    /// There was no trigger to consume.
    NoTriggerSet,
    /// No API key: the counters were left as they were.
    ConfigurationMissing,
    /// The counters were cleared and held no XP.
    EmptyAggregate,
    /// The counters were cleared, but the last send was too recent: the
    /// snapshot is dropped.
    RateLimited,
    /// The counters were cleared and this report is to be posted.
    Send(PulseRequest),
}

/// The kinds of [`FlushOutcome`].
#[derive(Debug, Clone, Copy, PartialEq, Eq, Structural)]
pub enum FlushKind {
    NoTriggerSet,
    ConfigurationMissing,
    EmptyAggregate,
    RateLimited,
    Sent,
}

impl FlushOutcome {
    pub open spec fn kind(&self) -> FlushKind {
        match self {
            FlushOutcome::NoTriggerSet => FlushKind::NoTriggerSet,
            FlushOutcome::ConfigurationMissing => FlushKind::ConfigurationMissing,
            FlushOutcome::EmptyAggregate => FlushKind::EmptyAggregate,
            FlushOutcome::RateLimited => FlushKind::RateLimited,
            FlushOutcome::Send(_) => FlushKind::Sent,
        }
    }
}

/// What a step of the handler asks of its caller.
#[derive(Debug)]
pub enum Step {
    /// Run the timer until this deadline (milliseconds), then call `on_timer`.
    Scheduled(i64),
    /// A flush ran at once.
    Flushed(FlushOutcome),
    /// No timer runs.
    Cancelled,
}

/// The handler's state: the pending trigger, the deadline of the scheduled
/// flush, and when a send was last attempted.
pub struct HandlerView {
    pub trigger: Option<CodeStatsEvent>,
    pub deadline: Option<int>,
    pub last_send: int,
}

/// A send is due when at least the quiet window has passed since the last one.
pub open spec fn send_due(last_send: int, now: int) -> bool {
    now - last_send >= QUIET_WINDOW_MS
}

/// What a flush decides, from the trigger, whether a key is set, the counters
/// and the times.
pub open spec fn flush_kind(
    trigger: Option<CodeStatsEvent>,
    has_key: bool,
    snapshot: Seq<(Seq<char>, nat)>,
    last_send: int,
    now: int,
) -> FlushKind {
    if trigger is None {
        FlushKind::NoTriggerSet
    } else if !has_key {
        FlushKind::ConfigurationMissing
    } else if no_xp(snapshot) {
        FlushKind::EmptyAggregate
    } else if !send_due(last_send, now) && trigger != Some(CodeStatsEvent::ForceSend) {
        FlushKind::RateLimited
    } else {
        FlushKind::Sent
    }
}

/// The counters after a flush: cleared once a trigger and a key are there,
/// untouched otherwise.
pub open spec fn store_after_flush(
    trigger: Option<CodeStatsEvent>,
    has_key: bool,
    snapshot: Seq<(Seq<char>, nat)>,
) -> Seq<(Seq<char>, nat)> {
    if trigger is Some && has_key {
        Seq::empty()
    } else {
        snapshot
    }
}

/// The whole effect of a flush at `now` from state `v` with counters `s`:
/// state `w`, counters `t`, outcome `o`.
pub open spec fn flushed(
    v: HandlerView,
    config: &Config,
    now: int,
    s: Seq<(Seq<char>, nat)>,
    w: HandlerView,
    t: Seq<(Seq<char>, nat)>,
    o: &FlushOutcome,
) -> bool {
    let kind = flush_kind(v.trigger, config.key is Some, s, v.last_send, now);
    &&& w.trigger is None
    &&& w.deadline is None
    &&& t == store_after_flush(v.trigger, config.key is Some, s)
    &&& o.kind() == kind
    &&& w.last_send == (if kind == FlushKind::Sent {
        now
    } else {
        v.last_send
    })
    &&& (o matches FlushOutcome::Send(req) ==> {
        &&& req.url@ == config.server@ + "api/my/pulses"@
        &&& config.key matches Some(k) && req.key@ == k@
        &&& req.payload.coded_at@ == rfc3339_of(now)
        &&& req.payload.xps_view() == s
    })
}

/// The state after an `Update` at `now`: the trigger is set and the deadline
/// restarts a quiet window from `now`.
pub open spec fn after_update(v: HandlerView, now: int) -> HandlerView {
    HandlerView {
        trigger: Some(CodeStatsEvent::Update),
        deadline: Some(now + QUIET_WINDOW_MS),
        last_send: v.last_send,
    }
}

/// The state after a `Cancel`: no trigger and no deadline.
pub open spec fn after_cancel(v: HandlerView) -> HandlerView {
    HandlerView { trigger: None, deadline: None, last_send: v.last_send }
}

/// The state with `ForceSend` as its trigger, as a forced flush sees it.
pub open spec fn forced(v: HandlerView) -> HandlerView {
    HandlerView { trigger: Some(CodeStatsEvent::ForceSend), deadline: v.deadline, last_send: v.last_send }
}

/// The timer fires at `now` when a deadline is set and has been reached.
pub open spec fn timer_due(v: HandlerView, now: int) -> bool {
    v.deadline matches Some(d) && now >= d
}

/// The state after a series of `Update` events at the given times.
pub open spec fn updates_applied(v: HandlerView, times: Seq<int>) -> HandlerView
    decreases times.len(),
{
    if times.len() == 0 {
        v
    } else {
        after_update(updates_applied(v, times.drop_last()), times.last())
    }
}

/// A burst of updates leaves a single scheduled flush, one quiet window after
/// the last update of the burst; the timer does not fire before that.
pub proof fn lemma_burst_single_deadline(v: HandlerView, times: Seq<int>, now: int)
    requires
        times.len() > 0,
    ensures
        updates_applied(v, times).trigger == Some(CodeStatsEvent::Update),
        updates_applied(v, times).deadline == Some(times.last() + QUIET_WINDOW_MS),
        updates_applied(v, times).last_send == v.last_send,
        now < times.last() + QUIET_WINDOW_MS ==> !timer_due(updates_applied(v, times), now),
    decreases times.len(),
{
    if times.len() > 1 {
        lemma_burst_single_deadline(v, times.drop_last(), now);
    } else {
        assert(updates_applied(v, times.drop_last()) == v);
    }
}

/// A forced flush is never held back by the time since the last send: with a
/// key and some XP it always sends.
pub proof fn lemma_force_send_ignores_timing(
    v: HandlerView,
    has_key: bool,
    s: Seq<(Seq<char>, nat)>,
    now: int,
)
    ensures
        flush_kind(forced(v).trigger, has_key, s, v.last_send, now) != FlushKind::RateLimited,
        has_key && !no_xp(s) ==> flush_kind(forced(v).trigger, has_key, s, v.last_send, now)
            == FlushKind::Sent,
{
}

/// After a cancel with no later event, the timer never fires and a flush
/// finds no trigger: nothing is sent and the counters stay as they are.
pub proof fn lemma_cancel_never_sends(
    v: HandlerView,
    has_key: bool,
    s: Seq<(Seq<char>, nat)>,
    now: int,
)
    ensures
        !timer_due(after_cancel(v), now),
        flush_kind(after_cancel(v).trigger, has_key, s, v.last_send, now)
            == FlushKind::NoTriggerSet,
        store_after_flush(after_cancel(v).trigger, has_key, s) == s,
{
}

/// Without an API key no flush sends, whatever its trigger, and the counters
/// are kept, so further edits keep adding to them.
pub proof fn lemma_no_key_never_sends(
    trigger: Option<CodeStatsEvent>,
    s: Seq<(Seq<char>, nat)>,
    last_send: int,
    now: int,
    lang: Seq<char>,
    diff: nat,
)
    requires
        unique_keys(s),
    ensures
        flush_kind(trigger, false, s, last_send, now) != FlushKind::Sent,
        store_after_flush(trigger, false, s) == s,
        xp_of(incremented(store_after_flush(trigger, false, s), lang, diff), lang) == xp_of(
            s,
            lang,
        ) + diff,
{
    lemma_incremented(s, lang, diff);
}

/// Decides when the counters are flushed and whether a flush is sent.
pub struct CodeStatsHandler {
    trigger: Option<CodeStatsEvent>,
    deadline: Option<i64>,
    last_send: i64,
}

impl View for CodeStatsHandler {
    type V = HandlerView;

    closed spec fn view(&self) -> HandlerView {
        HandlerView {
            trigger: self.trigger,
            deadline: match self.deadline {
                Some(d) => Some(d as int),
                None => None,
            },
            last_send: self.last_send as int,
        }
    }
}

impl CodeStatsHandler {
    /// A handler with nothing pending, counting its last send from `now`.
    pub fn new(now: i64) -> (r: CodeStatsHandler)
        ensures
            r@.trigger is None,
            r@.deadline is None,
            r@.last_send == now,
    {
        CodeStatsHandler { trigger: None, deadline: None, last_send: now }
    }

    /// The pending trigger.
    pub fn trigger(&self) -> (r: Option<CodeStatsEvent>)
        ensures
            r == self@.trigger,
    {
        self.trigger
    }

    /// The deadline of the scheduled flush.
    pub fn deadline(&self) -> (r: Option<i64>)
        ensures
            r is Some == self@.deadline is Some,
            r is Some ==> self@.deadline == Some(r->0 as int),
    {
        self.deadline
    }

    /// When a send was last attempted.
    pub fn last_send(&self) -> (r: i64)
        ensures
            r == self@.last_send,
    {
        self.last_send
    }

    /// True iff at least the quiet window has passed since the last send.
    pub fn should_send(&self, now: i64) -> (r: bool)
        ensures
            r == send_due(self@.last_send, now as int),
    {
        (now as i128) - (self.last_send as i128) >= QUIET_WINDOW_MS as i128
    }

    /// Consumes the trigger and flushes: without a key nothing changes;
    /// otherwise the counters are taken, and unless they hold no XP or the
    /// last send was too recent for an unforced flush, a report stamped `now`
    /// is handed out and `now` becomes the last send.
    pub fn finish_debounce(&mut self, config: &Config, now: i64, xps: &mut XpStore) -> (r:
        FlushOutcome)
        requires
            old(xps).wf(),
            -MAX_TIMESTAMP_MS <= now <= MAX_TIMESTAMP_MS,
        ensures
            final(xps).wf(),
            flushed(old(self)@, config, now as int, old(xps)@, final(self)@, final(xps)@, &r),
    {
        let trigger = self.trigger.take();
        self.deadline = None;
        let trigger = match trigger {
            Some(t) => t,
            None => {
                return FlushOutcome::NoTriggerSet;
            },
        };
        let key = match &config.key {
            Some(k) => k,
            None => {
                return FlushOutcome::ConfigurationMissing;
            },
        };
        let snapshot = snapshot_and_clear(xps);
        if crate::xp::xp_empty(&snapshot) {
            return FlushOutcome::EmptyAggregate;
        }
        if !self.should_send(now) && trigger != CodeStatsEvent::ForceSend {
            return FlushOutcome::RateLimited;
        }
        let payload = build_pulse(now, &snapshot);
        let url = pulse_url(config.server.as_str());
        self.last_send = now;
        FlushOutcome::Send(PulseRequest { url, key: key.clone(), payload })
    }

    /// Handles one event at `now`. `Update` (re)starts the quiet window;
    /// `ForceSend` flushes at once, whatever the time since the last send;
    /// `Cancel` drops the pending flush and leaves the counters alone.
    pub fn handle_event(
        &mut self,
        event: CodeStatsEvent,
        now: i64,
        config: &Config,
        xps: &mut XpStore,
    ) -> (r: Step)
        requires
            old(xps).wf(),
            event == CodeStatsEvent::ForceSend ==> -MAX_TIMESTAMP_MS <= now <= MAX_TIMESTAMP_MS,
            event == CodeStatsEvent::Update ==> now <= i64::MAX - QUIET_WINDOW_MS,
        ensures
            final(xps).wf(),
            event == CodeStatsEvent::Update ==> {
                &&& final(self)@ == after_update(old(self)@, now as int)
                &&& final(xps)@ == old(xps)@
                &&& r matches Step::Scheduled(d) && d == now + QUIET_WINDOW_MS
            },
            event == CodeStatsEvent::ForceSend ==> (r matches Step::Flushed(o) && flushed(
                forced(old(self)@),
                config,
                now as int,
                old(xps)@,
                final(self)@,
                final(xps)@,
                &o,
            )),
            event == CodeStatsEvent::Cancel ==> {
                &&& final(self)@ == after_cancel(old(self)@)
                &&& final(xps)@ == old(xps)@
                &&& r is Cancelled
            },
    {
        match event {
            CodeStatsEvent::Update => {
                let d = now + QUIET_WINDOW_MS;
                self.trigger = Some(CodeStatsEvent::Update);
                self.deadline = Some(d);
                Step::Scheduled(d)
            },
            CodeStatsEvent::ForceSend => {
                self.trigger = Some(CodeStatsEvent::ForceSend);
                let o = self.finish_debounce(config, now, xps);
                Step::Flushed(o)
            },
            CodeStatsEvent::Cancel => {
                self.trigger = None;
                self.deadline = None;
                Step::Cancelled
            },
        }
    }

    /// The timer at `now`: once the deadline is reached, the flush runs;
    /// before that, or with no deadline, nothing changes.
    pub fn on_timer(&mut self, config: &Config, now: i64, xps: &mut XpStore) -> (r: Option<
        FlushOutcome,
    >)
        requires
            old(xps).wf(),
            -MAX_TIMESTAMP_MS <= now <= MAX_TIMESTAMP_MS,
        ensures
            final(xps).wf(),
            timer_due(old(self)@, now as int) ==> (r matches Some(o) && flushed(
                old(self)@,
                config,
                now as int,
                old(xps)@,
                final(self)@,
                final(xps)@,
                &o,
            )),
            !timer_due(old(self)@, now as int) ==> {
                &&& r is None
                &&& final(self)@ == old(self)@
                &&& final(xps)@ == old(xps)@
            },
    {
        match self.deadline {
            Some(d) => {
                if now >= d {
                    Some(self.finish_debounce(config, now, xps))
                } else {
                    None
                }
            },
            None => None,
        }
    }
}

/// The "send now" command: it asks the handler for a forced flush, and
/// touches nothing itself.
pub fn typeablecmd_send_info() -> (r: CodeStatsEvent)
    ensures
        r == CodeStatsEvent::ForceSend,
{
    CodeStatsEvent::ForceSend
}

} // verus!
