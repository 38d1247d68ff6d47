//! The race between the probes of a roster.
//!
//! A race owns three things: the one slot into which the first report is
//! delivered, the countdown of probes that are still running, and the mark that
//! the caller's deadline has passed. Probes act on it through [`Race::report`]
//! and [`Race::finish`], a timer through [`Race::expire`], and the caller reads
//! the outcome with [`Race::verdict`]. The race decides; it neither launches
//! probes nor waits. [`detect`] and [`detect_with_timeout`] run a whole race
//! over events that were recorded, and say what its caller is answered.

use vstd::prelude::*;
use crate::provider_id::ProviderId;
use crate::roster::Roster;

verus! {

/// The longest that a detection is given by default, in milliseconds. No
/// request to a metadata server is given longer.
pub const DEFAULT_DETECTION_TIMEOUT_MS: u64 = 5000;

/// What a probe tells the race.
#[derive(Debug, Clone, Copy, PartialEq, Eq, Structural)]
pub enum Event {
    /// The probe confirmed this provider.
    Report(ProviderId),
    /// The probe's run has returned.
    Finished,
}

/// An event together with the time at which it reached the race.
#[derive(Debug, Clone, Copy, PartialEq, Eq, Structural)]
pub struct Arrival {
    /// Milliseconds since the race began.
    pub at_ms: u64,
    /// What arrived.
    pub event: Event,
}

/// How a race stands.
#[derive(Debug, Clone, Copy, PartialEq, Eq, Structural)]
pub enum Verdict {
    /// No report has come and some probe is still running.
    Pending,
    /// The race is decided: a provider, or `Unknown` when every probe finished
    /// and none reported.
    Resolved(ProviderId),
    /// The deadline passed before the race was decided.
    TimedOut,
}

/// The mathematical state of a race.
pub struct RaceState {
    /// The identity that was delivered, if any.
    pub slot: Option<ProviderId>,
    /// How many probes have not finished yet.
    pub outstanding: nat,
    /// Whether the deadline passed while the race was pending.
    pub expired: bool,
}

impl RaceState {
    /// The race at its start, with `probes` probes launched.
    pub open spec fn start(probes: nat) -> RaceState {
        RaceState { slot: None, outstanding: probes, expired: false }
    }

    /// Whether the completion signal is up: every probe has finished.
    pub open spec fn complete(self) -> bool {
        self.outstanding == 0
    }

    /// Whether a report would be taken: the slot is free, some probe is still
    /// running and the caller has not given up.
    pub open spec fn accepts(self) -> bool {
        self.slot is None && !self.complete() && !self.expired
    }

    /// The race after a probe reported `id`. Only the first report is kept.
    pub open spec fn report(self, id: ProviderId) -> RaceState {
        if self.accepts() {
            RaceState { slot: Some(id), ..self }
        } else {
            self
        }
    }

    /// The race after one probe finished.
    pub open spec fn finish(self) -> RaceState {
        if self.outstanding > 0 {
            RaceState { outstanding: (self.outstanding - 1) as nat, ..self }
        } else {
            self
        }
    }

    /// The race after the deadline passed. A race that is already decided
    /// stays decided.
    pub open spec fn expire(self) -> RaceState {
        if self.verdict() == Verdict::Pending {
            RaceState { expired: true, ..self }
        } else {
            self
        }
    }

    /// The race after the last sender is gone: no probe is left that could
    /// report or finish, so the completion signal goes up.
    pub open spec fn close(self) -> RaceState {
        RaceState { outstanding: 0, ..self }
    }

    /// The race after `event`.
    pub open spec fn apply(self, event: Event) -> RaceState {
        match event {
            Event::Report(id) => self.report(id),
            Event::Finished => self.finish(),
        }
    }

    /// The race after `events`, in their order.
    pub open spec fn run(self, events: Seq<Event>) -> RaceState
        decreases events.len(),
    {
        if events.len() == 0 {
            self
        } else {
            self.run(events.drop_last()).apply(events.last())
        }
    }

    /// The race after `arrival`, for a caller who waits `deadline_ms`
    /// milliseconds: an arrival after the deadline finds the deadline passed.
    pub open spec fn apply_timed(self, arrival: Arrival, deadline_ms: u64) -> RaceState {
        if arrival.at_ms <= deadline_ms {
            self.apply(arrival.event)
        } else {
            self.expire().apply(arrival.event)
        }
    }

    /// The race after the arrivals of `timeline`, in their order, for a caller
    /// who waits `deadline_ms` milliseconds.
    pub open spec fn run_timed(self, timeline: Seq<Arrival>, deadline_ms: u64) -> RaceState
        decreases timeline.len(),
    {
        if timeline.len() == 0 {
            self
        } else {
            self.run_timed(timeline.drop_last(), deadline_ms).apply_timed(
                timeline.last(),
                deadline_ms,
            )
        }
    }

    /// How the race stands. A delivered report comes before the completion
    /// signal, so a match is never shadowed by "every probe finished".
    pub open spec fn verdict(self) -> Verdict {
        if self.expired {
            Verdict::TimedOut
        } else if let Some(id) = self.slot {
            Verdict::Resolved(id)
        } else if self.complete() {
            Verdict::Resolved(ProviderId::Unknown)
        } else {
            Verdict::Pending
        }
    }
}

/// One race, made for one detection and discarded after it.
pub struct Race {
    slot: Option<ProviderId>,
    outstanding: usize,
    expired: bool,
}

impl View for Race {
    type V = RaceState;

    closed spec fn view(&self) -> RaceState {
        RaceState {
            slot: self.slot,
            outstanding: self.outstanding as nat,
            expired: self.expired,
        }
    }
}

impl Race {
    /// Starts a race between `probes` probes. With no probe the completion
    /// signal is up from the start.
    pub fn new(probes: usize) -> (race: Race)
        ensures
            race@ == RaceState::start(probes as nat),
    {
        Race { slot: None, outstanding: probes, expired: false }
    }

    /// How many probes have not finished yet.
    pub fn outstanding(&self) -> (n: usize)
        ensures
            n == self@.outstanding,
    {
        self.outstanding
    }

    /// Delivers a probe's report. Returns whether it was taken; a report that
    /// comes second, after every probe finished or after the deadline is
    /// dropped and changes nothing.
    pub fn report(&mut self, id: ProviderId) -> (taken: bool)
        ensures
            final(self)@ == old(self)@.report(id),
            taken == old(self)@.accepts(),
    {
        if self.slot.is_none() && self.outstanding > 0 && !self.expired {
            self.slot = Some(id);
            true
        } else {
            false
        }
    }

    /// Counts one probe as finished. Returns whether this was the last one,
    /// that is, whether this call raised the completion signal.
    pub fn finish(&mut self) -> (last: bool)
        ensures
            final(self)@ == old(self)@.finish(),
            last == (old(self)@.outstanding == 1),
    {
        if self.outstanding > 0 {
            self.outstanding = self.outstanding - 1;
            self.outstanding == 0
        } else {
            false
        }
    }

    /// Marks the deadline as passed. Returns whether the race was still
    /// pending, that is, whether the deadline came first.
    pub fn expire(&mut self) -> (first: bool)
        ensures
            final(self)@ == old(self)@.expire(),
            first == (old(self)@.verdict() == Verdict::Pending),
    {
        if !self.expired && self.slot.is_none() && self.outstanding > 0 {
            self.expired = true;
            true
        } else {
            false
        }
    }

    /// Records that no probe is left to report or to finish, as when the
    /// channel that carries their events is closed. The countdown goes to
    /// zero: a race without a report resolves to `Unknown`.
    pub fn close(&mut self)
        ensures
            final(self)@ == old(self)@.close(),
    {
        self.outstanding = 0;
    }

    /// Applies one event.
    pub fn apply(&mut self, event: Event)
        ensures
            final(self)@ == old(self)@.apply(event),
    {
        match event {
            Event::Report(id) => {
                self.report(id);
            },
            Event::Finished => {
                self.finish();
            },
        }
    }

    /// How the race stands now.
    pub fn verdict(&self) -> (v: Verdict)
        ensures
            v == self@.verdict(),
    {
        if self.expired {
            Verdict::TimedOut
        } else if let Some(id) = self.slot {
            Verdict::Resolved(id)
        } else if self.outstanding == 0 {
            Verdict::Resolved(ProviderId::Unknown)
        } else {
            Verdict::Pending
        }
    }
}

/// What a detection without deadline returns when `probes` probes produce
/// `events` and nothing more: the identity that the race resolved to. Where the
/// events end before the race is decided, no probe is left that could report,
/// and the race, closed, resolves to `Unknown`.
pub open spec fn detection(probes: nat, events: Seq<Event>) -> ProviderId {
    match RaceState::start(probes).run(events).close().verdict() {
        Verdict::Resolved(id) => id,
        _ => ProviderId::Unknown,
    }
}

/// What a detection with a deadline returns when `probes` probes produce
/// `timeline`: the identity that the race resolved to by the deadline, and
/// `None` when the deadline came first.
pub open spec fn timed_detection(probes: nat, timeline: Seq<Arrival>, deadline_ms: u64) -> Option<
    ProviderId,
> {
    match RaceState::start(probes).run_timed(timeline, deadline_ms).expire().verdict() {
        Verdict::Resolved(id) => Some(id),
        _ => None,
    }
}

/// Runs the race of `roster` over `events`, which its probes produced in this
/// order, and returns the provider that won. `Unknown` means that no probe
/// matched, or that the events ended before any did.
pub fn detect(roster: &Roster, events: &Vec<Event>) -> (id: ProviderId)
    ensures
        id == detection(roster@.len(), events@),
{
    let mut race = Race::new(roster.len());
    let mut i: usize = 0;
    while i < events.len()
        invariant
            i <= events@.len(),
            race@ == RaceState::start(roster@.len()).run(events@.take(i as int)),
        decreases events@.len() - i,
    {
        assert(events@.take(i + 1).drop_last() =~= events@.take(i as int));
        race.apply(events[i]);
        i += 1;
    }
    assert(events@.take(i as int) =~= events@);
    race.close();
    match race.verdict() {
        Verdict::Resolved(id) => id,
        _ => ProviderId::Unknown,
    }
}

/// Runs the race of `roster` over `timeline` for a caller who waits
/// `timeout_ms` milliseconds. Returns the provider that won by then, `Unknown`
/// included, and `None` when the deadline passed before the race was decided.
pub fn detect_with_timeout(roster: &Roster, timeline: &Vec<Arrival>, timeout_ms: u64) -> (found:
    Option<ProviderId>)
    ensures
        found == timed_detection(roster@.len(), timeline@, timeout_ms),
{
    let mut race = Race::new(roster.len());
    let mut i: usize = 0;
    while i < timeline.len()
        invariant
            i <= timeline@.len(),
            race@ == RaceState::start(roster@.len()).run_timed(
                timeline@.take(i as int),
                timeout_ms,
            ),
        decreases timeline@.len() - i,
    {
        assert(timeline@.take(i + 1).drop_last() =~= timeline@.take(i as int));
        let arrival = timeline[i];
        if arrival.at_ms > timeout_ms {
            race.expire();
        }
        race.apply(arrival.event);
        i += 1;
    }
    assert(timeline@.take(i as int) =~= timeline@);
    race.expire();
    match race.verdict() {
        Verdict::Resolved(id) => Some(id),
        _ => None,
    }
}

/// The events of `timeline`, without their times.
pub open spec fn events_in(timeline: Seq<Arrival>) -> Seq<Event> {
    Seq::new(timeline.len(), |i: int| timeline[i].event)
}

/// A decided race stays decided: no later event and no deadline changes its
/// verdict, so no second result can ever be observed.
pub proof fn law_verdict_is_final(state: RaceState, events: Seq<Event>)
    requires
        state.verdict() != Verdict::Pending,
    ensures
        state.run(events).verdict() == state.verdict(),
        state.run(events).expire() == state.run(events),
        state.run(events).close().verdict() == state.verdict(),
    decreases events.len(),
{
    if events.len() > 0 {
        law_verdict_is_final(state, events.drop_last());
    }
}

/// The completion signal rises once. The countdown never goes up, and once it
/// is at zero it stays there, so of all the calls that count a probe as
/// finished only one can find that it was the last.
pub proof fn law_signal_rises_once(state: RaceState, events: Seq<Event>)
    ensures
        state.run(events).outstanding <= state.outstanding,
        state.complete() ==> state.run(events).complete(),
    decreases events.len(),
{
    if events.len() > 0 {
        law_signal_rises_once(state, events.drop_last());
    }
}

/// Closing decides: a race whose probes are all gone is never left pending.
/// It keeps a verdict that it had, and a pending race resolves to `Unknown`.
pub proof fn law_closing_decides(state: RaceState)
    ensures
        state.close().verdict() == if state.verdict() == Verdict::Pending {
            Verdict::Resolved(ProviderId::Unknown)
        } else {
            state.verdict()
        },
{
}

/// The same for a timeline: a decided race keeps its verdict whatever
/// arrives, in time or late.
pub proof fn lemma_verdict_is_final_timed(
    state: RaceState,
    timeline: Seq<Arrival>,
    deadline_ms: u64,
)
    requires
        state.verdict() != Verdict::Pending,
    ensures
        state.run_timed(timeline, deadline_ms).verdict() == state.verdict(),
    decreases timeline.len(),
{
    if timeline.len() > 0 {
        lemma_verdict_is_final_timed(state, timeline.drop_last(), deadline_ms);
    }
}

/// Arrivals that all come in time act on the race as their events do.
pub proof fn lemma_in_time_is_untimed(state: RaceState, timeline: Seq<Arrival>, deadline_ms: u64)
    requires
        forall|i: int| 0 <= i < timeline.len() ==> (#[trigger] timeline[i]).at_ms <= deadline_ms,
    ensures
        state.run_timed(timeline, deadline_ms) == state.run(events_in(timeline)),
    decreases timeline.len(),
{
    if timeline.len() > 0 {
        lemma_in_time_is_untimed(state, timeline.drop_last(), deadline_ms);
        assert(events_in(timeline).drop_last() =~= events_in(timeline.drop_last()));
    }
}

/// A timeline can be run in two parts.
pub proof fn lemma_run_timed_in_parts(
    state: RaceState,
    first: Seq<Arrival>,
    rest: Seq<Arrival>,
    deadline_ms: u64,
)
    ensures
        state.run_timed(first + rest, deadline_ms) == state.run_timed(first, deadline_ms).run_timed(
            rest,
            deadline_ms,
        ),
    decreases rest.len(),
{
    if rest.len() == 0 {
        assert(first + rest =~= first);
    } else {
        lemma_run_timed_in_parts(state, first, rest.drop_last(), deadline_ms);
        assert((first + rest).drop_last() =~= first + rest.drop_last());
    }
}

/// The deadline decides. Let `early` be what arrives by the deadline and
/// `late` what follows, beginning with the first arrival after it. A caller
/// who waits until the deadline gets what the race over `early` resolved to;
/// where that race is still pending the result is `None`, whatever `late`
/// holds: a late value is never returned.
pub proof fn law_deadline_decides(
    probes: nat,
    early: Seq<Arrival>,
    late: Seq<Arrival>,
    deadline_ms: u64,
)
    requires
        forall|i: int| 0 <= i < early.len() ==> (#[trigger] early[i]).at_ms <= deadline_ms,
        late.len() > 0 ==> late[0].at_ms > deadline_ms,
    ensures
        timed_detection(probes, early + late, deadline_ms) == match RaceState::start(probes).run(
            events_in(early),
        ).verdict() {
            Verdict::Resolved(id) => Some(id),
            _ => None,
        },
{
    let start = RaceState::start(probes);
    let at_deadline = start.run_timed(early, deadline_ms);
    lemma_in_time_is_untimed(start, early, deadline_ms);
    lemma_run_timed_in_parts(start, early, late, deadline_ms);
    if late.len() > 0 {
        let head = late.take(1);
        let tail = late.skip(1);
        assert(late =~= head + tail);
        lemma_run_timed_in_parts(at_deadline, head, tail, deadline_ms);
        assert(head.drop_last() =~= Seq::<Arrival>::empty());
        assert(at_deadline.run_timed(head.drop_last(), deadline_ms) == at_deadline);
        assert(head.last() == late[0]);
        assert(at_deadline.run_timed(head, deadline_ms) == at_deadline.expire().apply(
            late[0].event,
        ));
        lemma_verdict_is_final_timed(
            at_deadline.run_timed(head, deadline_ms),
            tail,
            deadline_ms,
        );
    }
}

/// No late value. Where the race is still pending over what arrives by the
/// deadline, the detection returns `None`, whatever arrives later.
pub proof fn law_no_late_value(
    probes: nat,
    early: Seq<Arrival>,
    late: Seq<Arrival>,
    deadline_ms: u64,
)
    requires
        forall|i: int| 0 <= i < early.len() ==> (#[trigger] early[i]).at_ms <= deadline_ms,
        late.len() > 0 ==> late[0].at_ms > deadline_ms,
        RaceState::start(probes).run(events_in(early)).verdict() == Verdict::Pending,
    ensures
        timed_detection(probes, early + late, deadline_ms) is None,
{
    law_deadline_decides(probes, early, late, deadline_ms);
}

/// A detection with a deadline never returns another identity than the
/// detection without one: where it has a result, the two agree.
pub proof fn law_deadline_changes_no_result(
    probes: nat,
    timeline: Seq<Arrival>,
    deadline_ms: u64,
)
    ensures
        timed_detection(probes, timeline, deadline_ms) matches Some(id) ==> detection(
            probes,
            events_in(timeline),
        ) == id,
{
    lemma_timed_run_agrees(RaceState::start(probes), timeline, deadline_ms);
}

/// Run with a deadline, a race is either where it is without one, or decided.
/// Where it is resolved, it is resolved to the same identity without one.
proof fn lemma_timed_run_agrees(state: RaceState, timeline: Seq<Arrival>, deadline_ms: u64)
    requires
        !state.expired,
    ensures
        ({
            let timed = state.run_timed(timeline, deadline_ms);
            let untimed = state.run(events_in(timeline));
            &&& !untimed.expired
            &&& timed == untimed || timed.verdict() != Verdict::Pending
            &&& timed.verdict() is Resolved ==> untimed.verdict() == timed.verdict()
        }),
    decreases timeline.len(),
{
    if timeline.len() > 0 {
        lemma_timed_run_agrees(state, timeline.drop_last(), deadline_ms);
        assert(events_in(timeline).drop_last() =~= events_in(timeline.drop_last()));
    }
}

} // verus!
