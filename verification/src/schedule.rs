//! What the probes of a roster can do to a race, and what the race then
//! decides.
//!
//! A schedule is the sequence of moves that the probes make, in the order in
//! which the moves reach the race. Whatever the order, the race decides as the
//! laws at the end of this file say.

use vstd::prelude::*;
use vstd::set_lib::{lemma_int_range, lemma_len_subset, set_int_range};
use crate::probe::reports;
use crate::provider_id::ProviderId;
use crate::race::{detection, Event, RaceState, Verdict};
use crate::roster::valid_roster;

verus! {

/// One move of one probe. The number is the probe's place in the roster.
pub enum Move {
    /// The probe reports its provider.
    Report(int),
    /// The probe's run returns.
    Finish(int),
}

impl Move {
    /// The probe that makes the move.
    pub open spec fn probe(self) -> int {
        match self {
            Move::Report(p) => p,
            Move::Finish(p) => p,
        }
    }

    /// The event that the move sends to the race of `roster`.
    pub open spec fn event(self, roster: Seq<ProviderId>) -> Event {
        match self {
            Move::Report(p) => Event::Report(roster[p]),
            Move::Finish(_) => Event::Finished,
        }
    }
}

/// The events that `moves` send to the race of `roster`.
pub open spec fn events_of(roster: Seq<ProviderId>, moves: Seq<Move>) -> Seq<Event> {
    Seq::new(moves.len(), |i: int| moves[i].event(roster))
}

/// The probes whose run has returned in `moves`.
pub open spec fn finished(moves: Seq<Move>) -> Set<int>
    decreases moves.len(),
{
    if moves.len() == 0 {
        Set::empty()
    } else {
        match moves.last() {
            Move::Finish(p) => finished(moves.drop_last()).insert(p),
            Move::Report(_) => finished(moves.drop_last()),
        }
    }
}

/// The probes that have reported in `moves`.
pub open spec fn reported(moves: Seq<Move>) -> Set<int>
    decreases moves.len(),
{
    if moves.len() == 0 {
        Set::empty()
    } else {
        match moves.last() {
            Move::Report(p) => reported(moves.drop_last()).insert(p),
            Move::Finish(_) => reported(moves.drop_last()),
        }
    }
}

/// The probe that reported before every other, if any reported.
pub open spec fn first_reporter(moves: Seq<Move>) -> Option<int>
    decreases moves.len(),
{
    if moves.len() == 0 {
        None
    } else {
        match first_reporter(moves.drop_last()) {
            Some(p) => Some(p),
            None => match moves.last() {
                Move::Report(p) => Some(p),
                Move::Finish(_) => None,
            },
        }
    }
}

/// Whether `probes` probes, of which those in `confirming` find their
/// provider, can make `moves`. Every move is made by a probe of the roster that
/// has not returned yet; a probe reports only if it confirmed; and a probe that
/// confirmed reports before it returns.
pub open spec fn admissible(probes: nat, confirming: Set<int>, moves: Seq<Move>) -> bool
    decreases moves.len(),
{
    if moves.len() == 0 {
        true
    } else {
        let before = moves.drop_last();
        &&& admissible(probes, confirming, before)
        &&& 0 <= moves.last().probe() < probes
        &&& !finished(before).contains(moves.last().probe())
        &&& match moves.last() {
            Move::Report(p) => confirming.contains(p),
            Move::Finish(p) => confirming.contains(p) ==> reported(before).contains(p),
        }
    }
}

/// The moves that the probe at `place` makes in one run, given what its two
/// checks find: it reports if it comes to report, and then it returns.
pub open spec fn moves_of_probe(place: int, vendor_file: bool, metadata: bool) -> Seq<Move> {
    if reports(vendor_file, metadata) {
        seq![Move::Report(place), Move::Finish(place)]
    } else {
        seq![Move::Finish(place)]
    }
}

/// Whether each of `probes` probes has returned in `moves`.
pub open spec fn all_finished(probes: nat, moves: Seq<Move>) -> bool {
    forall|p: int| 0 <= p < probes ==> finished(moves).contains(p)
}

/// The race of `roster` after `moves`.
pub open spec fn race_after(roster: Seq<ProviderId>, moves: Seq<Move>) -> RaceState {
    RaceState::start(roster.len()).run(events_of(roster, moves))
}

/// What the probes can do, they can do up to any moment: each beginning of an
/// admissible sequence of moves is admissible. So what holds of every
/// admissible sequence holds at every moment of a race.
pub proof fn law_admissible_at_every_moment(
    probes: nat,
    confirming: Set<int>,
    moves: Seq<Move>,
    moment: int,
)
    requires
        admissible(probes, confirming, moves),
        0 <= moment <= moves.len(),
    ensures
        admissible(probes, confirming, moves.take(moment)),
    decreases moves.len(),
{
    if moment < moves.len() {
        law_admissible_at_every_moment(probes, confirming, moves.drop_last(), moment);
        assert(moves.drop_last().take(moment) =~= moves.take(moment));
    } else {
        assert(moves.take(moment) =~= moves);
    }
}

/// A probe that takes its steps makes admissible moves. Let the probe at
/// `place` not have returned yet, and let it count as confirming exactly if
/// one of its checks confirms. Then its run can follow what the others have
/// done so far, and after it the probe has returned; this holds also where
/// both checks fail.
pub proof fn law_probe_run_is_admissible(
    probes: nat,
    confirming: Set<int>,
    before: Seq<Move>,
    place: int,
    vendor_file: bool,
    metadata: bool,
)
    requires
        admissible(probes, confirming, before),
        0 <= place < probes,
        !finished(before).contains(place),
        confirming.contains(place) <==> (vendor_file || metadata),
    ensures
        admissible(probes, confirming, before + moves_of_probe(place, vendor_file, metadata)),
        finished(before + moves_of_probe(place, vendor_file, metadata)).contains(place),
{
    let run = moves_of_probe(place, vendor_file, metadata);
    let after = before + run;
    if reports(vendor_file, metadata) {
        let middle = before.push(Move::Report(place));
        assert(middle.drop_last() =~= before);
        assert(admissible(probes, confirming, middle));
        assert(after.drop_last() =~= middle);
        assert(after.last() == Move::Finish(place));
        assert(reported(middle).contains(place));
        assert(finished(middle) == finished(before));
    } else {
        assert(after.drop_last() =~= before);
        assert(after.last() == Move::Finish(place));
    }
}

/// A set of places in a roster of `probes` entries has at most `probes`
/// members, and exactly `probes` only if it holds every place.
proof fn lemma_count_of_places(probes: nat, places: Set<int>)
    requires
        places.subset_of(set_int_range(0, probes as int)),
    ensures
        places.finite(),
        places.len() <= probes,
        places.len() == probes <==> (forall|p: int| 0 <= p < probes ==> places.contains(p)),
{
    let all = set_int_range(0, probes as int);
    lemma_int_range(0, probes as int);
    lemma_len_subset(places, all);
    if forall|p: int| 0 <= p < probes ==> places.contains(p) {
        assert(places =~= all);
    } else {
        let q = choose|q: int| 0 <= q < probes && !places.contains(q);
        assert(all.contains(q));
        assert(places.subset_of(all.remove(q)));
        lemma_len_subset(places, all.remove(q));
    }
}

/// The race keeps the first report and counts the probes that returned.
pub proof fn lemma_race_follows_schedule(
    roster: Seq<ProviderId>,
    confirming: Set<int>,
    moves: Seq<Move>,
)
    requires
        admissible(roster.len(), confirming, moves),
    ensures
        finished(moves).finite(),
        finished(moves).subset_of(set_int_range(0, roster.len() as int)),
        forall|p: int|
            #![trigger finished(moves).contains(p)]
            finished(moves).contains(p) && confirming.contains(p) ==> reported(moves).contains(p),
        forall|p: int|
            #![trigger reported(moves).contains(p)]
            reported(moves).contains(p) ==> first_reporter(moves) is Some,
        first_reporter(moves) matches Some(p) ==> 0 <= p < roster.len() && confirming.contains(p),
        race_after(roster, moves) == (RaceState {
            slot: match first_reporter(moves) {
                Some(p) => Some(roster[p]),
                None => None,
            },
            outstanding: (roster.len() - finished(moves).len()) as nat,
            expired: false,
        }),
    decreases moves.len(),
{
    let n = roster.len();
    if moves.len() > 0 {
        let before = moves.drop_last();
        lemma_race_follows_schedule(roster, confirming, before);
        assert(events_of(roster, moves).drop_last() =~= events_of(roster, before));
        assert(events_of(roster, moves).last() == moves.last().event(roster));
        // The probe that moves has not returned yet, so the countdown is
        // above zero: its report is taken, and its return is counted.
        lemma_count_of_places(n, finished(before));
        assert(race_after(roster, before).outstanding > 0);
        lemma_count_of_places(n, finished(moves));
        assert forall|q: int| reported(moves).contains(q) implies first_reporter(moves) is Some by {
            if reported(before).contains(q) {
                assert(first_reporter(before) is Some);
            }
        }
        assert forall|q: int| finished(moves).contains(q) && confirming.contains(q)
            implies reported(moves).contains(q) by {
            if finished(before).contains(q) {
                assert(reported(before).contains(q));
            }
        }
    }
}

/// Where no probe confirms, the race resolves to `Unknown`, and not before
/// every probe has returned: until then it is pending.
pub proof fn law_no_match_resolves_to_unknown(roster: Seq<ProviderId>, moves: Seq<Move>)
    requires
        admissible(roster.len(), Set::empty(), moves),
    ensures
        race_after(roster, moves).verdict() == if all_finished(roster.len(), moves) {
            Verdict::Resolved(ProviderId::Unknown)
        } else {
            Verdict::Pending
        },
        detection(roster.len(), events_of(roster, moves)) == ProviderId::Unknown,
{
    lemma_race_follows_schedule(roster, Set::empty(), moves);
    lemma_count_of_places(roster.len(), finished(moves));
}

/// Where exactly one probe confirms and every probe has returned, the race
/// resolves to that probe's identity, whatever its place in the roster and
/// whatever the order of the moves.
pub proof fn law_single_match_wins(roster: Seq<ProviderId>, winner: int, moves: Seq<Move>)
    requires
        0 <= winner < roster.len(),
        admissible(roster.len(), set![winner], moves),
        all_finished(roster.len(), moves),
    ensures
        race_after(roster, moves).verdict() == Verdict::Resolved(roster[winner]),
        detection(roster.len(), events_of(roster, moves)) == roster[winner],
{
    lemma_race_follows_schedule(roster, set![winner], moves);
    assert(set![winner].contains(winner));
    assert(finished(moves).contains(winner));
    assert(reported(moves).contains(winner));
}

/// The first report wins. Once a probe has reported, the race stands resolved
/// to the identity of the probe that reported first, which is one of those
/// that confirmed and never `Unknown`. Until a probe reports, the race is
/// pending, or resolved to `Unknown` if every probe has returned.
pub proof fn law_first_report_wins(
    roster: Seq<ProviderId>,
    confirming: Set<int>,
    moves: Seq<Move>,
)
    requires
        valid_roster(roster),
        admissible(roster.len(), confirming, moves),
    ensures
        match first_reporter(moves) {
            Some(p) => {
                &&& 0 <= p < roster.len()
                &&& confirming.contains(p)
                &&& roster[p] != ProviderId::Unknown
                &&& race_after(roster, moves).verdict() == Verdict::Resolved(roster[p])
            },
            None => race_after(roster, moves).verdict() == if all_finished(roster.len(), moves) {
                Verdict::Resolved(ProviderId::Unknown)
            } else {
                Verdict::Pending
            },
        },
{
    lemma_race_follows_schedule(roster, confirming, moves);
    lemma_count_of_places(roster.len(), finished(moves));
    if let Some(p) = first_reporter(moves) {
        assert(roster.contains(roster[p]));
    }
}

/// Where at least one probe confirms and every probe has returned, the race
/// is resolved to the identity of a probe that confirmed, never to `Unknown`.
pub proof fn law_some_match_is_never_unknown(
    roster: Seq<ProviderId>,
    confirming: Set<int>,
    moves: Seq<Move>,
)
    requires
        valid_roster(roster),
        admissible(roster.len(), confirming, moves),
        all_finished(roster.len(), moves),
        exists|p: int| 0 <= p < roster.len() && confirming.contains(p),
    ensures
        first_reporter(moves) is Some,
        confirming.contains(first_reporter(moves)->0),
        detection(roster.len(), events_of(roster, moves)) == roster[first_reporter(moves)->0],
        detection(roster.len(), events_of(roster, moves)) != ProviderId::Unknown,
{
    lemma_race_follows_schedule(roster, confirming, moves);
    let q = choose|q: int| 0 <= q < roster.len() && confirming.contains(q);
    assert(finished(moves).contains(q));
    assert(reported(moves).contains(q));
    law_first_report_wins(roster, confirming, moves);
}

/// A race cannot stall: once every probe has returned, whatever each of them
/// found, the countdown is at zero and the race is resolved.
pub proof fn law_race_ends_with_its_probes(
    roster: Seq<ProviderId>,
    confirming: Set<int>,
    moves: Seq<Move>,
)
    requires
        admissible(roster.len(), confirming, moves),
        all_finished(roster.len(), moves),
    ensures
        race_after(roster, moves).complete(),
        race_after(roster, moves).verdict() is Resolved,
{
    lemma_race_follows_schedule(roster, confirming, moves);
    lemma_count_of_places(roster.len(), finished(moves));
}

} // verus!
