//! What holds of every availability query.
use vstd::prelude::*;
use crate::availability::{free_slots, keep_free};
use crate::clock::{CalendarDay, midnight_of_julian};
use crate::interval::{BusyInterval, CandidateSlot, clashes, overlaps};
use crate::schedule::OperatingHourRule;
use crate::slots::{SLOT_STEP_SECS, candidate_at, candidates_of, rule_candidates, walk};
use crate::booking::{
    ActionKind, Booking, BookingError, BookingEvent, BookingPhase, hours_check, is_finished,
    end_in_start_day, next_action, phase_status, some_window_holds, spec_next, time_of_day,
};
use crate::model::{Appointment, Auth};
use crate::zone::{spec_local_to_utc, spec_utc_to_local};

verus! {

/// `c` lies within the window of `rule` on the day that starts at the reading
/// `midnight`, lasts `dur` seconds, and its instants are its readings
/// converted in the rule's zone.
pub open spec fn from_rule(c: CandidateSlot, rule: OperatingHourRule, midnight: int, dur: int) -> bool {
    &&& midnight + rule.open_time <= c.local_start
    &&& c.local_end <= midnight + rule.close_time
    &&& c.local_end == c.local_start + dur
    &&& spec_local_to_utc(rule.time_zone@, c.local_start) == Ok::<i64, crate::zone::ZoneError>(c.start)
    &&& spec_local_to_utc(rule.time_zone@, c.local_end) == Ok::<i64, crate::zone::ZoneError>(c.end)
}

/// `c` comes from one of `rules`.
pub open spec fn from_some_rule(
    c: CandidateSlot,
    rules: Seq<OperatingHourRule>,
    midnight: int,
    dur: int,
) -> bool {
    exists|i: int| 0 <= i < rules.len() && #[trigger] from_rule(c, rules[i], midnight, dur)
}

proof fn lemma_walk_within_rule(rule: OperatingHourRule, midnight: int, dur: int, t: int)
    requires
        -200_000_000_000_000 < midnight < 200_000_000_000_000,
        -200_000_000_000 < dur < 200_000_000_000,
        midnight + rule.open_time <= t,
    ensures
        forall|k: int|
            0 <= k < walk(rule.time_zone@, t, midnight + rule.close_time, dur).len() ==> from_rule(
                #[trigger] walk(rule.time_zone@, t, midnight + rule.close_time, dur)[k],
                rule,
                midnight,
                dur,
            ),
    decreases midnight + rule.close_time - dur - t + SLOT_STEP_SECS,
{
    let zone = rule.time_zone@;
    let close = midnight + rule.close_time;
    if t + dur <= close {
        lemma_walk_within_rule(rule, midnight, dur, t + SLOT_STEP_SECS);
        let head = candidate_at(zone, t, dur);
        let rest = walk(zone, t + SLOT_STEP_SECS, close, dur);
        assert(walk(zone, t, close, dur) == head + rest);
        assert forall|k: int| 0 <= k < (head + rest).len() implies from_rule(
            #[trigger] (head + rest)[k],
            rule,
            midnight,
            dur,
        ) by {
            if k >= head.len() {
                assert((head + rest)[k] == rest[k - head.len()]);
            }
        }
    }
}

proof fn lemma_candidates_within_rules(rules: Seq<OperatingHourRule>, midnight: int, dur: int)
    requires
        -200_000_000_000_000 < midnight < 200_000_000_000_000,
        -200_000_000_000 < dur < 200_000_000_000,
    ensures
        forall|k: int|
            0 <= k < candidates_of(rules, midnight, dur).len() ==> from_some_rule(
                #[trigger] candidates_of(rules, midnight, dur)[k],
                rules,
                midnight,
                dur,
            ),
    decreases rules.len(),
{
    if rules.len() > 0 {
        let init = rules.drop_last();
        let last = rules.last();
        lemma_candidates_within_rules(init, midnight, dur);
        lemma_walk_within_rule(last, midnight, dur, midnight + last.open_time);
        let before = candidates_of(init, midnight, dur);
        let mine = rule_candidates(last, midnight, dur);
        assert(candidates_of(rules, midnight, dur) == before + mine);
        assert forall|k: int| 0 <= k < (before + mine).len() implies from_some_rule(
            #[trigger] (before + mine)[k],
            rules,
            midnight,
            dur,
        ) by {
            if k < before.len() {
                let i = choose|i: int|
                    0 <= i < init.len() && #[trigger] from_rule(before[k], init[i], midnight, dur);
                assert(init[i] == rules[i]);
                assert(from_rule((before + mine)[k], rules[i], midnight, dur));
            } else {
                assert((before + mine)[k] == mine[k - before.len()]);
                assert(rules[rules.len() - 1] == last);
                assert(from_rule((before + mine)[k], rules[rules.len() - 1], midnight, dur));
            }
        }
    }
}

/// Every candidate the slot generator produces for a day lies within the
/// window of a rule of that day: it starts no earlier than the rule opens,
/// ends no later than it closes, lasts the service's length, and its UTC
/// bounds are its wall-clock bounds converted in the rule's zone.
pub proof fn lemma_slots_within_operating_hours(
    day: CalendarDay,
    rules: Seq<OperatingHourRule>,
    duration_minutes: i32,
)
    ensures
        forall|k: int|
            0 <= k < candidates_of(
                rules,
                midnight_of_julian(day.julian_day as int),
                duration_minutes as int * 60,
            ).len() ==> from_some_rule(
                #[trigger] candidates_of(
                    rules,
                    midnight_of_julian(day.julian_day as int),
                    duration_minutes as int * 60,
                )[k],
                rules,
                midnight_of_julian(day.julian_day as int),
                duration_minutes as int * 60,
            ),
{
    crate::slots::lemma_midnight_bounds(day.julian_day);
    lemma_candidates_within_rules(
        rules,
        midnight_of_julian(day.julian_day as int),
        duration_minutes as int * 60,
    );
}

/// No slot left by the free-slot filter intersects any busy interval under
/// the half-open overlap test.
pub proof fn lemma_free_slots_avoid_busy(cands: Seq<CandidateSlot>, busy: Seq<BusyInterval>)
    ensures
        forall|j: int|
            0 <= j < keep_free(cands, busy).len() ==> !clashes(
                busy,
                #[trigger] keep_free(cands, busy)[j].start as int,
                keep_free(cands, busy)[j].end as int,
            ),
    decreases cands.len(),
{
    if cands.len() > 0 {
        let init = cands.drop_last();
        lemma_free_slots_avoid_busy(init, busy);
        let rest = keep_free(init, busy);
        let last = cands.last();
        if !clashes(busy, last.start as int, last.end as int) {
            assert(keep_free(cands, busy) == rest.push(last));
            assert forall|j: int| 0 <= j < rest.push(last).len() implies !clashes(
                busy,
                #[trigger] rest.push(last)[j].start as int,
                rest.push(last)[j].end as int,
            ) by {
                if j < rest.len() {
                    assert(rest.push(last)[j] == rest[j]);
                }
            }
        }
    }
}

/// The filter keeps exactly the candidates that meet no busy interval: a
/// candidate is dropped only when it intersects one.
pub proof fn lemma_free_slots_keep_the_rest(cands: Seq<CandidateSlot>, busy: Seq<BusyInterval>)
    ensures
        forall|c: CandidateSlot|
            #[trigger] keep_free(cands, busy).contains(c) <==> cands.contains(c) && !clashes(
                busy,
                c.start as int,
                c.end as int,
            ),
    decreases cands.len(),
{
    if cands.len() > 0 {
        let init = cands.drop_last();
        let last = cands.last();
        lemma_free_slots_keep_the_rest(init, busy);
        let rest = keep_free(init, busy);
        assert(cands =~= init.push(last));
        assert forall|c: CandidateSlot| #[trigger] init.push(last).contains(c) <==> (init.contains(c)
            || c == last) by {
            if init.push(last).contains(c) {
                let i = choose|i: int| 0 <= i < init.len() + 1 && init.push(last)[i] == c;
                if i < init.len() {
                    assert(init[i] == c);
                }
            }
            if init.contains(c) {
                let i = choose|i: int| 0 <= i < init.len() && init[i] == c;
                assert(init.push(last)[i] == c);
            }
            if c == last {
                assert(init.push(last)[init.len() as int] == c);
            }
        }
        assert forall|c: CandidateSlot| #[trigger] rest.push(last).contains(c) <==> (rest.contains(c)
            || c == last) by {
            if rest.push(last).contains(c) {
                let i = choose|i: int| 0 <= i < rest.len() + 1 && rest.push(last)[i] == c;
                if i < rest.len() {
                    assert(rest[i] == c);
                }
            }
            if rest.contains(c) {
                let i = choose|i: int| 0 <= i < rest.len() && rest[i] == c;
                assert(rest.push(last)[i] == c);
            }
            if c == last {
                assert(rest.push(last)[rest.len() as int] == c);
            }
        }
        if clashes(busy, last.start as int, last.end as int) {
            assert(keep_free(cands, busy) == rest);
        } else {
            assert(keep_free(cands, busy) == rest.push(last));
        }
    }
}

proof fn lemma_same_clashes(busy1: Seq<BusyInterval>, busy2: Seq<BusyInterval>, start: int, end: int)
    requires
        busy1.to_set() == busy2.to_set(),
    ensures
        clashes(busy1, start, end) == clashes(busy2, start, end),
{
    if clashes(busy1, start, end) {
        let k = choose|k: int| 0 <= k < busy1.len() && #[trigger] overlaps(busy1[k], start, end);
        assert(busy1.to_set().contains(busy1[k]));
        assert(busy2.contains(busy1[k]));
        let k2 = choose|k2: int| 0 <= k2 < busy2.len() && busy2[k2] == busy1[k];
        assert(overlaps(busy2[k2], start, end));
    }
    if clashes(busy2, start, end) {
        let k = choose|k: int| 0 <= k < busy2.len() && #[trigger] overlaps(busy2[k], start, end);
        assert(busy2.to_set().contains(busy2[k]));
        assert(busy1.contains(busy2[k]));
        let k1 = choose|k1: int| 0 <= k1 < busy1.len() && busy1[k1] == busy2[k];
        assert(overlaps(busy1[k1], start, end));
    }
}

proof fn lemma_keep_free_by_set(cands: Seq<CandidateSlot>, busy1: Seq<BusyInterval>, busy2: Seq<BusyInterval>)
    requires
        busy1.to_set() == busy2.to_set(),
    ensures
        keep_free(cands, busy1) == keep_free(cands, busy2),
    decreases cands.len(),
{
    if cands.len() > 0 {
        lemma_keep_free_by_set(cands.drop_last(), busy1, busy2);
        lemma_same_clashes(busy1, busy2, cands.last().start as int, cands.last().end as int);
    }
}

/// A query repeated over the same day, rules and service, with no booking in
/// between, answers the same free slots: the answer depends only on which
/// busy intervals there are, not on their order or on repeats among them.
pub proof fn lemma_query_repeatable(
    day: CalendarDay,
    rules: Seq<OperatingHourRule>,
    duration_minutes: Option<i32>,
    busy1: Seq<BusyInterval>,
    busy2: Seq<BusyInterval>,
)
    requires
        busy1.to_set() == busy2.to_set(),
    ensures
        free_slots(day, rules, duration_minutes, busy1) == free_slots(
            day,
            rules,
            duration_minutes,
            busy2,
        ),
{
    lemma_keep_free_by_set(
        candidates_of(
            rules,
            midnight_of_julian(day.julian_day as int),
            crate::slots::duration_or_default(duration_minutes) as int * 60,
        ),
        busy1,
        busy2,
    );
}

/// The booking after each of `events` in turn.
pub open spec fn run(b: Booking, events: Seq<BookingEvent>) -> Booking
    decreases events.len(),
{
    if events.len() == 0 {
        b
    } else {
        run(spec_next(b, events[0]), events.drop_first())
    }
}

/// A finished booking stays as it is, whatever events follow.
pub proof fn lemma_finished_booking_stays(b: Booking, events: Seq<BookingEvent>)
    requires
        is_finished(b.phase),
    ensures
        run(b, events) == b,
    decreases events.len(),
{
    if events.len() > 0 {
        lemma_finished_booking_stays(spec_next(b, events[0]), events.drop_first());
    }
}

/// The row is inserted only right after the hours check passed.
pub proof fn lemma_insert_only_after_hours_check(b: Booking, e: BookingEvent)
    requires
        next_action(b, e) == ActionKind::InsertRow,
    ensures
        b.phase == BookingPhase::ActiveChecked,
        e matches BookingEvent::RulesFetched(rules) && hours_check(b, rules@) is Ok,
{
}

/// The transaction is committed only right after the calendar accepted the
/// event, and the booking ends committed only when that commit succeeded.
pub proof fn lemma_commit_only_after_sync(b: Booking, e: BookingEvent)
    ensures
        next_action(b, e) == ActionKind::Commit ==> b.phase == BookingPhase::Syncing && e
            == BookingEvent::EventInserted(true),
        spec_next(b, e).phase == BookingPhase::Committed ==> b.phase == BookingPhase::Committed
            || (b.phase == BookingPhase::CalendarSynced && e == BookingEvent::Committed(true)),
{
}

/// A request whose appointment fits in no window of the rules of its
/// weekday, read on the clock of the first rule's zone from the midnight
/// that starts it, is refused with
/// status 400; the transaction is rolled back before any row was inserted,
/// and no later event brings the booking to a commit.
pub proof fn lemma_outside_hours_not_persisted(
    b: Booking,
    rules: Vec<OperatingHourRule>,
    later: Seq<BookingEvent>,
)
    requires
        b.phase == BookingPhase::ActiveChecked,
        rules@.len() > 0,
        spec_utc_to_local(rules@[0].time_zone@, b.request.appointment_start_time) is Ok,
        spec_utc_to_local(rules@[0].time_zone@, b.end_time) is Ok,
        !some_window_holds(
            rules@,
            time_of_day(
                spec_utc_to_local(rules@[0].time_zone@, b.request.appointment_start_time)->Ok_0,
            ),
            end_in_start_day(
                spec_utc_to_local(rules@[0].time_zone@, b.request.appointment_start_time)->Ok_0,
                spec_utc_to_local(rules@[0].time_zone@, b.end_time)->Ok_0,
            ),
        ),
    ensures
        spec_next(b, BookingEvent::RulesFetched(rules)).phase == BookingPhase::Aborted(
            BookingError::OutsideHours,
        ),
        phase_status(spec_next(b, BookingEvent::RulesFetched(rules)).phase) == Some(400u16),
        next_action(b, BookingEvent::RulesFetched(rules)) == ActionKind::RollbackAndRespond,
        run(spec_next(b, BookingEvent::RulesFetched(rules)), later).phase
            != BookingPhase::Committed,
{
    lemma_finished_booking_stays(spec_next(b, BookingEvent::RulesFetched(rules)), later);
}

/// A booking that has read its business's credential and found no refresh
/// token, and has not finished.
pub open spec fn unconnected(b: Booking) -> bool {
    &&& b.refresh_token is None
    &&& (b.phase == BookingPhase::AuthResolved || b.phase == BookingPhase::ActiveChecked
        || b.phase == BookingPhase::HoursValidated)
}

proof fn lemma_unconnected_never_commits(b: Booking, events: Seq<BookingEvent>)
    requires
        unconnected(b) || (is_finished(b.phase) && b.phase != BookingPhase::Committed),
    ensures
        run(b, events).phase != BookingPhase::Committed,
    decreases events.len(),
{
    if events.len() > 0 {
        lemma_unconnected_never_commits(spec_next(b, events[0]), events.drop_first());
    }
}

/// A business whose credential row holds no refresh token gets no row: once
/// the credential is read, no sequence of events brings the booking to a
/// commit, and when the row has been inserted the transaction is rolled back
/// and the booking answered with status 417.
pub proof fn lemma_no_refresh_token_not_persisted(
    b: Booking,
    row: Appointment,
    events: Seq<BookingEvent>,
)
    requires
        unconnected(b),
    ensures
        run(b, events).phase != BookingPhase::Committed,
        b.phase == BookingPhase::HoursValidated ==> spec_next(
            b,
            BookingEvent::RowInserted(row),
        ).phase == BookingPhase::CalendarSkipped && phase_status(
            spec_next(b, BookingEvent::RowInserted(row)).phase,
        ) == Some(417u16) && next_action(b, BookingEvent::RowInserted(row))
            == ActionKind::RollbackAndRespond,
{
    lemma_unconnected_never_commits(b, events);
}

/// When the calendar refuses the event, the transaction is rolled back, the
/// booking is answered with status 500, and no later event brings it to a
/// commit.
pub proof fn lemma_calendar_refusal_not_persisted(b: Booking, later: Seq<BookingEvent>)
    requires
        b.phase == BookingPhase::Syncing,
    ensures
        spec_next(b, BookingEvent::EventInserted(false)).phase == BookingPhase::Aborted(
            BookingError::CalendarInsert,
        ),
        phase_status(spec_next(b, BookingEvent::EventInserted(false)).phase) == Some(500u16),
        next_action(b, BookingEvent::EventInserted(false)) == ActionKind::RollbackAndRespond,
        run(spec_next(b, BookingEvent::EventInserted(false)), later).phase
            != BookingPhase::Committed,
{
    lemma_finished_booking_stays(spec_next(b, BookingEvent::EventInserted(false)), later);
}

/// Reading a credential row without a refresh token leaves the booking
/// unable to commit, whatever events follow.
pub proof fn lemma_tokenless_credential_not_persisted(
    b: Booking,
    cred: Auth,
    events: Seq<BookingEvent>,
)
    requires
        b.phase == BookingPhase::ServiceResolved,
        cred.refresh_token is None,
    ensures
        unconnected(spec_next(b, BookingEvent::AuthFetched(Some(cred)))),
        run(spec_next(b, BookingEvent::AuthFetched(Some(cred))), events).phase
            != BookingPhase::Committed,
{
    lemma_unconnected_never_commits(spec_next(b, BookingEvent::AuthFetched(Some(cred))), events);
}

/// How far a booking has come; a finished booking is furthest.
pub open spec fn phase_rank(p: BookingPhase) -> int {
    match p {
        BookingPhase::Started => 0,
        BookingPhase::ServiceResolved => 1,
        BookingPhase::AuthResolved => 2,
        BookingPhase::ActiveChecked => 3,
        BookingPhase::HoursValidated => 4,
        BookingPhase::Persisted => 5,
        BookingPhase::Syncing => 6,
        BookingPhase::CalendarSynced => 7,
        _ => 8,
    }
}

/// The actions asked for along the events, in order.
pub open spec fn actions_of(b: Booking, events: Seq<BookingEvent>) -> Seq<ActionKind>
    decreases events.len(),
{
    if events.len() == 0 {
        Seq::empty()
    } else {
        seq![next_action(b, events[0])] + actions_of(spec_next(b, events[0]), events.drop_first())
    }
}

/// The actions with an outside effect that may happen once per booking, and
/// the rank of the phase each leads out of.
pub open spec fn effect_rank(a: ActionKind) -> Option<int> {
    match a {
        ActionKind::RefreshToken => Some(5),
        ActionKind::InsertEvent => Some(6),
        ActionKind::Commit => Some(7),
        _ => None,
    }
}

proof fn lemma_rank_grows(b: Booking, e: BookingEvent)
    ensures
        phase_rank(spec_next(b, e).phase) >= phase_rank(b.phase),
        !is_finished(b.phase) ==> phase_rank(spec_next(b, e).phase) > phase_rank(b.phase),
        next_action(b, e) matches ActionKind::RefreshToken ==> phase_rank(spec_next(b, e).phase)
            == 5 && phase_rank(b.phase) < 5,
        next_action(b, e) matches ActionKind::InsertEvent ==> phase_rank(spec_next(b, e).phase)
            == 6 && phase_rank(b.phase) < 6,
        next_action(b, e) matches ActionKind::Commit ==> phase_rank(spec_next(b, e).phase) == 7
            && phase_rank(b.phase) < 7,
{
}

proof fn lemma_effect_not_repeated(b: Booking, events: Seq<BookingEvent>, a: ActionKind, r: int)
    requires
        effect_rank(a) == Some(r),
        phase_rank(b.phase) >= r,
    ensures
        forall|i: int| 0 <= i < actions_of(b, events).len() ==> actions_of(b, events)[i] != a,
    decreases events.len(),
{
    if events.len() > 0 {
        let e = events[0];
        lemma_rank_grows(b, e);
        lemma_effect_not_repeated(spec_next(b, e), events.drop_first(), a, r);
        let rest = actions_of(spec_next(b, e), events.drop_first());
        assert forall|i: int| 0 <= i < (seq![next_action(b, e)] + rest).len() implies (seq![
            next_action(b, e),
        ] + rest)[i] != a by {
            if i > 0 {
                assert((seq![next_action(b, e)] + rest)[i] == rest[i - 1]);
            }
        }
    }
}

/// Along any events, a booking refreshes the access token at most once,
/// inserts at most one calendar event, and commits at most once.
pub proof fn lemma_side_effects_at_most_once(b: Booking, events: Seq<BookingEvent>)
    ensures
        forall|i: int, j: int|
            0 <= i < j < actions_of(b, events).len() && #[trigger] actions_of(b, events)[i]
                == #[trigger] actions_of(b, events)[j] ==> effect_rank(actions_of(b, events)[i])
                is None,
    decreases events.len(),
{
    if events.len() > 0 {
        let e = events[0];
        let first = next_action(b, e);
        let rest = actions_of(spec_next(b, e), events.drop_first());
        lemma_side_effects_at_most_once(spec_next(b, e), events.drop_first());
        lemma_rank_grows(b, e);
        if let Some(r) = effect_rank(first) {
            lemma_effect_not_repeated(spec_next(b, e), events.drop_first(), first, r);
        }
        let all = seq![first] + rest;
        assert(actions_of(b, events) == all);
        assert forall|i: int, j: int|
            0 <= i < j < all.len() && #[trigger] all[i] == #[trigger] all[j] implies effect_rank(
                all[i],
            ) is None by {
            assert(all[j] == rest[j - 1]);
            if i > 0 {
                assert(all[i] == rest[i - 1]);
            }
        }
    }
}

} // verus!
