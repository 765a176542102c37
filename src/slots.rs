//! The slot generator: candidate intervals for a day from its rules.
use vstd::prelude::*;
use crate::clock::{CalendarDay, UNIX_EPOCH_JULIAN_DAY, midnight_of_julian};
use crate::interval::CandidateSlot;
use crate::schedule::OperatingHourRule;
use crate::zone::{local_to_utc, spec_local_to_utc};

verus! {

/// The walk through a rule's window advances by this many seconds.
pub const SLOT_STEP_SECS: i64 = 1800;

/// Service length, in minutes, when the service does not set one.
pub const DEFAULT_DURATION_MINUTES: i32 = 30;

/// The candidate that starts at the reading `t` of `zone`'s clock and lasts
/// `dur` seconds, if both of its bounds stand for an instant.
pub open spec fn candidate_at(zone: Seq<char>, t: int, dur: int) -> Seq<CandidateSlot> {
    match (spec_local_to_utc(zone, t as i64), spec_local_to_utc(zone, (t + dur) as i64)) {
        (Ok(s), Ok(e)) => seq![
            CandidateSlot { local_start: t as i64, local_end: (t + dur) as i64, start: s, end: e },
        ],
        _ => Seq::empty(),
    }
}

/// The candidates of a walk that is at the reading `t` and must end by the
/// reading `close`.
pub open spec fn walk(zone: Seq<char>, t: int, close: int, dur: int) -> Seq<CandidateSlot>
    decreases close - dur - t + SLOT_STEP_SECS,
{
    if t + dur > close {
        Seq::empty()
    } else {
        candidate_at(zone, t, dur) + walk(zone, t + SLOT_STEP_SECS, close, dur)
    }
}

/// The candidates of one rule on the day that starts at the reading `midnight`.
pub open spec fn rule_candidates(rule: OperatingHourRule, midnight: int, dur: int) -> Seq<
    CandidateSlot,
> {
    walk(rule.time_zone@, midnight + rule.open_time, midnight + rule.close_time, dur)
}

/// The candidates of all rules, rule by rule in their order.
pub open spec fn candidates_of(rules: Seq<OperatingHourRule>, midnight: int, dur: int) -> Seq<
    CandidateSlot,
>
    decreases rules.len(),
{
    if rules.len() == 0 {
        Seq::empty()
    } else {
        candidates_of(rules.drop_last(), midnight, dur) + rule_candidates(rules.last(), midnight, dur)
    }
}

/// Service length in minutes, the default standing in for an unset one.
pub open spec fn duration_or_default(duration_minutes: Option<i32>) -> i32 {
    match duration_minutes {
        Some(m) => m,
        None => DEFAULT_DURATION_MINUTES,
    }
}

/// The length of a service in minutes, the default when it sets none.
pub fn service_duration(duration_minutes: Option<i32>) -> (r: i32)
    ensures
        r == duration_or_default(duration_minutes),
{
    match duration_minutes {
        Some(m) => m,
        None => DEFAULT_DURATION_MINUTES,
    }
}

pub(crate) proof fn lemma_midnight_bounds(j: i32)
    ensures
        -200_000_000_000_000 < midnight_of_julian(j as int) < 200_000_000_000_000,
{
    let d = j as int - UNIX_EPOCH_JULIAN_DAY as int;
    assert(-2_200_000_000 < d < 2_200_000_000);
    assert(-200_000_000_000_000 < d * 86400 < 200_000_000_000_000) by (nonlinear_arith)
        requires
            -2_200_000_000 < d < 2_200_000_000,
    ;
}

/// Appends to `out` the candidates of `rule` on `day`.
fn push_rule_candidates(
    day: &CalendarDay,
    rule: &OperatingHourRule,
    duration_minutes: i32,
    out: &mut Vec<CandidateSlot>,
)
    ensures
        final(out)@ == old(out)@ + rule_candidates(
            *rule,
            midnight_of_julian(day.julian_day as int),
            duration_minutes as int * 60,
        ),
{
    proof {
        lemma_midnight_bounds(day.julian_day);
    }
    let midnight = day.midnight();
    let dur: i64 = duration_minutes as i64 * 60;
    let close: i64 = midnight + rule.close_time as i64;
    let first: i64 = midnight + rule.open_time as i64;
    let mut t: i64 = first;
    let ghost zone = rule.time_zone@;
    let ghost before = out@;
    while t + dur <= close
        invariant
            -200_000_000_000_000 < midnight < 200_000_000_000_000,
            -200_000_000_000 < dur < 200_000_000_000,
            close == midnight + rule.close_time,
            first == midnight + rule.open_time,
            zone == rule.time_zone@,
            t == first || (first < t <= close - dur + SLOT_STEP_SECS),
            out@ + walk(zone, t as int, close as int, dur as int) == before + walk(
                zone,
                first as int,
                close as int,
                dur as int,
            ),
        decreases close - dur - t + SLOT_STEP_SECS,
    {
        let end: i64 = t + dur;
        let ghost prev = out@;
        assert(walk(zone, t as int, close as int, dur as int) == candidate_at(
            zone,
            t as int,
            dur as int,
        ) + walk(zone, t + SLOT_STEP_SECS, close as int, dur as int));
        match (local_to_utc(t, &rule.time_zone), local_to_utc(end, &rule.time_zone)) {
            (Ok(s), Ok(e)) => {
                out.push(CandidateSlot { local_start: t, local_end: end, start: s, end: e });
            },
            _ => {},
        }
        assert(out@ =~= prev + candidate_at(zone, t as int, dur as int));
        assert(out@ + walk(zone, t + SLOT_STEP_SECS, close as int, dur as int) =~= prev + (
        candidate_at(zone, t as int, dur as int) + walk(
            zone,
            t + SLOT_STEP_SECS,
            close as int,
            dur as int,
        )));
        t = t + SLOT_STEP_SECS;
    }
    assert(out@ + walk(zone, t as int, close as int, dur as int) =~= out@);
}

/// Candidate slots for `day`: for each rule in order, a walk from its opening
/// in steps of `SLOT_STEP_SECS`, one candidate for each start whose service
/// of `duration_minutes` ends by closing and whose bounds convert to UTC in
/// the rule's zone.
pub fn generate_candidates(
    day: &CalendarDay,
    rules: &Vec<OperatingHourRule>,
    duration_minutes: i32,
) -> (r: Vec<CandidateSlot>)
    ensures
        r@ == candidates_of(
            rules@,
            midnight_of_julian(day.julian_day as int),
            duration_minutes as int * 60,
        ),
{
    let ghost midnight = midnight_of_julian(day.julian_day as int);
    let ghost dur = duration_minutes as int * 60;
    let mut out: Vec<CandidateSlot> = Vec::new();
    let mut i: usize = 0;
    while i < rules.len()
        invariant
            i <= rules@.len(),
            midnight == midnight_of_julian(day.julian_day as int),
            dur == duration_minutes as int * 60,
            out@ == candidates_of(rules@.subrange(0, i as int), midnight, dur),
        decreases rules@.len() - i,
    {
        let ghost prev = out@;
        let rule = &rules[i];
        push_rule_candidates(day, rule, duration_minutes, &mut out);

        let ghost upto = rules@.subrange(0, i + 1);
        assert(upto.drop_last() =~= rules@.subrange(0, i as int));
        assert(upto.last() == rules@[i as int]);
        assert(candidates_of(upto, midnight, dur) == candidates_of(upto.drop_last(), midnight, dur)
            + rule_candidates(upto.last(), midnight, dur));
        i = i + 1;
    }
    assert(rules@.subrange(0, rules@.len() as int) =~= rules@);
    out
}

} // verus!
