//! The availability query: busy set, free-slot filter, and the answer.
use vstd::prelude::*;
use crate::calendar::{FreeBusyCalendar, FreeBusyTime};
use crate::clock::{
    CalendarDay, SECS_PER_DAY, instant_of_rfc3339, julian_day_of_text, midnight_of_julian,
    parse_calendar_day, parse_instant, rfc3339_of_instant, format_instant,
};
use crate::interval::{BusyInterval, CandidateSlot, clashes, clashes_with_any};
use crate::model::{ApiResponse, Appointment, TimeSlot};
use crate::schedule::OperatingHourRule;
use crate::slots::{candidates_of, duration_or_default, generate_candidates, service_duration};
use crate::zone::{is_known_zone, local_to_utc, spec_local_to_utc, zone_is_known};

verus! {

/// The busy interval an appointment occupies.
pub open spec fn appointment_interval(a: Appointment) -> BusyInterval {
    BusyInterval { start: a.appointment_start_time, end: a.appointment_end_time }
}

/// The busy intervals of local appointments, in their order.
pub open spec fn appointment_busy(appointments: Seq<Appointment>) -> Seq<BusyInterval>
    decreases appointments.len(),
{
    if appointments.len() == 0 {
        Seq::empty()
    } else {
        appointment_busy(appointments.drop_last()).push(
            appointment_interval(appointments.last()),
        )
    }
}

/// The interval of a remote busy block, if both of its ends parse.
pub open spec fn remote_interval(block: FreeBusyTime) -> Seq<BusyInterval> {
    match (instant_of_rfc3339(block.start@), instant_of_rfc3339(block.end@)) {
        (Some(s), Some(e)) => seq![BusyInterval { start: s, end: e }],
        _ => Seq::empty(),
    }
}

/// The intervals of remote busy blocks, in their order, leaving out each
/// block that does not parse.
pub open spec fn remote_busy(blocks: Seq<FreeBusyTime>) -> Seq<BusyInterval>
    decreases blocks.len(),
{
    if blocks.len() == 0 {
        Seq::empty()
    } else {
        remote_busy(blocks.drop_last()) + remote_interval(blocks.last())
    }
}

/// Local intervals first, then the remote ones, if the remote calendar
/// answered.
pub open spec fn busy_set(
    appointments: Seq<Appointment>,
    remote: Option<FreeBusyCalendar>,
) -> Seq<BusyInterval> {
    appointment_busy(appointments) + match remote {
        Some(cal) => remote_busy(cal.busy@),
        None => Seq::empty(),
    }
}

/// The candidates, in their order, that meet no busy interval.
pub open spec fn keep_free(cands: Seq<CandidateSlot>, busy: Seq<BusyInterval>) -> Seq<
    CandidateSlot,
>
    decreases cands.len(),
{
    if cands.len() == 0 {
        Seq::empty()
    } else {
        let rest = keep_free(cands.drop_last(), busy);
        if clashes(busy, cands.last().start as int, cands.last().end as int) {
            rest
        } else {
            rest.push(cands.last())
        }
    }
}

/// Merges local appointments and the remote calendar's busy blocks into one
/// unmerged list of busy intervals. `remote` is `None` when the calendar
/// could not be asked; a block whose ends do not parse is left out.
pub fn collect_busy(appointments: &Vec<Appointment>, remote: Option<&FreeBusyCalendar>) -> (r: Vec<
    BusyInterval,
>)
    ensures
        r@ == busy_set(
            appointments@,
            match remote {
                Some(c) => Some(*c),
                None => None,
            },
        ),
{
    let mut out: Vec<BusyInterval> = Vec::new();
    let mut i: usize = 0;
    while i < appointments.len()
        invariant
            i <= appointments@.len(),
            out@ == appointment_busy(appointments@.subrange(0, i as int)),
        decreases appointments@.len() - i,
    {
        let a = &appointments[i];
        out.push(BusyInterval { start: a.appointment_start_time, end: a.appointment_end_time });
        let ghost upto = appointments@.subrange(0, i + 1);
        assert(upto.drop_last() =~= appointments@.subrange(0, i as int));
        i = i + 1;
    }
    assert(appointments@.subrange(0, appointments@.len() as int) =~= appointments@);
    let ghost local = out@;
    match remote {
        Some(cal) => {
            let mut j: usize = 0;
            while j < cal.busy.len()
                invariant
                    j <= cal.busy@.len(),
                    local == appointment_busy(appointments@),
                    out@ == local + remote_busy(cal.busy@.subrange(0, j as int)),
                decreases cal.busy@.len() - j,
            {
                let block = &cal.busy[j];
                let ghost prev = out@;
                match (parse_instant(block.start.as_str()), parse_instant(block.end.as_str())) {
                    (Some(s), Some(e)) => {
                        out.push(BusyInterval { start: s, end: e });
                    },
                    _ => {},
                }
                let ghost upto = cal.busy@.subrange(0, j + 1);
                assert(upto.drop_last() =~= cal.busy@.subrange(0, j as int));
                assert(out@ =~= local + remote_busy(upto));
                j = j + 1;
            }
            assert(cal.busy@.subrange(0, cal.busy@.len() as int) =~= cal.busy@);
        },
        None => {
            assert(out@ =~= local + Seq::<BusyInterval>::empty());
        },
    }
    out
}

/// The candidates, in their order, that intersect no busy interval under the
/// half-open overlap test.
pub fn filter_free(cands: &Vec<CandidateSlot>, busy: &Vec<BusyInterval>) -> (r: Vec<CandidateSlot>)
    ensures
        r@ == keep_free(cands@, busy@),
{
    let mut out: Vec<CandidateSlot> = Vec::new();
    let mut i: usize = 0;
    while i < cands.len()
        invariant
            i <= cands@.len(),
            out@ == keep_free(cands@.subrange(0, i as int), busy@),
        decreases cands@.len() - i,
    {
        let c = cands[i];
        if !clashes_with_any(busy, c.start, c.end) {
            out.push(c);
        }
        let ghost upto = cands@.subrange(0, i + 1);
        assert(upto.drop_last() =~= cands@.subrange(0, i as int));
        i = i + 1;
    }
    assert(cands@.subrange(0, cands@.len() as int) =~= cands@);
    out
}

/// Why an availability query failed.
#[derive(Clone, Copy, Debug, PartialEq, Eq, Structural)]
pub enum AvailabilityError {
    /// The date is not of the form `YYYY-MM-DD`.
    InvalidDate,
    /// No service has the requested id.
    ServiceNotFound,
    /// A rule of the day names a zone the zone database does not know.
    InvalidTimeZone,
    /// A bound of the day has no UTC instant in the business's zone.
    UnresolvedDay,
    /// A slot's instants cannot be written in RFC 3339 form.
    Unformattable,
}

pub open spec fn availability_status(e: AvailabilityError) -> u16 {
    match e {
        AvailabilityError::InvalidDate => 400,
        AvailabilityError::ServiceNotFound => 400,
        AvailabilityError::InvalidTimeZone => 400,
        AvailabilityError::UnresolvedDay => 400,
        AvailabilityError::Unformattable => 500,
    }
}

pub open spec fn availability_message(e: AvailabilityError) -> Seq<char> {
    match e {
        AvailabilityError::InvalidDate => "Invalid date format (YYYY-MM-DD)"@,
        AvailabilityError::ServiceNotFound => "Service not found."@,
        AvailabilityError::InvalidTimeZone => "Invalid time zone in operating hours."@,
        AvailabilityError::UnresolvedDay => "The day has no UTC bounds in the business time zone."@,
        AvailabilityError::Unformattable => "Slot times cannot be written as RFC 3339."@,
    }
}

impl AvailabilityError {
    /// The HTTP status the error is reported with.
    pub fn status_code(&self) -> (r: u16)
        ensures
            r == availability_status(*self),
    {
        match self {
            AvailabilityError::InvalidDate => 400,
            AvailabilityError::ServiceNotFound => 400,
            AvailabilityError::InvalidTimeZone => 400,
            AvailabilityError::UnresolvedDay => 400,
            AvailabilityError::Unformattable => 500,
        }
    }

    /// The message the error is reported with.
    pub fn message(&self) -> (r: String)
        ensures
            r@ == availability_message(*self),
    {
        match self {
            AvailabilityError::InvalidDate => String::from_str("Invalid date format (YYYY-MM-DD)"),
            AvailabilityError::ServiceNotFound => String::from_str("Service not found."),
            AvailabilityError::InvalidTimeZone => String::from_str(
                "Invalid time zone in operating hours.",
            ),
            AvailabilityError::UnresolvedDay => String::from_str(
                "The day has no UTC bounds in the business time zone.",
            ),
            AvailabilityError::Unformattable => String::from_str(
                "Slot times cannot be written as RFC 3339.",
            ),
        }
    }
}

/// The date an availability query is for.
pub fn query_day(date: &str) -> (r: Result<CalendarDay, AvailabilityError>)
    ensures
        match julian_day_of_text(date@) {
            Some(j) => r == Ok::<CalendarDay, AvailabilityError>(CalendarDay { julian_day: j }),
            None => r == Err::<CalendarDay, AvailabilityError>(AvailabilityError::InvalidDate),
        },
{
    match parse_calendar_day(date) {
        Some(day) => Ok(day),
        None => Err(AvailabilityError::InvalidDate),
    }
}

/// A UTC window `[start, end)`.
#[derive(Clone, Copy, Debug, PartialEq, Eq, Structural)]
pub struct UtcWindow {
    pub start: i64,
    pub end: i64,
}

/// Whether every rule names a known zone.
pub open spec fn all_zones_known(rules: Seq<OperatingHourRule>) -> bool {
    forall|i: int| 0 <= i < rules.len() ==> #[trigger] is_known_zone(rules[i].time_zone@)
}

/// The UTC window of the local day that starts at the reading `midnight`,
/// in the zone `zone`.
pub open spec fn spec_day_window(zone: Seq<char>, midnight: int) -> Result<
    UtcWindow,
    AvailabilityError,
> {
    match (
        spec_local_to_utc(zone, midnight as i64),
        spec_local_to_utc(zone, (midnight + SECS_PER_DAY) as i64),
    ) {
        (Ok(s), Ok(e)) => Ok(UtcWindow { start: s, end: e }),
        _ => Err(AvailabilityError::UnresolvedDay),
    }
}

/// What the window step of a query answers: none on a closed day, else the
/// day's window in the zone of the first rule.
pub open spec fn spec_availability_window(day: CalendarDay, rules: Seq<OperatingHourRule>) -> Result<
    Option<UtcWindow>,
    AvailabilityError,
> {
    if rules.len() == 0 {
        Ok(None)
    } else if !all_zones_known(rules) {
        Err(AvailabilityError::InvalidTimeZone)
    } else {
        match spec_day_window(rules[0].time_zone@, midnight_of_julian(day.julian_day as int)) {
            Ok(w) => Ok(Some(w)),
            Err(e) => Err(e),
        }
    }
}

/// Whether every rule's zone is known; stops at the first that is not.
pub fn zones_known(rules: &Vec<OperatingHourRule>) -> (r: bool)
    ensures
        r == all_zones_known(rules@),
{
    let mut i: usize = 0;
    while i < rules.len()
        invariant
            i <= rules@.len(),
            forall|k: int| 0 <= k < i ==> #[trigger] is_known_zone(rules@[k].time_zone@),
        decreases rules@.len() - i,
    {
        if !zone_is_known(rules[i].time_zone.as_str()) {
            return false;
        }
        i = i + 1;
    }
    true
}

/// The UTC window `[local midnight, next local midnight)` over which busy
/// periods are gathered for `day`, in the zone of the first of the day's
/// rules; `None` when there are no rules, as the business is closed.
pub fn availability_window(day: &CalendarDay, rules: &Vec<OperatingHourRule>) -> (r: Result<
    Option<UtcWindow>,
    AvailabilityError,
>)
    ensures
        r == spec_availability_window(*day, rules@),
{
    if rules.len() == 0 {
        return Ok(None);
    }
    if !zones_known(rules) {
        return Err(AvailabilityError::InvalidTimeZone);
    }
    let zone = rules[0].time_zone.as_str();
    let midnight = day.midnight();
    assert(-200_000_000_000_000 < midnight < 200_000_000_000_000) by {
        crate::slots::lemma_midnight_bounds(day.julian_day);
    }
    match (local_to_utc(midnight, zone), local_to_utc(midnight + SECS_PER_DAY, zone)) {
        (Ok(s), Ok(e)) => Ok(Some(UtcWindow { start: s, end: e })),
        _ => Err(AvailabilityError::UnresolvedDay),
    }
}

/// Whether both ends of every slot can be written in RFC 3339 form.
pub open spec fn renderable(slots: Seq<CandidateSlot>) -> bool {
    forall|i: int|
        0 <= i < slots.len() ==> (#[trigger] rfc3339_of_instant(slots[i].start)) is Some
            && rfc3339_of_instant(slots[i].end) is Some
}

/// Whether `shown` writes out `slots`, one for one, in RFC 3339 form.
pub open spec fn renders_as(shown: Seq<TimeSlot>, slots: Seq<CandidateSlot>) -> bool {
    &&& shown.len() == slots.len()
    &&& forall|i: int|
        0 <= i < slots.len() ==> rfc3339_of_instant(#[trigger] slots[i].start) == Some(
            shown[i].start_time@,
        ) && rfc3339_of_instant(slots[i].end) == Some(shown[i].end_time@)
}

/// The slots, in their order, with both ends written in RFC 3339 form; none
/// if an end cannot be written.
pub fn render_slots(slots: &Vec<CandidateSlot>) -> (r: Option<Vec<TimeSlot>>)
    ensures
        r is Some <==> renderable(slots@),
        r matches Some(shown) ==> renders_as(shown@, slots@),
{
    let mut out: Vec<TimeSlot> = Vec::new();
    let mut i: usize = 0;
    while i < slots.len()
        invariant
            i <= slots@.len(),
            renders_as(out@, slots@.subrange(0, i as int)),
            renderable(slots@.subrange(0, i as int)),
        decreases slots@.len() - i,
    {
        let c = slots[i];
        let start_time = match format_instant(c.start) {
            Some(text) => text,
            None => {
                assert(!renderable(slots@)) by {
                    assert(rfc3339_of_instant(slots@[i as int].start) is None);
                }
                return None;
            },
        };
        let end_time = match format_instant(c.end) {
            Some(text) => text,
            None => {
                assert(!renderable(slots@)) by {
                    assert(rfc3339_of_instant(slots@[i as int].end) is None);
                }
                return None;
            },
        };
        let ghost prev = out@;
        out.push(TimeSlot { start_time, end_time });
        assert(renders_as(out@, slots@.subrange(0, i + 1))) by {
            assert forall|k: int| 0 <= k < i + 1 implies rfc3339_of_instant(
                #[trigger] slots@.subrange(0, i + 1)[k].start,
            ) == Some(out@[k].start_time@) && rfc3339_of_instant(
                slots@.subrange(0, i + 1)[k].end,
            ) == Some(out@[k].end_time@) by {
                if k < i {
                    assert(slots@.subrange(0, i + 1)[k] == slots@.subrange(0, i as int)[k]);
                }
            }
        }
        assert(renderable(slots@.subrange(0, i + 1))) by {
            assert forall|k: int| 0 <= k < i + 1 implies (#[trigger] rfc3339_of_instant(
                slots@.subrange(0, i + 1)[k].start,
            )) is Some && rfc3339_of_instant(slots@.subrange(0, i + 1)[k].end) is Some by {
                if k < i {
                    assert(slots@.subrange(0, i + 1)[k] == slots@.subrange(0, i as int)[k]);
                }
            }
        }
        i = i + 1;
    }
    assert(slots@.subrange(0, slots@.len() as int) =~= slots@);
    Some(out)
}

/// The free candidates of a day, before they are written out.
pub open spec fn free_slots(
    day: CalendarDay,
    rules: Seq<OperatingHourRule>,
    duration_minutes: Option<i32>,
    busy: Seq<BusyInterval>,
) -> Seq<CandidateSlot> {
    keep_free(
        candidates_of(
            rules,
            midnight_of_julian(day.julian_day as int),
            duration_or_default(duration_minutes) as int * 60,
        ),
        busy,
    )
}

/// The message that accompanies the empty list of a closed day.
pub open spec fn closed_day_message() -> Seq<char> {
    "Closed this day"@
}

/// A successful answer with an empty list and the closed-day message.
pub open spec fn is_closed_day_answer(r: Result<ApiResponse<Vec<TimeSlot>>, AvailabilityError>) -> bool {
    match r {
        Ok(resp) => {
            &&& resp.success
            &&& match resp.data {
                Some(v) => v@.len() == 0,
                None => false,
            }
            &&& match resp.message {
                Some(m) => m@ == closed_day_message(),
                None => false,
            }
        },
        Err(_) => false,
    }
}

/// A successful answer, with no message, that lists `free` in RFC 3339 form.
pub open spec fn is_slots_answer(
    r: Result<ApiResponse<Vec<TimeSlot>>, AvailabilityError>,
    free: Seq<CandidateSlot>,
) -> bool {
    match r {
        Ok(resp) => {
            &&& resp.success
            &&& resp.message is None
            &&& match resp.data {
                Some(v) => renders_as(v@, free),
                None => false,
            }
        },
        Err(_) => false,
    }
}

/// The free slots of `day` for a service of `duration_minutes` (the default
/// when unset), given the day's rules and the busy intervals of its window.
/// A day with no rules is closed: success with an empty list. A rule whose
/// zone is unknown fails the query. Otherwise every candidate of the rules
/// that meets no busy interval is reported, in generation order.
pub fn answer_availability(
    day: &CalendarDay,
    rules: &Vec<OperatingHourRule>,
    duration_minutes: Option<i32>,
    busy: &Vec<BusyInterval>,
) -> (r: Result<ApiResponse<Vec<TimeSlot>>, AvailabilityError>)
    ensures
        rules@.len() == 0 ==> is_closed_day_answer(r),
        rules@.len() > 0 && !all_zones_known(rules@) ==> r == Err::<
            ApiResponse<Vec<TimeSlot>>,
            AvailabilityError,
        >(AvailabilityError::InvalidTimeZone),
        rules@.len() > 0 && all_zones_known(rules@) ==> {
            let free = free_slots(*day, rules@, duration_minutes, busy@);
            &&& renderable(free) ==> is_slots_answer(r, free)
            &&& !renderable(free) ==> r == Err::<
                ApiResponse<Vec<TimeSlot>>,
                AvailabilityError,
            >(AvailabilityError::Unformattable)
        },
{
    if rules.len() == 0 {
        return Ok(
            ApiResponse {
                success: true,
                data: Some(Vec::new()),
                message: Some(String::from_str("Closed this day")),
            },
        );
    }
    if !zones_known(rules) {
        return Err(AvailabilityError::InvalidTimeZone);
    }
    let duration = service_duration(duration_minutes);
    let cands = generate_candidates(day, rules, duration);
    let free = filter_free(&cands, busy);
    match render_slots(&free) {
        Some(shown) => Ok(ApiResponse { success: true, data: Some(shown), message: None }),
        None => Err(AvailabilityError::Unformattable),
    }
}

} // verus!
