//! The booking transaction, as a state machine.
//!
//! The caller opens a store transaction, creates a `Booking`, performs the
//! action it asks for, and hands back what came of it as a `BookingEvent`,
//! until the booking is finished. The row is committed only after the
//! calendar accepted the event; every other path rolls the transaction back.
use vstd::prelude::*;
use crate::calendar::{GoogleCalendarEvent, booking_event, describes_booking};
use crate::clock::{SECS_PER_DAY, rfc3339_of_instant, weekday_at_offset, weekday_of_instant};
use crate::model::{Appointment, Auth, CreateAppointment, Service};
use crate::schedule::OperatingHourRule;
use crate::slots::{DEFAULT_DURATION_MINUTES, duration_or_default, service_duration};
use crate::zone::{spec_utc_to_local, utc_to_local};

verus! {

/// Why a booking was refused or failed.
#[derive(Clone, Copy, Debug, PartialEq, Eq, Structural)]
pub enum BookingError {
    /// No service has the requested id.
    InvalidService,
    /// The business never connected a calendar.
    NotAuthenticated,
    /// The business does not accept appointments now.
    Inactive,
    /// The business has no rules for the weekday of the start.
    ClosedThisDay,
    /// The appointment does not fit in any rule's window.
    OutsideHours,
    /// The end of the appointment is past the range of instants.
    TimeOutOfRange,
    /// The start or end has no reading in the business's zone.
    TimeConversion,
    /// A store read or write failed.
    Store,
    /// The calendar provider refused to refresh the access token.
    TokenRefresh,
    /// An instant of the event cannot be written in RFC 3339.
    EventFormat,
    /// The calendar provider did not accept the event.
    CalendarInsert,
    /// The transaction could not be committed.
    Commit,
    /// An event arrived that the booking was not waiting for.
    UnexpectedEvent,
}

/// The HTTP status of a booking error: refusals are 400, failures 500.
pub open spec fn error_status(e: BookingError) -> u16 {
    match e {
        BookingError::InvalidService => 400,
        BookingError::NotAuthenticated => 400,
        BookingError::Inactive => 400,
        BookingError::ClosedThisDay => 400,
        BookingError::OutsideHours => 400,
        BookingError::TimeOutOfRange => 400,
        _ => 500,
    }
}

/// What a caller is told of a booking error; failures on the server's side
/// all read alike, their detail is for the log.
pub open spec fn error_message(e: BookingError) -> Seq<char> {
    match e {
        BookingError::InvalidService => "Invalid service_id."@,
        BookingError::NotAuthenticated => "Business not found or not authenticated."@,
        BookingError::Inactive => "This business is not currently accepting appointments."@,
        BookingError::ClosedThisDay => "Business is closed on this day."@,
        BookingError::OutsideHours => "Requested slot is outside operating hours."@,
        BookingError::TimeOutOfRange => "Requested time is out of range."@,
        _ => "Something went wrong on our end"@,
    }
}

impl BookingError {
    /// The message the error is reported with.
    pub fn message(&self) -> (r: String)
        ensures
            r@ == error_message(*self),
    {
        match self {
            BookingError::InvalidService => String::from_str("Invalid service_id."),
            BookingError::NotAuthenticated => String::from_str(
                "Business not found or not authenticated.",
            ),
            BookingError::Inactive => String::from_str(
                "This business is not currently accepting appointments.",
            ),
            BookingError::ClosedThisDay => String::from_str("Business is closed on this day."),
            BookingError::OutsideHours => String::from_str(
                "Requested slot is outside operating hours.",
            ),
            BookingError::TimeOutOfRange => String::from_str("Requested time is out of range."),
            _ => String::from_str("Something went wrong on our end"),
        }
    }

    /// The HTTP status the error is reported with.
    pub fn status_code(&self) -> (r: u16)
        ensures
            r == error_status(*self),
    {
        match self {
            BookingError::InvalidService => 400,
            BookingError::NotAuthenticated => 400,
            BookingError::Inactive => 400,
            BookingError::ClosedThisDay => 400,
            BookingError::OutsideHours => 400,
            BookingError::TimeOutOfRange => 400,
            _ => 500,
        }
    }
}

/// Where a booking stands.
#[derive(Clone, Copy, Debug, PartialEq, Eq, Structural)]
pub enum BookingPhase {
    /// Waiting for the service.
    Started,
    /// Waiting for the business's calendar credential.
    ServiceResolved,
    /// Waiting for whether the business is active.
    AuthResolved,
    /// Waiting for the rules of the weekday.
    ActiveChecked,
    /// Waiting for the row to be inserted.
    HoursValidated,
    /// Waiting for the access token.
    Persisted,
    /// Waiting for the calendar to take the event.
    Syncing,
    /// Waiting for the commit.
    CalendarSynced,
    /// Finished: the row is committed.
    Committed,
    /// Finished: rolled back, as the business has no calendar connection.
    CalendarSkipped,
    /// Finished: rolled back on the error.
    Aborted(BookingError),
}

/// Whether the booking is over.
pub open spec fn is_finished(p: BookingPhase) -> bool {
    match p {
        BookingPhase::Committed => true,
        BookingPhase::CalendarSkipped => true,
        BookingPhase::Aborted(_) => true,
        _ => false,
    }
}

/// The HTTP status a finished booking is answered with.
pub open spec fn phase_status(p: BookingPhase) -> Option<u16> {
    match p {
        BookingPhase::Committed => Some(201),
        BookingPhase::CalendarSkipped => Some(417),
        BookingPhase::Aborted(e) => Some(error_status(e)),
        _ => None,
    }
}

/// What came of the last action.
pub enum BookingEvent {
    /// The service, if one has the requested id.
    ServiceFetched(Option<Service>),
    /// The business's calendar credential, if it has one.
    AuthFetched(Option<Auth>),
    /// Whether the business is active; false when it has no account. A read
    /// that failed is `StoreFailed`.
    ActiveFetched(bool),
    /// The business's rules for the weekday that was asked for.
    RulesFetched(Vec<OperatingHourRule>),
    /// The row as the store inserted it.
    RowInserted(Appointment),
    /// Whether the provider gave an access token.
    TokenRefreshed(bool),
    /// Whether the provider accepted the event.
    EventInserted(bool),
    /// Whether the commit succeeded.
    Committed(bool),
    /// A store read or write failed.
    StoreFailed,
}

/// What the caller is to do next.
pub enum BookingAction {
    /// Read the service `request.service_id`.
    FetchService,
    /// Read the calendar credential of `request.business_id`.
    FetchAuth,
    /// Read whether `request.business_id` is active.
    FetchActive,
    /// Read the rules of `request.business_id` for the weekday of the start,
    /// on the clock the customer wrote it with.
    FetchRules { day_of_week: u8 },
    /// Insert the requested appointment, ending at `end_time`.
    InsertRow { end_time: i64 },
    /// Exchange the business's refresh token for an access token.
    RefreshToken,
    /// Insert the event in the business's primary calendar.
    InsertEvent(GoogleCalendarEvent),
    /// Commit the transaction.
    Commit,
    /// Roll the transaction back, then answer.
    RollbackAndRespond,
    /// Answer; there is nothing left to do in the store.
    Respond,
}

/// The kinds of action, without their contents.
#[derive(Clone, Copy, Debug, PartialEq, Eq, Structural)]
pub enum ActionKind {
    FetchService,
    FetchAuth,
    FetchActive,
    FetchRules,
    InsertRow,
    RefreshToken,
    InsertEvent,
    Commit,
    RollbackAndRespond,
    Respond,
}

pub open spec fn kind_of(a: BookingAction) -> ActionKind {
    match a {
        BookingAction::FetchService => ActionKind::FetchService,
        BookingAction::FetchAuth => ActionKind::FetchAuth,
        BookingAction::FetchActive => ActionKind::FetchActive,
        BookingAction::FetchRules { .. } => ActionKind::FetchRules,
        BookingAction::InsertRow { .. } => ActionKind::InsertRow,
        BookingAction::RefreshToken => ActionKind::RefreshToken,
        BookingAction::InsertEvent(_) => ActionKind::InsertEvent,
        BookingAction::Commit => ActionKind::Commit,
        BookingAction::RollbackAndRespond => ActionKind::RollbackAndRespond,
        BookingAction::Respond => ActionKind::Respond,
    }
}

/// A booking in progress.
pub struct Booking {
    pub request: CreateAppointment,
    pub phase: BookingPhase,
    pub service: Option<Service>,
    pub refresh_token: Option<String>,
    pub end_time: i64,
    pub appointment: Option<Appointment>,
}

/// The booking with its phase replaced.
pub open spec fn with_phase(b: Booking, p: BookingPhase) -> Booking {
    Booking {
        request: b.request,
        phase: p,
        service: b.service,
        refresh_token: b.refresh_token,
        end_time: b.end_time,
        appointment: b.appointment,
    }
}

/// The length of the booked service in minutes.
pub open spec fn booked_minutes(b: Booking) -> i32 {
    match b.service {
        Some(s) => duration_or_default(s.duration_minutes),
        None => DEFAULT_DURATION_MINUTES,
    }
}

/// The end of an appointment that starts at `start` and lasts `minutes`, if
/// it is an instant.
pub open spec fn end_of(start: i64, minutes: i32) -> Option<i64> {
    let e = start + minutes * 60;
    if i64::MIN <= e <= i64::MAX {
        Some(e as i64)
    } else {
        None
    }
}

/// The time of day of a wall-clock reading, in seconds since midnight.
pub open spec fn time_of_day(local: i64) -> int {
    local as int % (SECS_PER_DAY as int)
}

/// The end reading `to` counted in seconds from the midnight that starts the
/// day of the start reading `from`; past a day when the appointment runs
/// through midnight.
pub open spec fn end_in_start_day(from: i64, to: i64) -> int {
    to - from + time_of_day(from)
}

/// Whether a rule's window holds an appointment from the time of day `from`
/// to `to`, counted from the same midnight.
pub open spec fn window_holds(rule: OperatingHourRule, from: int, to: int) -> bool {
    rule.open_time <= from && to <= rule.close_time
}

/// Whether some rule's window holds an appointment from `from` to `to`.
pub open spec fn some_window_holds(rules: Seq<OperatingHourRule>, from: int, to: int) -> bool {
    exists|i: int| 0 <= i < rules.len() && #[trigger] window_holds(rules[i], from, to)
}

/// The hours check of a booking against the rules of its weekday: both ends
/// are read on the clock of the first rule's zone, and some rule's window,
/// on the day the appointment starts, must hold them.
pub open spec fn hours_check(b: Booking, rules: Seq<OperatingHourRule>) -> Result<(), BookingError> {
    if rules.len() == 0 {
        Err(BookingError::ClosedThisDay)
    } else {
        let zone = rules[0].time_zone@;
        match (
            spec_utc_to_local(zone, b.request.appointment_start_time),
            spec_utc_to_local(zone, b.end_time),
        ) {
            (Ok(from), Ok(to)) => if some_window_holds(
                rules,
                time_of_day(from),
                end_in_start_day(from, to),
            ) {
                Ok(())
            } else {
                Err(BookingError::OutsideHours)
            },
            _ => Err(BookingError::TimeConversion),
        }
    }
}

/// Whether both ends of the booking can be written in RFC 3339.
pub open spec fn event_writable(b: Booking) -> bool {
    rfc3339_of_instant(b.request.appointment_start_time) is Some && rfc3339_of_instant(
        b.end_time,
    ) is Some
}

/// The booking after `e`.
pub open spec fn spec_next(b: Booking, e: BookingEvent) -> Booking {
    if is_finished(b.phase) {
        b
    } else {
        let unexpected = with_phase(b, BookingPhase::Aborted(BookingError::UnexpectedEvent));
        match e {
            BookingEvent::StoreFailed => with_phase(b, BookingPhase::Aborted(BookingError::Store)),
            BookingEvent::ServiceFetched(found) => if b.phase == BookingPhase::Started {
                match found {
                    Some(s) => Booking {
                        phase: BookingPhase::ServiceResolved,
                        service: Some(s),
                        ..b
                    },
                    None => with_phase(b, BookingPhase::Aborted(BookingError::InvalidService)),
                }
            } else {
                unexpected
            },
            BookingEvent::AuthFetched(found) => if b.phase == BookingPhase::ServiceResolved {
                match found {
                    Some(cred) => Booking {
                        phase: BookingPhase::AuthResolved,
                        refresh_token: cred.refresh_token,
                        ..b
                    },
                    None => with_phase(b, BookingPhase::Aborted(BookingError::NotAuthenticated)),
                }
            } else {
                unexpected
            },
            BookingEvent::ActiveFetched(active) => if b.phase == BookingPhase::AuthResolved {
                if !active {
                    with_phase(b, BookingPhase::Aborted(BookingError::Inactive))
                } else {
                    match end_of(b.request.appointment_start_time, booked_minutes(b)) {
                        Some(end) => Booking {
                            phase: BookingPhase::ActiveChecked,
                            end_time: end,
                            ..b
                        },
                        None => with_phase(b, BookingPhase::Aborted(BookingError::TimeOutOfRange)),
                    }
                }
            } else {
                unexpected
            },
            BookingEvent::RulesFetched(rules) => if b.phase == BookingPhase::ActiveChecked {
                match hours_check(b, rules@) {
                    Ok(()) => with_phase(b, BookingPhase::HoursValidated),
                    Err(err) => with_phase(b, BookingPhase::Aborted(err)),
                }
            } else {
                unexpected
            },
            BookingEvent::RowInserted(row) => if b.phase == BookingPhase::HoursValidated {
                if b.refresh_token is Some {
                    Booking { phase: BookingPhase::Persisted, appointment: Some(row), ..b }
                } else {
                    with_phase(b, BookingPhase::CalendarSkipped)
                }
            } else {
                unexpected
            },
            BookingEvent::TokenRefreshed(ok) => if b.phase == BookingPhase::Persisted {
                if !ok {
                    with_phase(b, BookingPhase::Aborted(BookingError::TokenRefresh))
                } else if event_writable(b) {
                    with_phase(b, BookingPhase::Syncing)
                } else {
                    with_phase(b, BookingPhase::Aborted(BookingError::EventFormat))
                }
            } else {
                unexpected
            },
            BookingEvent::EventInserted(ok) => if b.phase == BookingPhase::Syncing {
                if ok {
                    with_phase(b, BookingPhase::CalendarSynced)
                } else {
                    with_phase(b, BookingPhase::Aborted(BookingError::CalendarInsert))
                }
            } else {
                unexpected
            },
            BookingEvent::Committed(ok) => if b.phase == BookingPhase::CalendarSynced {
                if ok {
                    with_phase(b, BookingPhase::Committed)
                } else {
                    with_phase(b, BookingPhase::Aborted(BookingError::Commit))
                }
            } else {
                unexpected
            },
        }
    }
}

/// The action that leads out of the phase `p`, which was just entered.
pub open spec fn action_into(p: BookingPhase) -> ActionKind {
    match p {
        BookingPhase::Started => ActionKind::FetchService,
        BookingPhase::ServiceResolved => ActionKind::FetchAuth,
        BookingPhase::AuthResolved => ActionKind::FetchActive,
        BookingPhase::ActiveChecked => ActionKind::FetchRules,
        BookingPhase::HoursValidated => ActionKind::InsertRow,
        BookingPhase::Persisted => ActionKind::RefreshToken,
        BookingPhase::Syncing => ActionKind::InsertEvent,
        BookingPhase::CalendarSynced => ActionKind::Commit,
        BookingPhase::Committed => ActionKind::Respond,
        BookingPhase::CalendarSkipped => ActionKind::RollbackAndRespond,
        BookingPhase::Aborted(BookingError::Commit) => ActionKind::Respond,
        BookingPhase::Aborted(_) => ActionKind::RollbackAndRespond,
    }
}

/// The action asked for after `e`: none but answering once finished.
pub open spec fn next_action(b: Booking, e: BookingEvent) -> ActionKind {
    if is_finished(b.phase) {
        ActionKind::Respond
    } else {
        action_into(spec_next(b, e).phase)
    }
}

impl Booking {
    /// The service is known from the moment it was read.
    pub open spec fn wf(&self) -> bool {
        match self.phase {
            BookingPhase::Started => true,
            BookingPhase::Aborted(_) => true,
            _ => self.service is Some,
        }
    }

    /// A booking of `request`, waiting for its service.
    pub fn new(request: CreateAppointment) -> (r: (Booking, BookingAction))
        ensures
            r.0.request == request,
            r.0.phase == BookingPhase::Started,
            r.0.service is None,
            r.0.refresh_token is None,
            r.0.appointment is None,
            r.0.wf(),
            kind_of(r.1) == ActionKind::FetchService,
    {
        let start = request.appointment_start_time;
        (
            Booking {
                request,
                phase: BookingPhase::Started,
                service: None,
                refresh_token: None,
                end_time: start,
                appointment: None,
            },
            BookingAction::FetchService,
        )
    }

    /// Whether the booking is over.
    pub fn finished(&self) -> (r: bool)
        ensures
            r == is_finished(self.phase),
    {
        match self.phase {
            BookingPhase::Committed => true,
            BookingPhase::CalendarSkipped => true,
            BookingPhase::Aborted(_) => true,
            _ => false,
        }
    }

    /// The HTTP status of a finished booking.
    pub fn status_code(&self) -> (r: Option<u16>)
        ensures
            r == phase_status(self.phase),
    {
        match self.phase {
            BookingPhase::Committed => Some(201),
            BookingPhase::CalendarSkipped => Some(417),
            BookingPhase::Aborted(e) => Some(e.status_code()),
            _ => None,
        }
    }

    fn abort(&mut self, e: BookingError) -> (r: BookingAction)
        ensures
            *final(self) == with_phase(*old(self), BookingPhase::Aborted(e)),
            kind_of(r) == action_into(BookingPhase::Aborted(e)),
    {
        self.phase = BookingPhase::Aborted(e);
        match e {
            BookingError::Commit => BookingAction::Respond,
            _ => BookingAction::RollbackAndRespond,
        }
    }

    /// The hours check of this booking against the rules of its weekday.
    pub fn check_hours(&self, rules: &Vec<OperatingHourRule>) -> (r: Result<(), BookingError>)
        ensures
            r == hours_check(*self, rules@),
    {
        if rules.len() == 0 {
            return Err(BookingError::ClosedThisDay);
        }
        let zone = rules[0].time_zone.as_str();
        let (from, to) = match (
            utc_to_local(self.request.appointment_start_time, zone),
            utc_to_local(self.end_time, zone),
        ) {
            (Ok(from), Ok(to)) => (from, to),
            _ => return Err(BookingError::TimeConversion),
        };
        let from_tod: i64 = match from.checked_rem_euclid(SECS_PER_DAY) {
            Some(t) => t,
            None => 0,
        };
        let to_in_day: i128 = to as i128 - from as i128 + from_tod as i128;
        let mut i: usize = 0;
        while i < rules.len()
            invariant
                i <= rules@.len(),
                rules@.len() > 0,
                spec_utc_to_local(rules@[0].time_zone@, self.request.appointment_start_time)
                    == Ok::<i64, crate::zone::ZoneError>(from),
                spec_utc_to_local(rules@[0].time_zone@, self.end_time) == Ok::<
                    i64,
                    crate::zone::ZoneError,
                >(to),
                from_tod == time_of_day(from),
                to_in_day == end_in_start_day(from, to),
                forall|k: int|
                    0 <= k < i ==> !#[trigger] window_holds(
                        rules@[k],
                        from_tod as int,
                        to_in_day as int,
                    ),
            decreases rules@.len() - i,
        {
            let rule = &rules[i];
            if rule.open_time as i64 <= from_tod && to_in_day <= rule.close_time as i128 {
                assert(window_holds(rules@[i as int], time_of_day(from), end_in_start_day(from, to)));
                assert(some_window_holds(rules@, time_of_day(from), end_in_start_day(from, to)));
                return Ok(());
            }
            i = i + 1;
        }
        Err(BookingError::OutsideHours)
    }

    /// Takes in what came of the last action and says what to do next.
    pub fn step(&mut self, event: BookingEvent) -> (r: BookingAction)
        requires
            old(self).wf(),
        ensures
            *final(self) == spec_next(*old(self), event),
            final(self).wf(),
            kind_of(r) == next_action(*old(self), event),
            r matches BookingAction::FetchRules { day_of_week } ==> day_of_week as int
                == weekday_of_instant(
                old(self).request.appointment_start_time + old(self).request.utc_offset,
            ),
            r matches BookingAction::InsertRow { end_time } ==> end_time == final(self).end_time,
            r matches BookingAction::InsertEvent(ev) ==> match old(self).service {
                Some(s) => describes_booking(
                    ev,
                    s.service_name@,
                    old(self).request,
                    old(self).request.appointment_start_time,
                    old(self).end_time,
                ),
                None => false,
            },
    {
        if self.finished() {
            return BookingAction::Respond;
        }
        match event {
            BookingEvent::StoreFailed => self.abort(BookingError::Store),
            BookingEvent::ServiceFetched(found) => {
                if self.phase != BookingPhase::Started {
                    return self.abort(BookingError::UnexpectedEvent);
                }
                match found {
                    Some(service) => {
                        self.service = Some(service);
                        self.phase = BookingPhase::ServiceResolved;
                        BookingAction::FetchAuth
                    },
                    None => self.abort(BookingError::InvalidService),
                }
            },
            BookingEvent::AuthFetched(found) => {
                if self.phase != BookingPhase::ServiceResolved {
                    return self.abort(BookingError::UnexpectedEvent);
                }
                match found {
                    Some(cred) => {
                        self.refresh_token = cred.refresh_token;
                        self.phase = BookingPhase::AuthResolved;
                        BookingAction::FetchActive
                    },
                    None => self.abort(BookingError::NotAuthenticated),
                }
            },
            BookingEvent::ActiveFetched(active) => {
                if self.phase != BookingPhase::AuthResolved {
                    return self.abort(BookingError::UnexpectedEvent);
                }
                if !active {
                    return self.abort(BookingError::Inactive);
                }
                let minutes = match &self.service {
                    Some(s) => service_duration(s.duration_minutes),
                    None => DEFAULT_DURATION_MINUTES,
                };
                match self.request.appointment_start_time.checked_add(minutes as i64 * 60) {
                    Some(end) => {
                        self.end_time = end;
                        self.phase = BookingPhase::ActiveChecked;
                        BookingAction::FetchRules {
                            day_of_week: weekday_at_offset(
                                self.request.appointment_start_time,
                                self.request.utc_offset,
                            ),
                        }
                    },
                    None => self.abort(BookingError::TimeOutOfRange),
                }
            },
            BookingEvent::RulesFetched(rules) => {
                if self.phase != BookingPhase::ActiveChecked {
                    return self.abort(BookingError::UnexpectedEvent);
                }
                match self.check_hours(&rules) {
                    Ok(()) => {
                        self.phase = BookingPhase::HoursValidated;
                        BookingAction::InsertRow { end_time: self.end_time }
                    },
                    Err(e) => self.abort(e),
                }
            },
            BookingEvent::RowInserted(row) => {
                if self.phase != BookingPhase::HoursValidated {
                    return self.abort(BookingError::UnexpectedEvent);
                }
                if self.refresh_token.is_some() {
                    self.appointment = Some(row);
                    self.phase = BookingPhase::Persisted;
                    BookingAction::RefreshToken
                } else {
                    self.phase = BookingPhase::CalendarSkipped;
                    BookingAction::RollbackAndRespond
                }
            },
            BookingEvent::TokenRefreshed(ok) => {
                if self.phase != BookingPhase::Persisted {
                    return self.abort(BookingError::UnexpectedEvent);
                }
                if !ok {
                    return self.abort(BookingError::TokenRefresh);
                }
                let built = match &self.service {
                    Some(s) => booking_event(
                        s.service_name.as_str(),
                        &self.request,
                        self.request.appointment_start_time,
                        self.end_time,
                    ),
                    None => None,
                };
                match built {
                    Some(ev) => {
                        self.phase = BookingPhase::Syncing;
                        BookingAction::InsertEvent(ev)
                    },
                    None => self.abort(BookingError::EventFormat),
                }
            },
            BookingEvent::EventInserted(ok) => {
                if self.phase != BookingPhase::Syncing {
                    return self.abort(BookingError::UnexpectedEvent);
                }
                if ok {
                    self.phase = BookingPhase::CalendarSynced;
                    BookingAction::Commit
                } else {
                    self.abort(BookingError::CalendarInsert)
                }
            },
            BookingEvent::Committed(ok) => {
                if self.phase != BookingPhase::CalendarSynced {
                    return self.abort(BookingError::UnexpectedEvent);
                }
                if ok {
                    self.phase = BookingPhase::Committed;
                    BookingAction::Respond
                } else {
                    self.abort(BookingError::Commit)
                }
            },
        }
    }
}

} // verus!
