//! Payloads exchanged with the calendar provider.
use vstd::prelude::*;
use crate::availability::UtcWindow;
use crate::clock::{format_instant, rfc3339_of_instant};
use crate::model::CreateAppointment;

verus! {

/// A calendar event to insert.
#[derive(Clone, Debug)]
pub struct GoogleCalendarEvent {
    pub summary: String,
    pub description: String,
    pub start: GoogleEventDateTime,
    pub end: GoogleEventDateTime,
    pub attendees: Vec<GoogleEventAttendee>,
}

/// An instant of an event, with the zone it is written in.
#[derive(Clone, Debug)]
pub struct GoogleEventDateTime {
    pub date_time: String,
    pub time_zone: String,
}

/// A person invited to an event.
#[derive(Clone, Debug)]
pub struct GoogleEventAttendee {
    pub email: String,
}

/// A free/busy query for a window, over the listed calendars.
#[derive(Clone, Debug)]
pub struct FreeBusyRequest {
    pub time_min: String,
    pub time_max: String,
    pub items: Vec<FreeBusyRequestItem>,
}

/// One calendar of a free/busy query.
#[derive(Clone, Debug)]
pub struct FreeBusyRequestItem {
    pub id: String,
}

/// The provider's answer to a free/busy query: each calendar's id with its
/// busy blocks. The answer is a map by id; it is held as pairs because a
/// lookup in a `HashMap` keyed by `String` has no specification that a
/// lookup's result could be proved from.
#[derive(Clone, Debug)]
pub struct FreeBusyResponse {
    pub calendars: Vec<(String, FreeBusyCalendar)>,
}

/// The busy blocks the provider reports for one calendar.
#[derive(Clone, Debug)]
pub struct FreeBusyCalendar {
    pub busy: Vec<FreeBusyTime>,
}

/// One busy block, both ends in RFC 3339 form.
#[derive(Clone, Debug)]
pub struct FreeBusyTime {
    pub start: String,
    pub end: String,
}

/// Text standing in for an unset optional field of an event.
pub open spec fn not_given() -> Seq<char> {
    "N/A"@
}

/// The text of an optional field, or `N/A` when it is unset.
pub open spec fn or_not_given(field: Option<String>) -> Seq<char> {
    match field {
        Some(s) => s@,
        None => not_given(),
    }
}

/// The note line of an event: the customer's notes under a heading, or
/// `N/A`.
pub open spec fn notes_text(notes: Option<String>) -> Seq<char> {
    match notes {
        Some(n) => "\n\nNotes: "@ + n@,
        None => not_given(),
    }
}

/// The title of the event of a booking.
pub open spec fn event_summary(service_name: Seq<char>, request: CreateAppointment) -> Seq<char> {
    "Appointment Scheduled: "@ + service_name + " for "@ + request.customer_name@
}

/// The body of the event of a booking.
pub open spec fn event_description(service_name: Seq<char>, request: CreateAppointment) -> Seq<
    char,
> {
    "Service: "@ + service_name + "\nCustomer Phone: "@ + or_not_given(request.customer_phone)
        + "\nCustomer Email: "@ + or_not_given(request.customer_email) + "\nNote: "@ + notes_text(
        request.notes,
    )
}

/// The attendee address of the event of a booking: the customer's email, or
/// empty when none was given.
pub open spec fn attendee_email(request: CreateAppointment) -> Seq<char> {
    match request.customer_email {
        Some(e) => e@,
        None => Seq::empty(),
    }
}

/// `event` is the calendar event of a booking of `service_name` by `request`
/// from `start` to `end`: both instants written in RFC 3339 and tagged
/// `UTC`, the customer as sole attendee.
pub open spec fn describes_booking(
    event: GoogleCalendarEvent,
    service_name: Seq<char>,
    request: CreateAppointment,
    start: i64,
    end: i64,
) -> bool {
    &&& event.summary@ == event_summary(service_name, request)
    &&& event.description@ == event_description(service_name, request)
    &&& rfc3339_of_instant(start) == Some(event.start.date_time@)
    &&& rfc3339_of_instant(end) == Some(event.end.date_time@)
    &&& event.start.time_zone@ == "UTC"@
    &&& event.end.time_zone@ == "UTC"@
    &&& event.attendees@.len() == 1
    &&& event.attendees@[0].email@ == attendee_email(request)
}

fn text_or_not_given(field: &Option<String>) -> (r: &str)
    ensures
        r@ == or_not_given(*field),
{
    match field {
        Some(s) => s.as_str(),
        None => "N/A",
    }
}

/// The calendar event for a booking of `service_name` by `request` from
/// `start` to `end`; none when an instant cannot be written in RFC 3339.
pub fn booking_event(service_name: &str, request: &CreateAppointment, start: i64, end: i64) -> (r:
    Option<GoogleCalendarEvent>)
    ensures
        r is Some <==> rfc3339_of_instant(start) is Some && rfc3339_of_instant(end) is Some,
        r matches Some(event) ==> describes_booking(event, service_name@, *request, start, end),
{
    let start_text = match format_instant(start) {
        Some(t) => t,
        None => return None,
    };
    let end_text = match format_instant(end) {
        Some(t) => t,
        None => return None,
    };
    let summary = String::from_str("Appointment Scheduled: ").concat(service_name).concat(
        " for ",
    ).concat(request.customer_name.as_str());
    let notes = match &request.notes {
        Some(n) => String::from_str("\n\nNotes: ").concat(n.as_str()),
        None => String::from_str("N/A"),
    };
    let description = String::from_str("Service: ").concat(service_name).concat(
        "\nCustomer Phone: ",
    ).concat(text_or_not_given(&request.customer_phone)).concat("\nCustomer Email: ").concat(
        text_or_not_given(&request.customer_email),
    ).concat("\nNote: ").concat(notes.as_str());
    let email = match &request.customer_email {
        Some(e) => String::from_str(e.as_str()),
        None => String::new(),
    };
    let mut attendees: Vec<GoogleEventAttendee> = Vec::new();
    attendees.push(GoogleEventAttendee { email });
    Some(
        GoogleCalendarEvent {
            summary,
            description,
            start: GoogleEventDateTime { date_time: start_text, time_zone: String::from_str("UTC") },
            end: GoogleEventDateTime { date_time: end_text, time_zone: String::from_str("UTC") },
            attendees,
        },
    )
}

/// The id of the calendar that free/busy queries ask about.
pub open spec fn primary_calendar() -> Seq<char> {
    "primary"@
}

impl FreeBusyResponse {
    /// The busy blocks of the primary calendar: those of the first entry with
    /// that id, if there is one.
    pub fn primary(&self) -> (r: Option<&FreeBusyCalendar>)
        ensures
            match r {
                Some(cal) => exists|i: int|
                    0 <= i < self.calendars@.len() && self.calendars@[i].0@ == primary_calendar()
                        && self.calendars@[i].1 == *cal && forall|j: int|
                        0 <= j < i ==> self.calendars@[j].0@ != primary_calendar(),
                None => forall|i: int|
                    0 <= i < self.calendars@.len() ==> self.calendars@[i].0@ != primary_calendar(),
            },
    {
        let wanted = String::from_str("primary");
        let mut i: usize = 0;
        while i < self.calendars.len()
            invariant
                i <= self.calendars@.len(),
                wanted@ == primary_calendar(),
                forall|j: int| 0 <= j < i ==> self.calendars@[j].0@ != primary_calendar(),
            decreases self.calendars@.len() - i,
        {
            let entry = &self.calendars[i];
            if entry.0 == wanted {
                return Some(&entry.1);
            }
            i = i + 1;
        }
        None
    }
}

/// The free/busy query for `window` over the primary calendar; none when a
/// bound cannot be written in RFC 3339.
pub fn free_busy_request(window: &UtcWindow) -> (r: Option<FreeBusyRequest>)
    ensures
        r is Some <==> rfc3339_of_instant(window.start) is Some && rfc3339_of_instant(
            window.end,
        ) is Some,
        r matches Some(q) ==> {
            &&& rfc3339_of_instant(window.start) == Some(q.time_min@)
            &&& rfc3339_of_instant(window.end) == Some(q.time_max@)
            &&& q.items@.len() == 1
            &&& q.items@[0].id@ == primary_calendar()
        },
{
    let time_min = match format_instant(window.start) {
        Some(t) => t,
        None => return None,
    };
    let time_max = match format_instant(window.end) {
        Some(t) => t,
        None => return None,
    };
    let mut items: Vec<FreeBusyRequestItem> = Vec::new();
    items.push(FreeBusyRequestItem { id: String::from_str("primary") });
    Some(FreeBusyRequest { time_min, time_max, items })
}

} // verus!
