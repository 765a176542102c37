use slotbook::booking::{Booking, BookingAction, BookingError, BookingEvent, BookingPhase};
use slotbook::clock::{parse_instant, parse_offset};
use slotbook::model::{Appointment, Auth, CreateAppointment, Service};
use slotbook::schedule::OperatingHourRule;

fn request(start: &str) -> CreateAppointment {
    CreateAppointment {
        service_id: 11,
        business_id: 7,
        customer_name: "Ada".to_string(),
        customer_email: Some("ada@example.com".to_string()),
        customer_phone: None,
        appointment_start_time: parse_instant(start).unwrap(),
        utc_offset: parse_offset(start).unwrap(),
        notes: Some("window seat".to_string()),
    }
}

fn service() -> Service {
    service_of(30)
}

fn service_of(minutes: i32) -> Service {
    Service {
        id: 11,
        user_id: 7,
        service_name: "Haircut".to_string(),
        description: None,
        duration_minutes: Some(minutes),
        category: None,
    }
}

fn nine_to_five(zone: &str) -> Vec<OperatingHourRule> {
    vec![OperatingHourRule {
        business_id: 7,
        day_of_week: 3,
        open_time: 9 * 3600,
        close_time: 17 * 3600,
        time_zone: zone.to_string(),
    }]
}

fn row(b: &Booking) -> Appointment {
    Appointment {
        id: 99,
        service_id: b.request.service_id,
        business_id: b.request.business_id,
        customer_name: b.request.customer_name.clone(),
        customer_email: b.request.customer_email.clone(),
        customer_phone: b.request.customer_phone.clone(),
        appointment_start_time: b.request.appointment_start_time,
        appointment_end_time: b.end_time,
        notes: b.request.notes.clone(),
    }
}

/// Drives a booking up to the hours check.
fn up_to_rules(start: &str, token: Option<&str>) -> Booking {
    let (mut b, first) = Booking::new(request(start));
    assert!(matches!(first, BookingAction::FetchService));
    assert!(matches!(b.step(BookingEvent::ServiceFetched(Some(service()))), BookingAction::FetchAuth));
    let cred = Auth { id: 1, user_id: 7, google_id: "g-7".to_string(), refresh_token: token.map(|t| t.to_string()) };
    assert!(matches!(b.step(BookingEvent::AuthFetched(Some(cred))), BookingAction::FetchActive));
    match b.step(BookingEvent::ActiveFetched(true)) {
        BookingAction::FetchRules { day_of_week } => assert_eq!(day_of_week, 3),
        _ => panic!("expected the rules to be fetched"),
    }
    b
}

#[test]
fn booking_syncs_then_commits() {
    let mut b = up_to_rules("2024-01-03T14:00:00Z", Some("refresh"));
    assert_eq!(b.end_time, parse_instant("2024-01-03T14:30:00Z").unwrap());
    match b.step(BookingEvent::RulesFetched(nine_to_five("America/New_York"))) {
        BookingAction::InsertRow { end_time } => assert_eq!(end_time, b.end_time),
        _ => panic!("expected the row to be inserted"),
    }
    let inserted = row(&b);
    assert!(matches!(b.step(BookingEvent::RowInserted(inserted)), BookingAction::RefreshToken));
    assert_eq!(b.phase, BookingPhase::Persisted);
    let event = match b.step(BookingEvent::TokenRefreshed(true)) {
        BookingAction::InsertEvent(ev) => ev,
        _ => panic!("expected the event to be inserted"),
    };
    assert_eq!(event.summary, "Appointment Scheduled: Haircut for Ada");
    assert_eq!(
        event.description,
        "Service: Haircut\nCustomer Phone: N/A\nCustomer Email: ada@example.com\nNote: \n\nNotes: window seat"
    );
    assert_eq!(event.start.date_time, "2024-01-03T14:00:00Z");
    assert_eq!(event.end.date_time, "2024-01-03T14:30:00Z");
    assert_eq!(event.start.time_zone, "UTC");
    assert_eq!(event.attendees.len(), 1);
    assert_eq!(event.attendees[0].email, "ada@example.com");
    assert!(matches!(b.step(BookingEvent::EventInserted(true)), BookingAction::Commit));
    assert_eq!(b.phase, BookingPhase::CalendarSynced);
    assert!(matches!(b.step(BookingEvent::Committed(true)), BookingAction::Respond));
    assert_eq!(b.phase, BookingPhase::Committed);
    assert_eq!(b.status_code(), Some(201));
    assert_eq!(b.appointment.as_ref().unwrap().id, 99);
}

#[test]
fn booking_outside_hours_is_refused() {
    // 12:00Z is 07:00 in New York, before opening.
    let mut b = up_to_rules("2024-01-03T12:00:00Z", Some("refresh"));
    assert!(matches!(
        b.step(BookingEvent::RulesFetched(nine_to_five("America/New_York"))),
        BookingAction::RollbackAndRespond
    ));
    assert_eq!(b.phase, BookingPhase::Aborted(BookingError::OutsideHours));
    assert_eq!(b.status_code(), Some(400));
    assert!(matches!(b.step(BookingEvent::Committed(true)), BookingAction::Respond));
    assert_eq!(b.phase, BookingPhase::Aborted(BookingError::OutsideHours));
}

#[test]
fn booking_ending_after_close_is_refused() {
    // 16:45 to 17:15 New York time runs past closing.
    let mut b = up_to_rules("2024-01-03T21:45:00Z", Some("refresh"));
    assert!(matches!(
        b.step(BookingEvent::RulesFetched(nine_to_five("America/New_York"))),
        BookingAction::RollbackAndRespond
    ));
    assert_eq!(b.phase, BookingPhase::Aborted(BookingError::OutsideHours));
}

#[test]
fn booking_without_refresh_token_is_rolled_back() {
    let mut b = up_to_rules("2024-01-03T14:00:00Z", None);
    assert!(matches!(
        b.step(BookingEvent::RulesFetched(nine_to_five("America/New_York"))),
        BookingAction::InsertRow { .. }
    ));
    let inserted = row(&b);
    assert!(matches!(b.step(BookingEvent::RowInserted(inserted)), BookingAction::RollbackAndRespond));
    assert_eq!(b.phase, BookingPhase::CalendarSkipped);
    assert_eq!(b.status_code(), Some(417));
    assert!(b.finished());
}

#[test]
fn calendar_refusal_rolls_back() {
    let mut b = up_to_rules("2024-01-03T14:00:00Z", Some("refresh"));
    b.step(BookingEvent::RulesFetched(nine_to_five("America/New_York")));
    let inserted = row(&b);
    b.step(BookingEvent::RowInserted(inserted));
    assert!(matches!(b.step(BookingEvent::TokenRefreshed(true)), BookingAction::InsertEvent(_)));
    assert!(matches!(b.step(BookingEvent::EventInserted(false)), BookingAction::RollbackAndRespond));
    assert_eq!(b.phase, BookingPhase::Aborted(BookingError::CalendarInsert));
    assert_eq!(b.status_code(), Some(500));
}

#[test]
fn token_refusal_rolls_back() {
    let mut b = up_to_rules("2024-01-03T14:00:00Z", Some("refresh"));
    b.step(BookingEvent::RulesFetched(nine_to_five("America/New_York")));
    let inserted = row(&b);
    b.step(BookingEvent::RowInserted(inserted));
    assert!(matches!(b.step(BookingEvent::TokenRefreshed(false)), BookingAction::RollbackAndRespond));
    assert_eq!(b.phase, BookingPhase::Aborted(BookingError::TokenRefresh));
    assert_eq!(b.status_code(), Some(500));
}

#[test]
fn failed_commit_is_reported() {
    let mut b = up_to_rules("2024-01-03T14:00:00Z", Some("refresh"));
    b.step(BookingEvent::RulesFetched(nine_to_five("America/New_York")));
    let inserted = row(&b);
    b.step(BookingEvent::RowInserted(inserted));
    b.step(BookingEvent::TokenRefreshed(true));
    b.step(BookingEvent::EventInserted(true));
    assert!(matches!(b.step(BookingEvent::Committed(false)), BookingAction::Respond));
    assert_eq!(b.phase, BookingPhase::Aborted(BookingError::Commit));
}

#[test]
fn unknown_service_is_refused() {
    let (mut b, _) = Booking::new(request("2024-01-03T14:00:00Z"));
    assert!(matches!(b.step(BookingEvent::ServiceFetched(None)), BookingAction::RollbackAndRespond));
    assert_eq!(b.phase, BookingPhase::Aborted(BookingError::InvalidService));
    assert_eq!(b.status_code(), Some(400));
}

#[test]
fn business_without_credential_is_refused() {
    let (mut b, _) = Booking::new(request("2024-01-03T14:00:00Z"));
    b.step(BookingEvent::ServiceFetched(Some(service())));
    assert!(matches!(b.step(BookingEvent::AuthFetched(None)), BookingAction::RollbackAndRespond));
    assert_eq!(b.phase, BookingPhase::Aborted(BookingError::NotAuthenticated));
    assert_eq!(b.status_code(), Some(400));
}

#[test]
fn inactive_business_is_refused() {
    let (mut b, _) = Booking::new(request("2024-01-03T14:00:00Z"));
    b.step(BookingEvent::ServiceFetched(Some(service())));
    b.step(BookingEvent::AuthFetched(Some(Auth { id: 1, user_id: 7, google_id: "g-7".to_string(), refresh_token: None })));
    assert!(matches!(b.step(BookingEvent::ActiveFetched(false)), BookingAction::RollbackAndRespond));
    assert_eq!(b.phase, BookingPhase::Aborted(BookingError::Inactive));
}

#[test]
fn closed_day_booking_is_refused() {
    let mut b = up_to_rules("2024-01-03T14:00:00Z", Some("refresh"));
    b.step(BookingEvent::RulesFetched(Vec::new()));
    assert_eq!(b.phase, BookingPhase::Aborted(BookingError::ClosedThisDay));
    assert_eq!(b.status_code(), Some(400));
}

#[test]
fn corrupt_rule_zone_fails_booking() {
    let mut b = up_to_rules("2024-01-03T14:00:00Z", Some("refresh"));
    b.step(BookingEvent::RulesFetched(nine_to_five("Nowhere/Atlantis")));
    assert_eq!(b.phase, BookingPhase::Aborted(BookingError::TimeConversion));
    assert_eq!(b.status_code(), Some(500));
}

#[test]
fn end_past_range_is_refused() {
    let mut req = request("2024-01-03T14:00:00Z");
    req.appointment_start_time = i64::MAX - 60;
    let (mut b, _) = Booking::new(req);
    b.step(BookingEvent::ServiceFetched(Some(service())));
    b.step(BookingEvent::AuthFetched(Some(Auth { id: 1, user_id: 7, google_id: "g-7".to_string(), refresh_token: None })));
    b.step(BookingEvent::ActiveFetched(true));
    assert_eq!(b.phase, BookingPhase::Aborted(BookingError::TimeOutOfRange));
}

#[test]
fn store_failure_aborts() {
    let mut b = up_to_rules("2024-01-03T14:00:00Z", Some("refresh"));
    assert!(matches!(b.step(BookingEvent::StoreFailed), BookingAction::RollbackAndRespond));
    assert_eq!(b.phase, BookingPhase::Aborted(BookingError::Store));
    assert_eq!(b.status_code(), Some(500));
}

#[test]
fn out_of_order_event_aborts() {
    let (mut b, _) = Booking::new(request("2024-01-03T14:00:00Z"));
    b.step(BookingEvent::EventInserted(true));
    assert_eq!(b.phase, BookingPhase::Aborted(BookingError::UnexpectedEvent));
    assert_eq!(BookingError::UnexpectedEvent.status_code(), 500);
    assert_eq!(b.status_code(), Some(500));
}

#[test]
fn unfinished_booking_has_no_status() {
    let b = up_to_rules("2024-01-03T14:00:00Z", Some("refresh"));
    assert_eq!(b.status_code(), None);
    assert!(!b.finished());
}

#[test]
fn rules_are_read_for_the_weekday_the_customer_wrote() {
    // 20:00 on Wednesday in New York is already Thursday in UTC.
    let (mut b, _) = Booking::new(request("2024-01-03T20:00:00-05:00"));
    assert_eq!(b.request.utc_offset, -5 * 3600);
    b.step(BookingEvent::ServiceFetched(Some(service())));
    b.step(BookingEvent::AuthFetched(Some(Auth { id: 1, user_id: 7, google_id: "g-7".to_string(), refresh_token: None })));
    match b.step(BookingEvent::ActiveFetched(true)) {
        BookingAction::FetchRules { day_of_week } => assert_eq!(day_of_week, 3),
        _ => panic!("expected the rules to be fetched"),
    }
    let (mut utc, _) = Booking::new(request("2024-01-04T01:00:00Z"));
    utc.step(BookingEvent::ServiceFetched(Some(service())));
    utc.step(BookingEvent::AuthFetched(Some(Auth { id: 1, user_id: 7, google_id: "g-7".to_string(), refresh_token: None })));
    match utc.step(BookingEvent::ActiveFetched(true)) {
        BookingAction::FetchRules { day_of_week } => assert_eq!(day_of_week, 4),
        _ => panic!("expected the rules to be fetched"),
    }
}

#[test]
fn booking_through_midnight_is_refused() {
    // 16:30 New York time for sixteen hours ends at 08:30 the next day.
    let (mut b, _) = Booking::new(request("2024-01-03T21:30:00Z"));
    b.step(BookingEvent::ServiceFetched(Some(service_of(16 * 60))));
    b.step(BookingEvent::AuthFetched(Some(Auth { id: 1, user_id: 7, google_id: "g-7".to_string(), refresh_token: Some("r".to_string()) })));
    b.step(BookingEvent::ActiveFetched(true));
    assert!(matches!(
        b.step(BookingEvent::RulesFetched(nine_to_five("America/New_York"))),
        BookingAction::RollbackAndRespond
    ));
    assert_eq!(b.phase, BookingPhase::Aborted(BookingError::OutsideHours));
}

#[test]
fn booking_ending_at_close_is_accepted() {
    let mut b = up_to_rules("2024-01-03T21:30:00Z", Some("refresh"));
    assert!(matches!(
        b.step(BookingEvent::RulesFetched(nine_to_five("America/New_York"))),
        BookingAction::InsertRow { .. }
    ));
    assert_eq!(b.phase, BookingPhase::HoursValidated);
}
