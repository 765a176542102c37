use slotbook::account::{account_email, account_name, session_expiry, SESSION_LIFETIME_SECS};
use slotbook::availability::UtcWindow;
use slotbook::calendar::{booking_event, free_busy_request, FreeBusyCalendar, FreeBusyResponse, FreeBusyTime};
use slotbook::catalog::{clean_name_update, clean_service_name, may_edit, service_view_status, services_owned_by};
use slotbook::clock::{
    format_instant, parse_calendar_day, parse_instant, parse_offset, parse_time_of_day,
    weekday_at_offset, CalendarDay,
};
use slotbook::media::{public_object_url, service_image_path, UploadTarget};
use slotbook::model::{CreateAppointment, GoogleUserInfo, Service, UploadQuery};
use slotbook::response::error_body;
use slotbook::schedule::{parse_weekly_schedule, AvailabilitySlot, RuleFault, ScheduleError, SetAvailability};
use slotbook::zone::{local_to_utc, utc_to_local, zone_is_known, ZoneError};

fn slot(day: i32, open: &str, close: &str) -> AvailabilitySlot {
    AvailabilitySlot {
        day_of_week: day,
        open_time: open.to_string(),
        close_time: close.to_string(),
        time_zone: "Europe/Berlin".to_string(),
    }
}

#[test]
fn calendar_days_and_weekdays() {
    let day = parse_calendar_day("2024-01-03").unwrap();
    assert_eq!(day, CalendarDay { julian_day: 2460313 });
    assert_eq!(day.weekday(), 3);
    assert_eq!(day.midnight(), parse_instant("2024-01-03T00:00:00Z").unwrap());
    assert_eq!(parse_calendar_day("1970-01-01").unwrap().midnight(), 0);
    assert_eq!(parse_calendar_day("2024-01-07").unwrap().weekday(), 7);
    assert_eq!(parse_calendar_day("2024-01-08").unwrap().weekday(), 1);
    assert!(parse_calendar_day("2024-02-30").is_none());
    assert_eq!(weekday_at_offset(0, 0), 4);
    assert_eq!(weekday_at_offset(-1, 0), 3);
    assert_eq!(weekday_at_offset(parse_instant("2024-01-03T23:59:59Z").unwrap(), 0), 3);
    assert!((1..=7).contains(&weekday_at_offset(i64::MIN, 0)));
    assert_eq!(weekday_at_offset(0, -1), 3);
    assert_eq!(weekday_at_offset(0, 86_400), 5);
    assert_eq!(weekday_at_offset(i64::MAX, i32::MAX), weekday_at_offset(i64::MAX, i32::MAX));
}

#[test]
fn times_of_day_and_instants() {
    assert_eq!(parse_time_of_day("09:30:15"), Some(9 * 3600 + 30 * 60 + 15));
    assert_eq!(parse_time_of_day("24:00:00"), None);
    assert_eq!(parse_time_of_day("9am"), None);
    assert_eq!(parse_instant("2024-01-03T09:00:00-05:00"), Some(1704290400));
    assert_eq!(parse_instant("not a time"), None);
    assert_eq!(parse_offset("2024-01-03T09:00:00-05:00"), Some(-5 * 3600));
    assert_eq!(parse_offset("2024-01-03T09:00:00+05:30"), Some(5 * 3600 + 1800));
    assert_eq!(parse_offset("2024-01-03T09:00:00Z"), Some(0));
    assert_eq!(parse_offset("not a time"), None);
    assert_eq!(format_instant(1704290400).unwrap(), "2024-01-03T14:00:00Z");
    assert!(format_instant(i64::MAX).is_none());
}

#[test]
fn zone_conversion() {
    assert!(zone_is_known("America/New_York"));
    assert!(!zone_is_known("America/Nowhere"));
    let local_nine = parse_instant("2024-01-03T09:00:00Z").unwrap();
    assert_eq!(local_to_utc(local_nine, "America/New_York"), Ok(local_nine + 5 * 3600));
    assert_eq!(utc_to_local(local_nine + 5 * 3600, "America/New_York"), Ok(local_nine));
    assert_eq!(local_to_utc(local_nine, "America/Nowhere"), Err(ZoneError::InvalidTimeZone));
    assert_eq!(utc_to_local(0, "America/Nowhere"), Err(ZoneError::InvalidTimeZone));
    // The last second chrono can hold has no reading ahead of UTC.
    let last = chrono::NaiveDateTime::MAX.and_utc().timestamp();
    assert_eq!(utc_to_local(last, "Asia/Tokyo"), Err(ZoneError::Unresolved));
    assert_eq!(utc_to_local(last, "UTC"), Ok(last));
    // 02:30 on 2024-03-10 does not exist in New York: it is skipped forward
    // to 03:30 EDT.
    let gap = parse_instant("2024-03-10T02:30:00Z").unwrap();
    assert_eq!(local_to_utc(gap, "America/New_York"), Ok(parse_instant("2024-03-10T07:30:00Z").unwrap()));
    assert_eq!(local_to_utc(i64::MAX, "America/New_York"), Err(ZoneError::Unresolved));
    // 01:30 on 2024-11-03 happens twice; the later offset (EST) is taken.
    let fold = parse_instant("2024-11-03T01:30:00Z").unwrap();
    assert_eq!(local_to_utc(fold, "America/New_York"), Ok(fold + 5 * 3600));
}

#[test]
fn weekly_schedule_is_parsed() {
    let schedule = SetAvailability { rules: vec![slot(1, "09:00:00", "12:00:00"), slot(1, "13:00:00", "17:30:00")] };
    let rules = parse_weekly_schedule(5, &schedule).unwrap();
    assert_eq!(rules.len(), 2);
    assert_eq!(rules[1].business_id, 5);
    assert_eq!(rules[1].day_of_week, 1);
    assert_eq!(rules[1].open_time, 13 * 3600);
    assert_eq!(rules[1].close_time, 17 * 3600 + 1800);
    assert_eq!(rules[1].time_zone, "Europe/Berlin");
    assert!(parse_weekly_schedule(5, &SetAvailability { rules: vec![] }).unwrap().is_empty());
}

#[test]
fn weekly_schedule_faults() {
    let err = |rules: Vec<AvailabilitySlot>| parse_weekly_schedule(5, &SetAvailability { rules }).err();
    assert_eq!(
        err(vec![slot(1, "09:00:00", "12:00:00"), slot(2, "9", "12:00:00")]),
        Some(ScheduleError { index: 1, fault: RuleFault::BadOpenTime })
    );
    assert_eq!(err(vec![slot(2, "09:00:00", "noon")]), Some(ScheduleError { index: 0, fault: RuleFault::BadCloseTime }));
    assert_eq!(err(vec![slot(8, "09:00:00", "12:00:00")]), Some(ScheduleError { index: 0, fault: RuleFault::BadDay }));
    assert_eq!(err(vec![slot(0, "09:00:00", "12:00:00")]), Some(ScheduleError { index: 0, fault: RuleFault::BadDay }));
    assert_eq!(
        err(vec![slot(3, "12:00:00", "12:00:00")]),
        Some(ScheduleError { index: 0, fault: RuleFault::OpenNotBeforeClose })
    );
}

#[test]
fn failure_bodies() {
    let refused = error_body(400, "Requested slot is outside operating hours.".to_string());
    assert!(!refused.success);
    assert!(refused.data.is_none());
    assert_eq!(refused.message.unwrap(), "Requested slot is outside operating hours.");
    let failed = error_body(500, "connection reset".to_string());
    assert_eq!(failed.message.unwrap(), "Something went wrong on our end");
}

#[test]
fn account_defaults() {
    let bare = GoogleUserInfo { sub: "1234".to_string(), email: None, name: None };
    assert_eq!(account_email(&bare), "user_1234@example.com");
    assert_eq!(account_name(&bare), "My Business");
    let full = GoogleUserInfo { sub: "1234".to_string(), email: Some("a@b.c".to_string()), name: Some("Cuts".to_string()) };
    assert_eq!(account_email(&full), "a@b.c");
    assert_eq!(account_name(&full), "Cuts");
    assert_eq!(session_expiry(1_000), Some(1_000 + 604_800));
    assert_eq!(SESSION_LIFETIME_SECS, 604_800);
    assert_eq!(session_expiry(i64::MAX - 10), None);
}

#[test]
fn upload_targets_and_paths() {
    let q = |t: &str| UploadQuery { upload_type: t.to_string() };
    assert_eq!(UploadTarget::from_query(&q("cover")), Some(UploadTarget::Cover));
    assert_eq!(UploadTarget::from_query(&q("profile")), Some(UploadTarget::Profile));
    assert_eq!(UploadTarget::from_query(&q("avatar")), None);
    assert_eq!(UploadTarget::Cover.column(), "cover_image_url");
    assert_eq!(UploadTarget::Profile.column(), "profile_image_url");
    assert_eq!(UploadTarget::Cover.object_path("u1"), "users/u1/cover.jpg");
    assert_eq!(UploadTarget::Profile.object_path("u1"), "users/u1/profile.jpg");
    assert_eq!(service_image_path("s9"), "services/s9/image.jpg");
    assert_eq!(public_object_url("bkt", "services/s9/image.jpg"), "https://storage.googleapis.com/bkt/services/s9/image.jpg");
}

#[test]
fn service_names_and_ownership() {
    assert_eq!(clean_service_name("  Haircut \n"), Some("Haircut".to_string()));
    assert_eq!(clean_service_name("   "), None);
    assert_eq!(clean_name_update(&Some(" Shave ".to_string())), Some("Shave".to_string()));
    assert_eq!(clean_name_update(&Some("\t".to_string())), None);
    assert_eq!(clean_name_update(&None), None);
    assert!(may_edit(4, 4));
    assert!(!may_edit(4, 5));
    assert_eq!(service_view_status(Some(true)), 200);
    assert_eq!(service_view_status(Some(false)), 403);
    assert_eq!(service_view_status(None), 404);
    let svc = |id: u128, owner: u128| Service {
        id,
        user_id: owner,
        service_name: "x".to_string(),
        description: None,
        duration_minutes: None,
        category: None,
    };
    let services = vec![svc(1, 7), svc(2, 8), svc(3, 7)];
    assert_eq!(services_owned_by(7, &services), vec![0, 2]);
    assert_eq!(services_owned_by(9, &services), Vec::<usize>::new());
}

#[test]
fn calendar_payloads() {
    let window = UtcWindow { start: 1704258000, end: 1704344400 };
    let q = free_busy_request(&window).unwrap();
    assert_eq!(q.time_min, "2024-01-03T05:00:00Z");
    assert_eq!(q.time_max, "2024-01-04T05:00:00Z");
    assert_eq!(q.items.len(), 1);
    assert_eq!(q.items[0].id, "primary");
    assert!(free_busy_request(&UtcWindow { start: i64::MAX, end: i64::MAX }).is_none());
    let req = CreateAppointment {
        service_id: 1,
        business_id: 2,
        customer_name: "Bo".to_string(),
        customer_email: None,
        customer_phone: Some("555".to_string()),
        appointment_start_time: 0,
        utc_offset: 0,
        notes: None,
    };
    let ev = booking_event("Massage", &req, 0, 3600).unwrap();
    assert_eq!(ev.summary, "Appointment Scheduled: Massage for Bo");
    assert_eq!(ev.description, "Service: Massage\nCustomer Phone: 555\nCustomer Email: N/A\nNote: N/A");
    assert_eq!(ev.end.date_time, "1970-01-01T01:00:00Z");
    assert_eq!(ev.attendees[0].email, "");
    assert!(booking_event("Massage", &req, 0, i64::MAX).is_none());
}

#[test]
fn primary_calendar_is_picked() {
    let cal = |start: &str| FreeBusyCalendar {
        busy: vec![FreeBusyTime { start: start.to_string(), end: "2024-01-03T18:00:00Z".to_string() }],
    };
    let resp = FreeBusyResponse {
        calendars: vec![
            ("team@example.com".to_string(), cal("2024-01-03T10:00:00Z")),
            ("primary".to_string(), cal("2024-01-03T17:00:00Z")),
        ],
    };
    assert_eq!(resp.primary().unwrap().busy[0].start, "2024-01-03T17:00:00Z");
    let none = FreeBusyResponse { calendars: vec![("other".to_string(), cal("2024-01-03T10:00:00Z"))] };
    assert!(none.primary().is_none());
}
