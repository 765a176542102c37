//! Records read from and written to the store, and the response envelope.
use vstd::prelude::*;

verus! {

/// Settings the service is started with.
#[derive(Clone, Debug)]
pub struct Config {
    pub database_url: String,
    pub jwt_secret: String,
    pub google_client_id: String,
    pub google_client_secret: String,
    pub google_redirect_uri: String,
    pub port: u16,
    pub gcs_bucket_name: String,
    pub google_service_account_path: String,
    pub redis_url: String,
}

/// A bookable service of a business.
#[derive(Clone, Debug)]
pub struct Service {
    pub id: u128,
    pub user_id: u128,
    pub service_name: String,
    pub description: Option<String>,
    pub duration_minutes: Option<i32>,
    pub category: Option<String>,
}

/// The calendar credential of the business `user_id`; `refresh_token` is
/// unset when the business has no live calendar connection.
#[derive(Clone, Debug)]
pub struct Auth {
    pub id: u128,
    pub user_id: u128,
    pub google_id: String,
    pub refresh_token: Option<String>,
}

/// A booked appointment; both times are UTC instants in Unix seconds.
#[derive(Clone, Debug)]
pub struct Appointment {
    pub id: u128,
    pub service_id: u128,
    pub business_id: u128,
    pub customer_name: String,
    pub customer_email: Option<String>,
    pub customer_phone: Option<String>,
    pub appointment_start_time: i64,
    pub appointment_end_time: i64,
    pub notes: Option<String>,
}

/// A booking as requested by a customer; the start is a UTC instant in Unix
/// seconds, and `utc_offset` the offset from UTC, in seconds, that the
/// customer wrote it with.
#[derive(Clone, Debug)]
pub struct CreateAppointment {
    pub service_id: u128,
    pub business_id: u128,
    pub customer_name: String,
    pub customer_email: Option<String>,
    pub customer_phone: Option<String>,
    pub appointment_start_time: i64,
    pub utc_offset: i32,
    pub notes: Option<String>,
}

/// The envelope of every response body.
#[derive(Clone, Debug)]
pub struct ApiResponse<T> {
    pub success: bool,
    pub data: Option<T>,
    pub message: Option<String>,
}

/// A free slot as reported to callers, both ends in RFC 3339 form.
#[derive(Clone, Debug)]
pub struct TimeSlot {
    pub start_time: String,
    pub end_time: String,
}

/// The authorization code handed over by the sign-in page.
#[derive(Clone, Debug)]
pub struct GoogleCode {
    pub code: String,
}

/// The account details the identity provider reports.
#[derive(Clone, Debug)]
pub struct GoogleUserInfo {
    pub sub: String,
    pub email: Option<String>,
    pub name: Option<String>,
}

/// The profile fields a business may change; unset ones are kept.
#[derive(Clone, Debug)]
pub struct UpdateUser {
    pub username: Option<String>,
    pub business_name: Option<String>,
    pub email: Option<String>,
    pub location: Option<String>,
    pub phone_number: Option<String>,
    pub description: Option<String>,
    pub phone_number_is_whatsapp: Option<bool>,
}

/// The kind of image an upload URL is requested for, as sent.
#[derive(Clone, Debug)]
pub struct UploadQuery {
    pub upload_type: String,
}

/// A signed URL to upload to, and the URL the upload will be served from.
#[derive(Clone, Debug)]
pub struct UploadResponse {
    pub signed_upload_url: String,
    pub public_url: String,
}

} // verus!
