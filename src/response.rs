//! The bodies of failed responses.
use vstd::prelude::*;
use crate::model::ApiResponse;

verus! {

/// What a caller is told of a failure on the server's side; the detail stays
/// in the server's log.
pub open spec fn internal_error_message() -> Seq<char> {
    "Something went wrong on our end"@
}

/// The body of a failed response with `status`: the message is passed on
/// for a refusal (below 500), and replaced by a fixed one otherwise.
pub fn error_body(status: u16, message: String) -> (r: ApiResponse<()>)
    ensures
        !r.success,
        r.data is None,
        match r.message {
            Some(m) => if status >= 500 {
                m@ == internal_error_message()
            } else {
                m == message
            },
            None => false,
        },
{
    let shown = if status >= 500 {
        String::from_str("Something went wrong on our end")
    } else {
        message
    };
    ApiResponse { success: false, data: None, message: Some(shown) }
}

} // verus!
