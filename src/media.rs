//! Where uploaded images go.
use vstd::prelude::*;
use crate::model::UploadQuery;

verus! {

/// The image of a business an upload is for.
#[derive(Clone, Copy, Debug, PartialEq, Eq, Structural)]
pub enum UploadTarget {
    Profile,
    Cover,
}

/// The target named by the text of a query, if it names one.
pub open spec fn spec_upload_target(kind: Seq<char>) -> Option<UploadTarget> {
    if kind == "profile"@ {
        Some(UploadTarget::Profile)
    } else if kind == "cover"@ {
        Some(UploadTarget::Cover)
    } else {
        None
    }
}

pub open spec fn spec_target_file(t: UploadTarget) -> Seq<char> {
    match t {
        UploadTarget::Profile => "profile.jpg"@,
        UploadTarget::Cover => "cover.jpg"@,
    }
}

pub open spec fn spec_target_column(t: UploadTarget) -> Seq<char> {
    match t {
        UploadTarget::Profile => "profile_image_url"@,
        UploadTarget::Cover => "cover_image_url"@,
    }
}

impl UploadTarget {
    /// The target an upload query names: `profile` or `cover`.
    pub fn from_query(query: &UploadQuery) -> (r: Option<UploadTarget>)
        ensures
            r == spec_upload_target(query.upload_type@),
    {
        if query.upload_type == String::from_str("profile") {
            Some(UploadTarget::Profile)
        } else if query.upload_type == String::from_str("cover") {
            Some(UploadTarget::Cover)
        } else {
            None
        }
    }

    /// The profile field that records the target's public URL.
    pub fn column(&self) -> (r: &'static str)
        ensures
            r@ == spec_target_column(*self),
    {
        match self {
            UploadTarget::Profile => "profile_image_url",
            UploadTarget::Cover => "cover_image_url",
        }
    }

    /// The object path of the target's image for the user `user_id`.
    pub fn object_path(&self, user_id: &str) -> (r: String)
        ensures
            r@ == "users/"@ + user_id@ + "/"@ + spec_target_file(*self),
    {
        let file = match self {
            UploadTarget::Profile => "profile.jpg",
            UploadTarget::Cover => "cover.jpg",
        };
        String::from_str("users/").concat(user_id).concat("/").concat(file)
    }
}

/// The object path of the image of the service `service_id`.
pub fn service_image_path(service_id: &str) -> (r: String)
    ensures
        r@ == "services/"@ + service_id@ + "/image.jpg"@,
{
    String::from_str("services/").concat(service_id).concat("/image.jpg")
}

/// The public URL of the object `path` in the bucket `bucket`.
pub fn public_object_url(bucket: &str, path: &str) -> (r: String)
    ensures
        r@ == "https://storage.googleapis.com/"@ + bucket@ + "/"@ + path@,
{
    String::from_str("https://storage.googleapis.com/").concat(bucket).concat("/").concat(path)
}

} // verus!
