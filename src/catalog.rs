//! Rules on the services a business offers.
use vstd::prelude::*;
use crate::model::Service;

verus! {

/// The text with its leading and trailing whitespace removed.
pub uninterp spec fn trimmed_of(s: Seq<char>) -> Seq<char>;

/// Relies on `str::trim`: the result depends on the text alone.
#[verifier::external_body]
fn trim_text(s: &str) -> (r: &str)
    ensures
        r@ == trimmed_of(s@),
{
    s.trim()
}

/// The name a service is stored under: the given name without surrounding
/// whitespace; none when nothing is left of it.
pub fn clean_service_name(name: &str) -> (r: Option<String>)
    ensures
        match r {
            Some(n) => n@ == trimmed_of(name@) && n@.len() > 0,
            None => trimmed_of(name@).len() == 0,
        },
{
    let trimmed = trim_text(name);
    if trimmed.is_empty() {
        None
    } else {
        Some(String::from_str(trimmed))
    }
}

/// A change of name asked for in an update: a name that is blank once
/// trimmed leaves the stored name as it is.
pub fn clean_name_update(name: &Option<String>) -> (r: Option<String>)
    ensures
        match name {
            Some(given) => match r {
                Some(n) => n@ == trimmed_of(given@) && n@.len() > 0,
                None => trimmed_of(given@).len() == 0,
            },
            None => r is None,
        },
{
    match name {
        Some(given) => clean_service_name(given.as_str()),
        None => None,
    }
}

/// Whether the user `user_id` may change or remove a service owned by
/// `owner_id`.
pub fn may_edit(owner_id: u128, user_id: u128) -> (r: bool)
    ensures
        r == (owner_id == user_id),
{
    owner_id == user_id
}

/// The HTTP status a service is shown with, given whether its owner is
/// active (none when the owner could not be found): shown when active,
/// forbidden when not, not found otherwise.
pub fn service_view_status(owner_active: Option<bool>) -> (r: u16)
    ensures
        r == match owner_active {
            Some(true) => 200u16,
            Some(false) => 403u16,
            None => 404u16,
        },
{
    match owner_active {
        Some(true) => 200,
        Some(false) => 403,
        None => 404,
    }
}

/// Positions, in order, of the first `n` services that `owner_id` owns.
pub open spec fn owned_positions(owner_id: u128, services: Seq<Service>, n: int) -> Seq<usize>
    decreases n,
{
    if n <= 0 {
        Seq::empty()
    } else if services[n - 1].user_id == owner_id {
        owned_positions(owner_id, services, n - 1).push((n - 1) as usize)
    } else {
        owned_positions(owner_id, services, n - 1)
    }
}

/// The positions in `services`, in order, of the services `owner_id` owns.
pub fn services_owned_by(owner_id: u128, services: &Vec<Service>) -> (r: Vec<usize>)
    ensures
        r@ == owned_positions(owner_id, services@, services@.len() as int),
{
    let mut out: Vec<usize> = Vec::new();
    let mut i: usize = 0;
    while i < services.len()
        invariant
            i <= services@.len(),
            out@ == owned_positions(owner_id, services@, i as int),
        decreases services@.len() - i,
    {
        if services[i].user_id == owner_id {
            out.push(i);
        }
        i = i + 1;
    }
    out
}

} // verus!
