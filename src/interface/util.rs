//! Pieces shared by the resource modules: item endpoints and query filters.
use vstd::prelude::*;
use crate::client::request::text_of;
use crate::model::types::{is_calendar_date, matches_template, Date, UUID};

verus! {

/// Every list request asks for one page of this size.
pub const LIST_LIMIT: &'static str = "limit=100";

/// The text of each present value.
pub open spec fn view_of<T: View<V = Seq<char>>>(o: Option<T>) -> Option<Seq<char>> {
    match o {
        Some(v) => Some(v@),
        None => None,
    }
}

/// `&<key>=<value>` for a present value, nothing for an absent one.
pub open spec fn filter_text(key: Seq<char>, value: Option<Seq<char>>) -> Seq<char> {
    match value {
        Some(v) => "&"@ + key + "="@ + v,
        None => Seq::empty(),
    }
}

/// `<collection>/<id>`.
pub open spec fn item_path(collection: Seq<char>, id: Seq<char>) -> Seq<char> {
    collection + "/"@ + id
}

/// Appends one optional filter to a query string.
pub fn push_filter(params: &mut String, key: &str, value: Option<&str>)
    ensures
        final(params)@ == old(params)@ + filter_text(key@, text_of(value)),
{
    match value {
        Some(v) => {
            params.append("&");
            params.append(key);
            params.append("=");
            params.append(v);
        },
        None => {
            assert(old(params)@ + Seq::<char>::empty() =~= old(params)@);
        },
    }
}

/// The endpoint of one record of a collection.
pub fn item_endpoint(collection: &str, id: &UUID) -> (r: String)
    ensures
        r@ == item_path(collection@, id@),
{
    let mut r = String::from_str(collection);
    r.append("/");
    r.append(id.as_str());
    r
}

/// The text of an optional identifier.
pub fn uuid_text(id: &Option<UUID>) -> (r: Option<&str>)
    ensures
        text_of(r) == view_of(*id),
{
    match id {
        Some(v) => Some(v.as_str()),
        None => None,
    }
}

/// The text of an optional date.
pub fn date_text(date: &Option<Date>) -> (r: Option<&str>)
    ensures
        text_of(r) == view_of(*date),
{
    match date {
        Some(v) => Some(v.as_str()),
        None => None,
    }
}

/// Accepts a string in `YYYY-MM-DD` form and hands it back.
pub fn validate_date(date: &str) -> (r: Result<&str, String>)
    ensures
        r is Ok <==> is_calendar_date(date@),
        r matches Ok(d) ==> d@ == date@,
        r matches Err(m) ==> m@ == "invalid date"@,
{
    if matches_template(date, "####-##-##") {
        Ok(date)
    } else {
        Err(String::from_str("invalid date"))
    }
}

} // verus!
