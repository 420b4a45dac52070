//! Workspace members. Endpoints and list filters.
use vstd::prelude::*;
use crate::client::request::text_of;
use crate::interface::util::{LIST_LIMIT, filter_text, item_endpoint, item_path, push_filter};
use crate::model::types::UUID;

verus! {

/// The collection endpoint.
pub const ENDPOINT: &'static str = "members";

/// The endpoint of the member with identifier `id`.
pub fn member_endpoint(id: &UUID) -> (r: String)
    ensures
        r@ == item_path(ENDPOINT@, id@),
{
    item_endpoint(ENDPOINT, id)
}

/// The query of a list request: the page size, then each given filter in order.
pub open spec fn members_query(name_contains: Option<Seq<char>>, email_contains: Option<Seq<char>>) -> Seq<char> {
    LIST_LIMIT@
        + filter_text("nameContains"@, name_contains)
        + filter_text("emailContains"@, email_contains)
}

/// Builds the query of a list request.
pub fn members_params(name_contains: Option<&str>, email_contains: Option<&str>) -> (r: String)
    ensures
        r@ == members_query(
            text_of(name_contains),
            text_of(email_contains),
        ),
{
    let mut params = String::from_str(LIST_LIMIT);
    push_filter(&mut params, "nameContains", name_contains);
    push_filter(&mut params, "emailContains", email_contains);
    params
}

} // verus!
