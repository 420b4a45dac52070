//! Clients of the workspace. Endpoints and list filters.
use vstd::prelude::*;
use crate::client::request::text_of;
use crate::interface::util::{LIST_LIMIT, filter_text, item_endpoint, item_path, push_filter};
use crate::model::types::UUID;

verus! {

/// The collection endpoint.
pub const ENDPOINT: &'static str = "clients";

/// The endpoint of the client with identifier `id`.
pub fn customer_endpoint(id: &UUID) -> (r: String)
    ensures
        r@ == item_path(ENDPOINT@, id@),
{
    item_endpoint(ENDPOINT, id)
}

/// The query of a list request: the page size, then each given filter in order.
pub open spec fn clients_query(code: Option<Seq<char>>) -> Seq<char> {
    LIST_LIMIT@
        + filter_text("code"@, code)
}

/// Builds the query of a list request.
pub fn clients_params(code: Option<&str>) -> (r: String)
    ensures
        r@ == clients_query(
            text_of(code),
        ),
{
    let mut params = String::from_str(LIST_LIMIT);
    push_filter(&mut params, "code", code);
    params
}

} // verus!
