//! Cost periods: a member's hourly cost over a span of dates. Endpoints and list filters.
use vstd::prelude::*;
use crate::interface::util::{LIST_LIMIT, filter_text, item_endpoint, item_path, push_filter, uuid_text, view_of};
use crate::model::types::UUID;

verus! {

/// The collection endpoint.
pub const ENDPOINT: &'static str = "cost-periods";

/// The endpoint of the cost with identifier `id`.
pub fn cost_endpoint(id: &UUID) -> (r: String)
    ensures
        r@ == item_path(ENDPOINT@, id@),
{
    item_endpoint(ENDPOINT, id)
}

/// The query of a list request: the page size, then each given filter in order.
pub open spec fn costs_query(member_id: Option<Seq<char>>) -> Seq<char> {
    LIST_LIMIT@
        + filter_text("memberId"@, member_id)
}

/// Builds the query of a list request.
pub fn costs_params(member_id: Option<UUID>) -> (r: String)
    ensures
        r@ == costs_query(
            view_of(member_id),
        ),
{
    let mut params = String::from_str(LIST_LIMIT);
    push_filter(&mut params, "memberId", uuid_text(&member_id));
    params
}

} // verus!
