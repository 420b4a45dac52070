//! Utilization target periods of members. Endpoints and list filters.
use vstd::prelude::*;
use crate::interface::util::{LIST_LIMIT, filter_text, item_endpoint, item_path, push_filter, uuid_text, view_of};
use crate::model::types::UUID;

verus! {

/// The collection endpoint.
pub const ENDPOINT: &'static str = "utilization-target-periods";

/// The endpoint of the utilization target period with identifier `id`.
pub fn utilization_endpoint(id: &UUID) -> (r: String)
    ensures
        r@ == item_path(ENDPOINT@, id@),
{
    item_endpoint(ENDPOINT, id)
}

/// The query of a list request: the page size, then each given filter in order.
pub open spec fn utilizations_query(member: Option<Seq<char>>) -> Seq<char> {
    LIST_LIMIT@
        + filter_text("memberId"@, member)
}

/// Builds the query of a list request.
pub fn utilizations_params(member: Option<UUID>) -> (r: String)
    ensures
        r@ == utilizations_query(
            view_of(member),
        ),
{
    let mut params = String::from_str(LIST_LIMIT);
    push_filter(&mut params, "memberId", uuid_text(&member));
    params
}

} // verus!
