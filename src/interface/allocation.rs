//! Allocations: hours planned for a member or placeholder. Endpoints and list filters.
use vstd::prelude::*;
use crate::interface::util::{LIST_LIMIT, date_text, filter_text, item_endpoint, item_path, push_filter, uuid_text, view_of};
use crate::model::enums::AssignmentType;
use crate::model::types::{Date, UUID};

verus! {

/// The collection endpoint.
pub const ENDPOINT: &'static str = "allocations";

/// The endpoint of the allocation with identifier `id`.
pub fn allocation_endpoint(id: &UUID) -> (r: String)
    ensures
        r@ == item_path(ENDPOINT@, id@),
{
    item_endpoint(ENDPOINT, id)
}

/// The query of a list request: the page size, then each given filter in order.
pub open spec fn allocations_query(assignment_type: Option<Seq<char>>, member: Option<Seq<char>>, start_date: Option<Seq<char>>, end_date: Option<Seq<char>>) -> Seq<char> {
    LIST_LIMIT@
        + filter_text("assignmentTypeId"@, assignment_type)
        + filter_text("memberId"@, member)
        + filter_text("startOnBefore"@, start_date)
        + filter_text("endOnAfter"@, end_date)
}

/// Builds the query of a list request.
pub fn allocations_params(assignment_type: Option<AssignmentType>, member: Option<UUID>, start_date: Option<Date>, end_date: Option<Date>) -> (r: String)
    ensures
        r@ == allocations_query(
            match assignment_type { Some(v) => Some(v.wire_name()), None => None },
            view_of(member),
            view_of(start_date),
            view_of(end_date),
        ),
{
    let mut params = String::from_str(LIST_LIMIT);
    let assignment_type_name = match assignment_type {
        Some(v) => Some(v.to_string()),
        None => None,
    };
    let assignment_type_text = match &assignment_type_name {
        Some(v) => Some(v.as_str()),
        None => None,
    };
    push_filter(&mut params, "assignmentTypeId", assignment_type_text);
    push_filter(&mut params, "memberId", uuid_text(&member));
    push_filter(&mut params, "startOnBefore", date_text(&start_date));
    push_filter(&mut params, "endOnAfter", date_text(&end_date));
    params
}

} // verus!
