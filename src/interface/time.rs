//! Time entries. Endpoints and list filters.
use vstd::prelude::*;
use crate::interface::util::{LIST_LIMIT, date_text, filter_text, item_endpoint, item_path, push_filter, uuid_text, view_of};
use crate::model::types::{Date, UUID};

verus! {

/// The collection endpoint.
pub const ENDPOINT: &'static str = "time-entries";

/// The endpoint of the time entry with identifier `id`.
pub fn time_entry_endpoint(id: &UUID) -> (r: String)
    ensures
        r@ == item_path(ENDPOINT@, id@),
{
    item_endpoint(ENDPOINT, id)
}

/// The query of a list request: the page size, then each given filter in order.
pub open spec fn time_entries_query(member: Option<Seq<char>>, project: Option<Seq<char>>, date: Option<Seq<char>>, begin_date: Option<Seq<char>>, end_date: Option<Seq<char>>) -> Seq<char> {
    LIST_LIMIT@
        + filter_text("memberId"@, member)
        + filter_text("projectId"@, project)
        + filter_text("date"@, date)
        + filter_text("dateOnAfter"@, begin_date)
        + filter_text("dateOnBefore"@, end_date)
}

/// Builds the query of a list request.
pub fn time_entries_params(member: Option<UUID>, project: Option<UUID>, date: Option<Date>, begin_date: Option<Date>, end_date: Option<Date>) -> (r: String)
    ensures
        r@ == time_entries_query(
            view_of(member),
            view_of(project),
            view_of(date),
            view_of(begin_date),
            view_of(end_date),
        ),
{
    let mut params = String::from_str(LIST_LIMIT);
    push_filter(&mut params, "memberId", uuid_text(&member));
    push_filter(&mut params, "projectId", uuid_text(&project));
    push_filter(&mut params, "date", date_text(&date));
    push_filter(&mut params, "dateOnAfter", date_text(&begin_date));
    push_filter(&mut params, "dateOnBefore", date_text(&end_date));
    params
}

} // verus!
