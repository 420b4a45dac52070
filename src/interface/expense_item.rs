//! Expense items: single expenses within a report. Endpoints and list filters.
use vstd::prelude::*;
use crate::interface::util::{LIST_LIMIT, filter_text, item_endpoint, item_path, push_filter, uuid_text, view_of};
use crate::model::types::UUID;

verus! {

/// The collection endpoint.
pub const ENDPOINT: &'static str = "expense-items";

/// The endpoint of the expense item with identifier `id`.
pub fn expense_item_endpoint(id: &UUID) -> (r: String)
    ensures
        r@ == item_path(ENDPOINT@, id@),
{
    item_endpoint(ENDPOINT, id)
}

/// The query of a list request: the page size, then each given filter in order.
pub open spec fn expense_items_query(expense_report: Option<Seq<char>>) -> Seq<char> {
    LIST_LIMIT@
        + filter_text("expenseReportId"@, expense_report)
}

/// Builds the query of a list request.
pub fn expense_items_params(expense_report: Option<UUID>) -> (r: String)
    ensures
        r@ == expense_items_query(
            view_of(expense_report),
        ),
{
    let mut params = String::from_str(LIST_LIMIT);
    push_filter(&mut params, "expenseReportId", uuid_text(&expense_report));
    params
}

} // verus!
