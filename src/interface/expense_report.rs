//! Expense reports. Endpoints and list filters.
use vstd::prelude::*;
use crate::interface::util::{LIST_LIMIT, item_endpoint, item_path};
use crate::model::types::UUID;

verus! {

/// The collection endpoint.
pub const ENDPOINT: &'static str = "expense-reports";

/// The endpoint of the expense report with identifier `id`.
pub fn expense_report_endpoint(id: &UUID) -> (r: String)
    ensures
        r@ == item_path(ENDPOINT@, id@),
{
    item_endpoint(ENDPOINT, id)
}

/// The query of a list request: the page size, then each given filter in order.
pub open spec fn expense_reports_query() -> Seq<char> {
    LIST_LIMIT@
}

/// Builds the query of a list request.
pub fn expense_reports_params() -> (r: String)
    ensures
        r@ == expense_reports_query(),
{
    String::from_str(LIST_LIMIT)
}

} // verus!
