//! Project roles. Endpoints and list filters.
use vstd::prelude::*;
use crate::interface::util::{LIST_LIMIT, filter_text, item_endpoint, item_path, push_filter, uuid_text, view_of};
use crate::model::types::UUID;

verus! {

/// The collection endpoint.
pub const ENDPOINT: &'static str = "project-roles";

/// The endpoint of the project role with identifier `id`.
pub fn role_endpoint(id: &UUID) -> (r: String)
    ensures
        r@ == item_path(ENDPOINT@, id@),
{
    item_endpoint(ENDPOINT, id)
}

/// The query of a list request: the page size, then each given filter in order.
pub open spec fn roles_query(project: Option<Seq<char>>) -> Seq<char> {
    LIST_LIMIT@
        + filter_text("projectId"@, project)
}

/// Builds the query of a list request.
pub fn roles_params(project: Option<UUID>) -> (r: String)
    ensures
        r@ == roles_query(
            view_of(project),
        ),
{
    let mut params = String::from_str(LIST_LIMIT);
    push_filter(&mut params, "projectId", uuid_text(&project));
    params
}

} // verus!
