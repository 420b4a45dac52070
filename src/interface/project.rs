//! Projects. Endpoints and list filters.
use vstd::prelude::*;
use crate::client::request::text_of;
use crate::interface::util::{LIST_LIMIT, filter_text, item_endpoint, item_path, push_filter, uuid_text, view_of};
use crate::model::enums::Status;
use crate::model::types::UUID;

verus! {

/// The collection endpoint.
pub const ENDPOINT: &'static str = "projects";

/// The endpoint of the project with identifier `id`.
pub fn project_endpoint(id: &UUID) -> (r: String)
    ensures
        r@ == item_path(ENDPOINT@, id@),
{
    item_endpoint(ENDPOINT, id)
}

/// The query of a list request: the page size, then each given filter in order.
pub open spec fn projects_query(client_id: Option<Seq<char>>, project_type: Option<Seq<char>>, status: Option<Seq<char>>, name_contains: Option<Seq<char>>) -> Seq<char> {
    LIST_LIMIT@
        + filter_text("clientId"@, client_id)
        + filter_text("projectTypeId"@, project_type)
        + filter_text("statusId"@, status)
        + filter_text("nameContains"@, name_contains)
}

/// Builds the query of a list request.
pub fn projects_params(client_id: Option<UUID>, project_type: Option<UUID>, status: Option<Status>, name_contains: Option<&str>) -> (r: String)
    ensures
        r@ == projects_query(
            view_of(client_id),
            view_of(project_type),
            match status { Some(v) => Some(v.wire_name()), None => None },
            text_of(name_contains),
        ),
{
    let mut params = String::from_str(LIST_LIMIT);
    push_filter(&mut params, "clientId", uuid_text(&client_id));
    push_filter(&mut params, "projectTypeId", uuid_text(&project_type));
    let status_name = match status {
        Some(v) => Some(v.to_string()),
        None => None,
    };
    let status_text = match &status_name {
        Some(v) => Some(v.as_str()),
        None => None,
    };
    push_filter(&mut params, "statusId", status_text);
    push_filter(&mut params, "nameContains", name_contains);
    params
}

} // verus!
