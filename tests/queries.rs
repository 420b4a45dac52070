use ruddr::interface::{allocation, customer, expense_report, member, project, time};
use ruddr::model::enums::{AssignmentType, Status};
use ruddr::model::types::{Date, UUID};

fn uuid(text: &str) -> UUID {
    UUID::try_from(text).expect("identifier refused")
}

fn date(text: &str) -> Date {
    Date::try_from(text).expect("date refused")
}

#[test]
fn item_endpoints() {
    assert_eq!(
        project::project_endpoint(&uuid("095e0780-48bf-472c-8deb-2fc3ebc7d90c")),
        "projects/095e0780-48bf-472c-8deb-2fc3ebc7d90c"
    );
    assert_eq!(
        time::time_entry_endpoint(&uuid("ec5543de-3b0f-47a0-b8ef-a6e18dc4b885")),
        "time-entries/ec5543de-3b0f-47a0-b8ef-a6e18dc4b885"
    );
}

#[test]
fn list_without_filters_is_page_size_only() {
    assert_eq!(expense_report::expense_reports_params(), "limit=100");
    assert_eq!(member::members_params(None, None), "limit=100");
}

#[test]
fn list_filters_in_order() {
    assert_eq!(
        time::time_entries_params(
            Some(uuid("ec5543de-3b0f-47a0-b8ef-a6e18dc4b885")),
            None,
            Some(date("2024-01-01")),
            None,
            Some(date("2024-01-31")),
        ),
        "limit=100&memberId=ec5543de-3b0f-47a0-b8ef-a6e18dc4b885&date=2024-01-01&dateOnBefore=2024-01-31"
    );
    assert_eq!(
        project::projects_params(None, None, Some(Status::InProgress), Some("my_project")),
        "limit=100&statusId=in_progress&nameContains=my_project"
    );
    assert_eq!(
        allocation::allocations_params(Some(AssignmentType::TimeOff), None, None, None),
        "limit=100&assignmentTypeId=time_off"
    );
    assert_eq!(customer::clients_params(Some("JOE")), "limit=100&code=JOE");
}
