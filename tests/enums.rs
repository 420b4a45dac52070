use ruddr::model::customer::PaymentTerms;
use ruddr::model::enums::{AssignmentType, Status};
use ruddr::model::project::BillingType;

#[test]
fn test_assignment_type_display() {
    assert_eq!(AssignmentType::TimeOff.to_string(), "time_off")
}

#[test]
fn test_status_display() {
    assert_eq!(Status::InProgress.to_string(), "in_progress")
}

#[test]
fn enum_names_read_back() {
    assert_eq!(Status::from_name("in_progress"), Some(Status::InProgress));
    assert_eq!(Status::from_name("not_started"), Some(Status::NotStarted));
    assert_eq!(Status::from_name("In_Progress"), None);
    assert_eq!(AssignmentType::from_name("project"), Some(AssignmentType::Project));
    assert_eq!(AssignmentType::from_name(""), None);
}

#[test]
fn renamed_wire_names() {
    assert_eq!(PaymentTerms::Net15.to_string(), "net_15");
    assert_eq!(PaymentTerms::from_name("due_on_receipt"), Some(PaymentTerms::DueOnReceipt));
    assert_eq!(BillingType::TimeAndMaterials.to_string(), "tm");
    assert_eq!(BillingType::from_name("fixed_recurring"), Some(BillingType::FixedRecurring));
}

#[test]
fn names_read_back() {
    use_names(&[
        (ruddr::model::member::EmploymentType::Employee.to_string(), "employee"),
        (ruddr::model::member::InvitationStatus::NotInvited.to_string(), "not_invited"),
        (ruddr::model::member::TimeOffApprovalMode::Manager.to_string(), "manager"),
        (ruddr::model::time::Type::ProjectTime.to_string(), "project_time"),
        (ruddr::model::allocation::Entity::TimeEntry.to_string(), "time_entry"),
        (ruddr::model::client::InvoiceDetailsSource::BusinessUnit.to_string(), "business_unit"),
        (ruddr::model::project::RevenueRecognitionMethod::Invoiced.to_string(), "invoiced"),
    ]);
    for v in [
        Status::Tentative,
        Status::NotStarted,
        Status::InProgress,
        Status::Paused,
        Status::Completed,
        Status::Cancelled,
    ] {
        assert_eq!(Status::from_name(&v.to_string()), Some(v));
    }
    for v in [
        PaymentTerms::DueOnReceipt,
        PaymentTerms::Net10,
        PaymentTerms::Net15,
        PaymentTerms::Net30,
        PaymentTerms::Net45,
        PaymentTerms::Net60,
        PaymentTerms::Net90,
    ] {
        assert_eq!(PaymentTerms::from_name(&v.to_string()), Some(v));
    }
}

fn use_names(pairs: &[(String, &str)]) {
    for (got, want) in pairs {
        assert_eq!(got, want);
    }
}
