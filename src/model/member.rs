//! Enumerations of the member record.
//! Each value travels as a fixed lowercase name; `to_string` and `from_name`
//! convert in both directions.
use vstd::prelude::*;
use crate::text::same_text;

verus! {

/// Where a member's invitation stands.
#[derive(Debug, Clone, Copy, PartialEq, Eq)]
pub enum InvitationStatus {
    NotInvited,
    Invited,
    Accepted,
}

impl InvitationStatus {
    /// The name under which the value travels.
    pub open spec fn wire_name(self) -> Seq<char> {
        match self {
            InvitationStatus::NotInvited => "not_invited"@,
            InvitationStatus::Invited => "invited"@,
            InvitationStatus::Accepted => "accepted"@,
        }
    }

    /// Distinct values travel under distinct names.
    pub proof fn wire_names_distinct(a: InvitationStatus, b: InvitationStatus)
        ensures
            a.wire_name() == b.wire_name() ==> a == b,
    {
        reveal_strlit("not_invited");
        reveal_strlit("invited");
        reveal_strlit("accepted");
        assert("not_invited"@.len() == 11);
        assert("invited"@.len() == 7);
        assert("accepted"@.len() == 8);
    }

    /// The wire name, unquoted.
    pub fn to_string(&self) -> (r: String)
        ensures
            r@ == self.wire_name(),
    {
        match self {
            InvitationStatus::NotInvited => String::from_str("not_invited"),
            InvitationStatus::Invited => String::from_str("invited"),
            InvitationStatus::Accepted => String::from_str("accepted"),
        }
    }

    /// The value with wire name `name`, if any.
    pub fn from_name(name: &str) -> (r: Option<InvitationStatus>)
        ensures
            forall|v: InvitationStatus| r == Some(v) <==> v.wire_name() == name@,
    {
        let r = if same_text(name, "not_invited") {
            Some(InvitationStatus::NotInvited)
        } else if same_text(name, "invited") {
            Some(InvitationStatus::Invited)
        } else if same_text(name, "accepted") {
            Some(InvitationStatus::Accepted)
        } else {
            None
        };
        proof {
            assert forall|v: InvitationStatus| r == Some(v) <==> v.wire_name() == name@ by {
                if let Some(w) = r {
                    InvitationStatus::wire_names_distinct(v, w);
                }
            }
        }
        r
    }
}

/// How a member is employed.
#[derive(Debug, Clone, Copy, PartialEq, Eq)]
pub enum EmploymentType {
    Employee,
    Contractor,
    Other,
}

impl EmploymentType {
    /// The name under which the value travels.
    pub open spec fn wire_name(self) -> Seq<char> {
        match self {
            EmploymentType::Employee => "employee"@,
            EmploymentType::Contractor => "contractor"@,
            EmploymentType::Other => "other"@,
        }
    }

    /// Distinct values travel under distinct names.
    pub proof fn wire_names_distinct(a: EmploymentType, b: EmploymentType)
        ensures
            a.wire_name() == b.wire_name() ==> a == b,
    {
        reveal_strlit("employee");
        reveal_strlit("contractor");
        reveal_strlit("other");
        assert("employee"@.len() == 8);
        assert("contractor"@.len() == 10);
        assert("other"@.len() == 5);
    }

    /// The wire name, unquoted.
    pub fn to_string(&self) -> (r: String)
        ensures
            r@ == self.wire_name(),
    {
        match self {
            EmploymentType::Employee => String::from_str("employee"),
            EmploymentType::Contractor => String::from_str("contractor"),
            EmploymentType::Other => String::from_str("other"),
        }
    }

    /// The value with wire name `name`, if any.
    pub fn from_name(name: &str) -> (r: Option<EmploymentType>)
        ensures
            forall|v: EmploymentType| r == Some(v) <==> v.wire_name() == name@,
    {
        let r = if same_text(name, "employee") {
            Some(EmploymentType::Employee)
        } else if same_text(name, "contractor") {
            Some(EmploymentType::Contractor)
        } else if same_text(name, "other") {
            Some(EmploymentType::Other)
        } else {
            None
        };
        proof {
            assert forall|v: EmploymentType| r == Some(v) <==> v.wire_name() == name@ by {
                if let Some(w) = r {
                    EmploymentType::wire_names_distinct(v, w);
                }
            }
        }
        r
    }
}

/// How a member's cost is counted.
#[derive(Debug, Clone, Copy, PartialEq, Eq)]
pub enum CostMethod {
    Hourly,
    Fixed,
}

impl CostMethod {
    /// The name under which the value travels.
    pub open spec fn wire_name(self) -> Seq<char> {
        match self {
            CostMethod::Hourly => "hourly"@,
            CostMethod::Fixed => "fixed"@,
        }
    }

    /// Distinct values travel under distinct names.
    pub proof fn wire_names_distinct(a: CostMethod, b: CostMethod)
        ensures
            a.wire_name() == b.wire_name() ==> a == b,
    {
        reveal_strlit("hourly");
        reveal_strlit("fixed");
        assert("hourly"@.len() == 6);
        assert("fixed"@.len() == 5);
    }

    /// The wire name, unquoted.
    pub fn to_string(&self) -> (r: String)
        ensures
            r@ == self.wire_name(),
    {
        match self {
            CostMethod::Hourly => String::from_str("hourly"),
            CostMethod::Fixed => String::from_str("fixed"),
        }
    }

    /// The value with wire name `name`, if any.
    pub fn from_name(name: &str) -> (r: Option<CostMethod>)
        ensures
            forall|v: CostMethod| r == Some(v) <==> v.wire_name() == name@,
    {
        let r = if same_text(name, "hourly") {
            Some(CostMethod::Hourly)
        } else if same_text(name, "fixed") {
            Some(CostMethod::Fixed)
        } else {
            None
        };
        proof {
            assert forall|v: CostMethod| r == Some(v) <==> v.wire_name() == name@ by {
                if let Some(w) = r {
                    CostMethod::wire_names_distinct(v, w);
                }
            }
        }
        r
    }
}

/// Which time-off types a member may use.
#[derive(Debug, Clone, Copy, PartialEq, Eq)]
pub enum AllowedTimeOffTypes {
    All,
    Custom,
}

impl AllowedTimeOffTypes {
    /// The name under which the value travels.
    pub open spec fn wire_name(self) -> Seq<char> {
        match self {
            AllowedTimeOffTypes::All => "all"@,
            AllowedTimeOffTypes::Custom => "custom"@,
        }
    }

    /// Distinct values travel under distinct names.
    pub proof fn wire_names_distinct(a: AllowedTimeOffTypes, b: AllowedTimeOffTypes)
        ensures
            a.wire_name() == b.wire_name() ==> a == b,
    {
        reveal_strlit("all");
        reveal_strlit("custom");
        assert("all"@.len() == 3);
        assert("custom"@.len() == 6);
    }

    /// The wire name, unquoted.
    pub fn to_string(&self) -> (r: String)
        ensures
            r@ == self.wire_name(),
    {
        match self {
            AllowedTimeOffTypes::All => String::from_str("all"),
            AllowedTimeOffTypes::Custom => String::from_str("custom"),
        }
    }

    /// The value with wire name `name`, if any.
    pub fn from_name(name: &str) -> (r: Option<AllowedTimeOffTypes>)
        ensures
            forall|v: AllowedTimeOffTypes| r == Some(v) <==> v.wire_name() == name@,
    {
        let r = if same_text(name, "all") {
            Some(AllowedTimeOffTypes::All)
        } else if same_text(name, "custom") {
            Some(AllowedTimeOffTypes::Custom)
        } else {
            None
        };
        proof {
            assert forall|v: AllowedTimeOffTypes| r == Some(v) <==> v.wire_name() == name@ by {
                if let Some(w) = r {
                    AllowedTimeOffTypes::wire_names_distinct(v, w);
                }
            }
        }
        r
    }
}

/// When a member's timesheet counts as full.
#[derive(Debug, Clone, Copy, PartialEq, Eq)]
pub enum TimesheetCapacityPolicy {
    Unrestricted,
    Timesheet,
    Week,
}

impl TimesheetCapacityPolicy {
    /// The name under which the value travels.
    pub open spec fn wire_name(self) -> Seq<char> {
        match self {
            TimesheetCapacityPolicy::Unrestricted => "unrestricted"@,
            TimesheetCapacityPolicy::Timesheet => "timesheet"@,
            TimesheetCapacityPolicy::Week => "week"@,
        }
    }

    /// Distinct values travel under distinct names.
    pub proof fn wire_names_distinct(a: TimesheetCapacityPolicy, b: TimesheetCapacityPolicy)
        ensures
            a.wire_name() == b.wire_name() ==> a == b,
    {
        reveal_strlit("unrestricted");
        reveal_strlit("timesheet");
        reveal_strlit("week");
        assert("unrestricted"@.len() == 12);
        assert("timesheet"@.len() == 9);
        assert("week"@.len() == 4);
    }

    /// The wire name, unquoted.
    pub fn to_string(&self) -> (r: String)
        ensures
            r@ == self.wire_name(),
    {
        match self {
            TimesheetCapacityPolicy::Unrestricted => String::from_str("unrestricted"),
            TimesheetCapacityPolicy::Timesheet => String::from_str("timesheet"),
            TimesheetCapacityPolicy::Week => String::from_str("week"),
        }
    }

    /// The value with wire name `name`, if any.
    pub fn from_name(name: &str) -> (r: Option<TimesheetCapacityPolicy>)
        ensures
            forall|v: TimesheetCapacityPolicy| r == Some(v) <==> v.wire_name() == name@,
    {
        let r = if same_text(name, "unrestricted") {
            Some(TimesheetCapacityPolicy::Unrestricted)
        } else if same_text(name, "timesheet") {
            Some(TimesheetCapacityPolicy::Timesheet)
        } else if same_text(name, "week") {
            Some(TimesheetCapacityPolicy::Week)
        } else {
            None
        };
        proof {
            assert forall|v: TimesheetCapacityPolicy| r == Some(v) <==> v.wire_name() == name@ by {
                if let Some(w) = r {
                    TimesheetCapacityPolicy::wire_names_distinct(v, w);
                }
            }
        }
        r
    }
}

/// Who approves a member's time off.
#[derive(Debug, Clone, Copy, PartialEq, Eq)]
pub enum TimeOffApprovalMode {
    Auto,
    Manager,
    Member,
}

impl TimeOffApprovalMode {
    /// The name under which the value travels.
    pub open spec fn wire_name(self) -> Seq<char> {
        match self {
            TimeOffApprovalMode::Auto => "auto"@,
            TimeOffApprovalMode::Manager => "manager"@,
            TimeOffApprovalMode::Member => "member"@,
        }
    }

    /// Distinct values travel under distinct names.
    pub proof fn wire_names_distinct(a: TimeOffApprovalMode, b: TimeOffApprovalMode)
        ensures
            a.wire_name() == b.wire_name() ==> a == b,
    {
        reveal_strlit("auto");
        reveal_strlit("manager");
        reveal_strlit("member");
        assert("auto"@.len() == 4);
        assert("manager"@.len() == 7);
        assert("member"@.len() == 6);
    }

    /// The wire name, unquoted.
    pub fn to_string(&self) -> (r: String)
        ensures
            r@ == self.wire_name(),
    {
        match self {
            TimeOffApprovalMode::Auto => String::from_str("auto"),
            TimeOffApprovalMode::Manager => String::from_str("manager"),
            TimeOffApprovalMode::Member => String::from_str("member"),
        }
    }

    /// The value with wire name `name`, if any.
    pub fn from_name(name: &str) -> (r: Option<TimeOffApprovalMode>)
        ensures
            forall|v: TimeOffApprovalMode| r == Some(v) <==> v.wire_name() == name@,
    {
        let r = if same_text(name, "auto") {
            Some(TimeOffApprovalMode::Auto)
        } else if same_text(name, "manager") {
            Some(TimeOffApprovalMode::Manager)
        } else if same_text(name, "member") {
            Some(TimeOffApprovalMode::Member)
        } else {
            None
        };
        proof {
            assert forall|v: TimeOffApprovalMode| r == Some(v) <==> v.wire_name() == name@ by {
                if let Some(w) = r {
                    TimeOffApprovalMode::wire_names_distinct(v, w);
                }
            }
        }
        r
    }
}

} // verus!
