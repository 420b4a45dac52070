//! Enumerations of the time entry record.
//! Each value travels as a fixed lowercase name; `to_string` and `from_name`
//! convert in both directions.
use vstd::prelude::*;
use crate::text::same_text;

verus! {

/// What a time entry counts.
#[derive(Debug, Clone, Copy, PartialEq, Eq)]
pub enum Type {
    ProjectTime,
    TimeOff,
}

impl Type {
    /// The name under which the value travels.
    pub open spec fn wire_name(self) -> Seq<char> {
        match self {
            Type::ProjectTime => "project_time"@,
            Type::TimeOff => "time_off"@,
        }
    }

    /// Distinct values travel under distinct names.
    pub proof fn wire_names_distinct(a: Type, b: Type)
        ensures
            a.wire_name() == b.wire_name() ==> a == b,
    {
        reveal_strlit("project_time");
        reveal_strlit("time_off");
        assert("project_time"@.len() == 12);
        assert("time_off"@.len() == 8);
    }

    /// The wire name, unquoted.
    pub fn to_string(&self) -> (r: String)
        ensures
            r@ == self.wire_name(),
    {
        match self {
            Type::ProjectTime => String::from_str("project_time"),
            Type::TimeOff => String::from_str("time_off"),
        }
    }

    /// The value with wire name `name`, if any.
    pub fn from_name(name: &str) -> (r: Option<Type>)
        ensures
            forall|v: Type| r == Some(v) <==> v.wire_name() == name@,
    {
        let r = if same_text(name, "project_time") {
            Some(Type::ProjectTime)
        } else if same_text(name, "time_off") {
            Some(Type::TimeOff)
        } else {
            None
        };
        proof {
            assert forall|v: Type| r == Some(v) <==> v.wire_name() == name@ by {
                if let Some(w) = r {
                    Type::wire_names_distinct(v, w);
                }
            }
        }
        r
    }
}

/// Approval state of a time entry.
#[derive(Debug, Clone, Copy, PartialEq, Eq)]
pub enum Status {
    NotSubmitted,
    PendingApproval,
    Approved,
    Rejected,
}

impl Status {
    /// The name under which the value travels.
    pub open spec fn wire_name(self) -> Seq<char> {
        match self {
            Status::NotSubmitted => "not_submitted"@,
            Status::PendingApproval => "pending_approval"@,
            Status::Approved => "approved"@,
            Status::Rejected => "rejected"@,
        }
    }

    /// Distinct values travel under distinct names.
    pub proof fn wire_names_distinct(a: Status, b: Status)
        ensures
            a.wire_name() == b.wire_name() ==> a == b,
    {
        reveal_strlit("not_submitted");
        reveal_strlit("pending_approval");
        reveal_strlit("approved");
        reveal_strlit("rejected");
        assert("not_submitted"@.len() == 13);
        assert("pending_approval"@.len() == 16);
        assert("approved"@.len() == 8);
        assert("rejected"@.len() == 8);
        assert("approved"@[0] != "rejected"@[0]);
    }

    /// The wire name, unquoted.
    pub fn to_string(&self) -> (r: String)
        ensures
            r@ == self.wire_name(),
    {
        match self {
            Status::NotSubmitted => String::from_str("not_submitted"),
            Status::PendingApproval => String::from_str("pending_approval"),
            Status::Approved => String::from_str("approved"),
            Status::Rejected => String::from_str("rejected"),
        }
    }

    /// The value with wire name `name`, if any.
    pub fn from_name(name: &str) -> (r: Option<Status>)
        ensures
            forall|v: Status| r == Some(v) <==> v.wire_name() == name@,
    {
        let r = if same_text(name, "not_submitted") {
            Some(Status::NotSubmitted)
        } else if same_text(name, "pending_approval") {
            Some(Status::PendingApproval)
        } else if same_text(name, "approved") {
            Some(Status::Approved)
        } else if same_text(name, "rejected") {
            Some(Status::Rejected)
        } else {
            None
        };
        proof {
            assert forall|v: Status| r == Some(v) <==> v.wire_name() == name@ by {
                if let Some(w) = r {
                    Status::wire_names_distinct(v, w);
                }
            }
        }
        r
    }
}

} // verus!
