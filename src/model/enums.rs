//! Enumerations used as filters of list requests.
//! Each value travels as a fixed lowercase name; `to_string` and `from_name`
//! convert in both directions.
use vstd::prelude::*;
use crate::text::same_text;

verus! {

/// Allocation: assignment type.
#[derive(Debug, Clone, Copy, PartialEq, Eq)]
pub enum AssignmentType {
    Project,
    TimeOff,
}

impl AssignmentType {
    /// The name under which the value travels.
    pub open spec fn wire_name(self) -> Seq<char> {
        match self {
            AssignmentType::Project => "project"@,
            AssignmentType::TimeOff => "time_off"@,
        }
    }

    /// Distinct values travel under distinct names.
    pub proof fn wire_names_distinct(a: AssignmentType, b: AssignmentType)
        ensures
            a.wire_name() == b.wire_name() ==> a == b,
    {
        reveal_strlit("project");
        reveal_strlit("time_off");
        assert("project"@.len() == 7);
        assert("time_off"@.len() == 8);
    }

    /// The wire name, unquoted.
    pub fn to_string(&self) -> (r: String)
        ensures
            r@ == self.wire_name(),
    {
        match self {
            AssignmentType::Project => String::from_str("project"),
            AssignmentType::TimeOff => String::from_str("time_off"),
        }
    }

    /// The value with wire name `name`, if any.
    pub fn from_name(name: &str) -> (r: Option<AssignmentType>)
        ensures
            forall|v: AssignmentType| r == Some(v) <==> v.wire_name() == name@,
    {
        let r = if same_text(name, "project") {
            Some(AssignmentType::Project)
        } else if same_text(name, "time_off") {
            Some(AssignmentType::TimeOff)
        } else {
            None
        };
        proof {
            assert forall|v: AssignmentType| r == Some(v) <==> v.wire_name() == name@ by {
                if let Some(w) = r {
                    AssignmentType::wire_names_distinct(v, w);
                }
            }
        }
        r
    }
}

/// Project: project status.
#[derive(Debug, Clone, Copy, PartialEq, Eq)]
pub enum Status {
    Tentative,
    NotStarted,
    InProgress,
    Paused,
    Completed,
    Cancelled,
}

impl Status {
    /// The name under which the value travels.
    pub open spec fn wire_name(self) -> Seq<char> {
        match self {
            Status::Tentative => "tentative"@,
            Status::NotStarted => "not_started"@,
            Status::InProgress => "in_progress"@,
            Status::Paused => "paused"@,
            Status::Completed => "completed"@,
            Status::Cancelled => "cancelled"@,
        }
    }

    /// Distinct values travel under distinct names.
    pub proof fn wire_names_distinct(a: Status, b: Status)
        ensures
            a.wire_name() == b.wire_name() ==> a == b,
    {
        reveal_strlit("tentative");
        reveal_strlit("not_started");
        reveal_strlit("in_progress");
        reveal_strlit("paused");
        reveal_strlit("completed");
        reveal_strlit("cancelled");
        assert("tentative"@.len() == 9);
        assert("not_started"@.len() == 11);
        assert("in_progress"@.len() == 11);
        assert("paused"@.len() == 6);
        assert("completed"@.len() == 9);
        assert("cancelled"@.len() == 9);
        assert("tentative"@[0] != "completed"@[0]);
        assert("tentative"@[0] != "cancelled"@[0]);
        assert("not_started"@[0] != "in_progress"@[0]);
        assert("completed"@[1] != "cancelled"@[1]);
    }

    /// The wire name, unquoted.
    pub fn to_string(&self) -> (r: String)
        ensures
            r@ == self.wire_name(),
    {
        match self {
            Status::Tentative => String::from_str("tentative"),
            Status::NotStarted => String::from_str("not_started"),
            Status::InProgress => String::from_str("in_progress"),
            Status::Paused => String::from_str("paused"),
            Status::Completed => String::from_str("completed"),
            Status::Cancelled => String::from_str("cancelled"),
        }
    }

    /// The value with wire name `name`, if any.
    pub fn from_name(name: &str) -> (r: Option<Status>)
        ensures
            forall|v: Status| r == Some(v) <==> v.wire_name() == name@,
    {
        let r = if same_text(name, "tentative") {
            Some(Status::Tentative)
        } else if same_text(name, "not_started") {
            Some(Status::NotStarted)
        } else if same_text(name, "in_progress") {
            Some(Status::InProgress)
        } else if same_text(name, "paused") {
            Some(Status::Paused)
        } else if same_text(name, "completed") {
            Some(Status::Completed)
        } else if same_text(name, "cancelled") {
            Some(Status::Cancelled)
        } else {
            None
        };
        proof {
            assert forall|v: Status| r == Some(v) <==> v.wire_name() == name@ by {
                if let Some(w) = r {
                    Status::wire_names_distinct(v, w);
                }
            }
        }
        r
    }
}

} // verus!
