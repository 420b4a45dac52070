//! Enumerations of the allocation record.
//! Each value travels as a fixed lowercase name; `to_string` and `from_name`
//! convert in both directions.
use vstd::prelude::*;
use crate::text::same_text;

verus! {

/// Who an allocation is for.
#[derive(Debug, Clone, Copy, PartialEq, Eq)]
pub enum ResourceType {
    Member,
    Placeholder,
}

impl ResourceType {
    /// The name under which the value travels.
    pub open spec fn wire_name(self) -> Seq<char> {
        match self {
            ResourceType::Member => "member"@,
            ResourceType::Placeholder => "placeholder"@,
        }
    }

    /// Distinct values travel under distinct names.
    pub proof fn wire_names_distinct(a: ResourceType, b: ResourceType)
        ensures
            a.wire_name() == b.wire_name() ==> a == b,
    {
        reveal_strlit("member");
        reveal_strlit("placeholder");
        assert("member"@.len() == 6);
        assert("placeholder"@.len() == 11);
    }

    /// The wire name, unquoted.
    pub fn to_string(&self) -> (r: String)
        ensures
            r@ == self.wire_name(),
    {
        match self {
            ResourceType::Member => String::from_str("member"),
            ResourceType::Placeholder => String::from_str("placeholder"),
        }
    }

    /// The value with wire name `name`, if any.
    pub fn from_name(name: &str) -> (r: Option<ResourceType>)
        ensures
            forall|v: ResourceType| r == Some(v) <==> v.wire_name() == name@,
    {
        let r = if same_text(name, "member") {
            Some(ResourceType::Member)
        } else if same_text(name, "placeholder") {
            Some(ResourceType::Placeholder)
        } else {
            None
        };
        proof {
            assert forall|v: ResourceType| r == Some(v) <==> v.wire_name() == name@ by {
                if let Some(w) = r {
                    ResourceType::wire_names_distinct(v, w);
                }
            }
        }
        r
    }
}

/// The period an allocation's hours are counted over.
#[derive(Debug, Clone, Copy, PartialEq, Eq)]
pub enum Unit {
    Day,
    Week,
    Month,
}

impl Unit {
    /// The name under which the value travels.
    pub open spec fn wire_name(self) -> Seq<char> {
        match self {
            Unit::Day => "day"@,
            Unit::Week => "week"@,
            Unit::Month => "month"@,
        }
    }

    /// Distinct values travel under distinct names.
    pub proof fn wire_names_distinct(a: Unit, b: Unit)
        ensures
            a.wire_name() == b.wire_name() ==> a == b,
    {
        reveal_strlit("day");
        reveal_strlit("week");
        reveal_strlit("month");
        assert("day"@.len() == 3);
        assert("week"@.len() == 4);
        assert("month"@.len() == 5);
    }

    /// The wire name, unquoted.
    pub fn to_string(&self) -> (r: String)
        ensures
            r@ == self.wire_name(),
    {
        match self {
            Unit::Day => String::from_str("day"),
            Unit::Week => String::from_str("week"),
            Unit::Month => String::from_str("month"),
        }
    }

    /// The value with wire name `name`, if any.
    pub fn from_name(name: &str) -> (r: Option<Unit>)
        ensures
            forall|v: Unit| r == Some(v) <==> v.wire_name() == name@,
    {
        let r = if same_text(name, "day") {
            Some(Unit::Day)
        } else if same_text(name, "week") {
            Some(Unit::Week)
        } else if same_text(name, "month") {
            Some(Unit::Month)
        } else {
            None
        };
        proof {
            assert forall|v: Unit| r == Some(v) <==> v.wire_name() == name@ by {
                if let Some(w) = r {
                    Unit::wire_names_distinct(v, w);
                }
            }
        }
        r
    }
}

/// What kind of record an allocation entry is.
#[derive(Debug, Clone, Copy, PartialEq, Eq)]
pub enum Entity {
    Allocation,
    TimeEntry,
    Holiday,
}

impl Entity {
    /// The name under which the value travels.
    pub open spec fn wire_name(self) -> Seq<char> {
        match self {
            Entity::Allocation => "allocation"@,
            Entity::TimeEntry => "time_entry"@,
            Entity::Holiday => "holiday"@,
        }
    }

    /// Distinct values travel under distinct names.
    pub proof fn wire_names_distinct(a: Entity, b: Entity)
        ensures
            a.wire_name() == b.wire_name() ==> a == b,
    {
        reveal_strlit("allocation");
        reveal_strlit("time_entry");
        reveal_strlit("holiday");
        assert("allocation"@.len() == 10);
        assert("time_entry"@.len() == 10);
        assert("holiday"@.len() == 7);
        assert("allocation"@[0] != "time_entry"@[0]);
    }

    /// The wire name, unquoted.
    pub fn to_string(&self) -> (r: String)
        ensures
            r@ == self.wire_name(),
    {
        match self {
            Entity::Allocation => String::from_str("allocation"),
            Entity::TimeEntry => String::from_str("time_entry"),
            Entity::Holiday => String::from_str("holiday"),
        }
    }

    /// The value with wire name `name`, if any.
    pub fn from_name(name: &str) -> (r: Option<Entity>)
        ensures
            forall|v: Entity| r == Some(v) <==> v.wire_name() == name@,
    {
        let r = if same_text(name, "allocation") {
            Some(Entity::Allocation)
        } else if same_text(name, "time_entry") {
            Some(Entity::TimeEntry)
        } else if same_text(name, "holiday") {
            Some(Entity::Holiday)
        } else {
            None
        };
        proof {
            assert forall|v: Entity| r == Some(v) <==> v.wire_name() == name@ by {
                if let Some(w) = r {
                    Entity::wire_names_distinct(v, w);
                }
            }
        }
        r
    }
}

} // verus!
