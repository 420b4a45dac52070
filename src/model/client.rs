//! Enumerations of the client record as the client endpoints return it.
//! Each value travels as a fixed lowercase name; `to_string` and `from_name`
//! convert in both directions.
use vstd::prelude::*;
use crate::text::same_text;

verus! {

/// Where a client's invoice details come from.
#[derive(Debug, Clone, Copy, PartialEq, Eq)]
pub enum InvoiceDetailsSource {
    Workspace,
    Custom,
    BusinessUnit,
}

impl InvoiceDetailsSource {
    /// The name under which the value travels.
    pub open spec fn wire_name(self) -> Seq<char> {
        match self {
            InvoiceDetailsSource::Workspace => "workspace"@,
            InvoiceDetailsSource::Custom => "custom"@,
            InvoiceDetailsSource::BusinessUnit => "business_unit"@,
        }
    }

    /// Distinct values travel under distinct names.
    pub proof fn wire_names_distinct(a: InvoiceDetailsSource, b: InvoiceDetailsSource)
        ensures
            a.wire_name() == b.wire_name() ==> a == b,
    {
        reveal_strlit("workspace");
        reveal_strlit("custom");
        reveal_strlit("business_unit");
        assert("workspace"@.len() == 9);
        assert("custom"@.len() == 6);
        assert("business_unit"@.len() == 13);
    }

    /// The wire name, unquoted.
    pub fn to_string(&self) -> (r: String)
        ensures
            r@ == self.wire_name(),
    {
        match self {
            InvoiceDetailsSource::Workspace => String::from_str("workspace"),
            InvoiceDetailsSource::Custom => String::from_str("custom"),
            InvoiceDetailsSource::BusinessUnit => String::from_str("business_unit"),
        }
    }

    /// The value with wire name `name`, if any.
    pub fn from_name(name: &str) -> (r: Option<InvoiceDetailsSource>)
        ensures
            forall|v: InvoiceDetailsSource| r == Some(v) <==> v.wire_name() == name@,
    {
        let r = if same_text(name, "workspace") {
            Some(InvoiceDetailsSource::Workspace)
        } else if same_text(name, "custom") {
            Some(InvoiceDetailsSource::Custom)
        } else if same_text(name, "business_unit") {
            Some(InvoiceDetailsSource::BusinessUnit)
        } else {
            None
        };
        proof {
            assert forall|v: InvoiceDetailsSource| r == Some(v) <==> v.wire_name() == name@ by {
                if let Some(w) = r {
                    InvoiceDetailsSource::wire_names_distinct(v, w);
                }
            }
        }
        r
    }
}

/// Whether a client record is in use.
#[derive(Debug, Clone, Copy, PartialEq, Eq)]
pub enum RecordStatus {
    Active,
    Archived,
}

impl RecordStatus {
    /// The name under which the value travels.
    pub open spec fn wire_name(self) -> Seq<char> {
        match self {
            RecordStatus::Active => "active"@,
            RecordStatus::Archived => "archived"@,
        }
    }

    /// Distinct values travel under distinct names.
    pub proof fn wire_names_distinct(a: RecordStatus, b: RecordStatus)
        ensures
            a.wire_name() == b.wire_name() ==> a == b,
    {
        reveal_strlit("active");
        reveal_strlit("archived");
        assert("active"@.len() == 6);
        assert("archived"@.len() == 8);
    }

    /// The wire name, unquoted.
    pub fn to_string(&self) -> (r: String)
        ensures
            r@ == self.wire_name(),
    {
        match self {
            RecordStatus::Active => String::from_str("active"),
            RecordStatus::Archived => String::from_str("archived"),
        }
    }

    /// The value with wire name `name`, if any.
    pub fn from_name(name: &str) -> (r: Option<RecordStatus>)
        ensures
            forall|v: RecordStatus| r == Some(v) <==> v.wire_name() == name@,
    {
        let r = if same_text(name, "active") {
            Some(RecordStatus::Active)
        } else if same_text(name, "archived") {
            Some(RecordStatus::Archived)
        } else {
            None
        };
        proof {
            assert forall|v: RecordStatus| r == Some(v) <==> v.wire_name() == name@ by {
                if let Some(w) = r {
                    RecordStatus::wire_names_distinct(v, w);
                }
            }
        }
        r
    }
}

} // verus!
