//! Enumerations of the project record.
//! Each value travels as a fixed lowercase name; `to_string` and `from_name`
//! convert in both directions.
use vstd::prelude::*;
use crate::text::same_text;

verus! {

/// How a project is billed.
#[derive(Debug, Clone, Copy, PartialEq, Eq)]
pub enum BillingType {
    TimeAndMaterials,
    Fixed,
    FixedRecurring,
    NonBillable,
}

impl BillingType {
    /// The name under which the value travels.
    pub open spec fn wire_name(self) -> Seq<char> {
        match self {
            BillingType::TimeAndMaterials => "tm"@,
            BillingType::Fixed => "fixed"@,
            BillingType::FixedRecurring => "fixed_recurring"@,
            BillingType::NonBillable => "non_billable"@,
        }
    }

    /// Distinct values travel under distinct names.
    pub proof fn wire_names_distinct(a: BillingType, b: BillingType)
        ensures
            a.wire_name() == b.wire_name() ==> a == b,
    {
        reveal_strlit("tm");
        reveal_strlit("fixed");
        reveal_strlit("fixed_recurring");
        reveal_strlit("non_billable");
        assert("tm"@.len() == 2);
        assert("fixed"@.len() == 5);
        assert("fixed_recurring"@.len() == 15);
        assert("non_billable"@.len() == 12);
    }

    /// The wire name, unquoted.
    pub fn to_string(&self) -> (r: String)
        ensures
            r@ == self.wire_name(),
    {
        match self {
            BillingType::TimeAndMaterials => String::from_str("tm"),
            BillingType::Fixed => String::from_str("fixed"),
            BillingType::FixedRecurring => String::from_str("fixed_recurring"),
            BillingType::NonBillable => String::from_str("non_billable"),
        }
    }

    /// The value with wire name `name`, if any.
    pub fn from_name(name: &str) -> (r: Option<BillingType>)
        ensures
            forall|v: BillingType| r == Some(v) <==> v.wire_name() == name@,
    {
        let r = if same_text(name, "tm") {
            Some(BillingType::TimeAndMaterials)
        } else if same_text(name, "fixed") {
            Some(BillingType::Fixed)
        } else if same_text(name, "fixed_recurring") {
            Some(BillingType::FixedRecurring)
        } else if same_text(name, "non_billable") {
            Some(BillingType::NonBillable)
        } else {
            None
        };
        proof {
            assert forall|v: BillingType| r == Some(v) <==> v.wire_name() == name@ by {
                if let Some(w) = r {
                    BillingType::wire_names_distinct(v, w);
                }
            }
        }
        r
    }
}

/// How a project's revenue is recognised.
#[derive(Debug, Clone, Copy, PartialEq, Eq)]
pub enum RevenueRecognitionMethod {
    Invoiced,
    Manual,
}

impl RevenueRecognitionMethod {
    /// The name under which the value travels.
    pub open spec fn wire_name(self) -> Seq<char> {
        match self {
            RevenueRecognitionMethod::Invoiced => "invoiced"@,
            RevenueRecognitionMethod::Manual => "manual"@,
        }
    }

    /// Distinct values travel under distinct names.
    pub proof fn wire_names_distinct(a: RevenueRecognitionMethod, b: RevenueRecognitionMethod)
        ensures
            a.wire_name() == b.wire_name() ==> a == b,
    {
        reveal_strlit("invoiced");
        reveal_strlit("manual");
        assert("invoiced"@.len() == 8);
        assert("manual"@.len() == 6);
    }

    /// The wire name, unquoted.
    pub fn to_string(&self) -> (r: String)
        ensures
            r@ == self.wire_name(),
    {
        match self {
            RevenueRecognitionMethod::Invoiced => String::from_str("invoiced"),
            RevenueRecognitionMethod::Manual => String::from_str("manual"),
        }
    }

    /// The value with wire name `name`, if any.
    pub fn from_name(name: &str) -> (r: Option<RevenueRecognitionMethod>)
        ensures
            forall|v: RevenueRecognitionMethod| r == Some(v) <==> v.wire_name() == name@,
    {
        let r = if same_text(name, "invoiced") {
            Some(RevenueRecognitionMethod::Invoiced)
        } else if same_text(name, "manual") {
            Some(RevenueRecognitionMethod::Manual)
        } else {
            None
        };
        proof {
            assert forall|v: RevenueRecognitionMethod| r == Some(v) <==> v.wire_name() == name@ by {
                if let Some(w) = r {
                    RevenueRecognitionMethod::wire_names_distinct(v, w);
                }
            }
        }
        r
    }
}

/// How a project budget is kept.
#[derive(Debug, Clone, Copy, PartialEq, Eq)]
pub enum BudgetMode {
    Summary,
    Detailed,
    Aggregated,
}

impl BudgetMode {
    /// The name under which the value travels.
    pub open spec fn wire_name(self) -> Seq<char> {
        match self {
            BudgetMode::Summary => "summary"@,
            BudgetMode::Detailed => "detailed"@,
            BudgetMode::Aggregated => "aggregated"@,
        }
    }

    /// Distinct values travel under distinct names.
    pub proof fn wire_names_distinct(a: BudgetMode, b: BudgetMode)
        ensures
            a.wire_name() == b.wire_name() ==> a == b,
    {
        reveal_strlit("summary");
        reveal_strlit("detailed");
        reveal_strlit("aggregated");
        assert("summary"@.len() == 7);
        assert("detailed"@.len() == 8);
        assert("aggregated"@.len() == 10);
    }

    /// The wire name, unquoted.
    pub fn to_string(&self) -> (r: String)
        ensures
            r@ == self.wire_name(),
    {
        match self {
            BudgetMode::Summary => String::from_str("summary"),
            BudgetMode::Detailed => String::from_str("detailed"),
            BudgetMode::Aggregated => String::from_str("aggregated"),
        }
    }

    /// The value with wire name `name`, if any.
    pub fn from_name(name: &str) -> (r: Option<BudgetMode>)
        ensures
            forall|v: BudgetMode| r == Some(v) <==> v.wire_name() == name@,
    {
        let r = if same_text(name, "summary") {
            Some(BudgetMode::Summary)
        } else if same_text(name, "detailed") {
            Some(BudgetMode::Detailed)
        } else if same_text(name, "aggregated") {
            Some(BudgetMode::Aggregated)
        } else {
            None
        };
        proof {
            assert forall|v: BudgetMode| r == Some(v) <==> v.wire_name() == name@ by {
                if let Some(w) = r {
                    BudgetMode::wire_names_distinct(v, w);
                }
            }
        }
        r
    }
}

/// How a monthly project budget is kept.
#[derive(Debug, Clone, Copy, PartialEq, Eq)]
pub enum MonthlyBudgetMode {
    Summary,
    Detailed,
}

impl MonthlyBudgetMode {
    /// The name under which the value travels.
    pub open spec fn wire_name(self) -> Seq<char> {
        match self {
            MonthlyBudgetMode::Summary => "summary"@,
            MonthlyBudgetMode::Detailed => "detailed"@,
        }
    }

    /// Distinct values travel under distinct names.
    pub proof fn wire_names_distinct(a: MonthlyBudgetMode, b: MonthlyBudgetMode)
        ensures
            a.wire_name() == b.wire_name() ==> a == b,
    {
        reveal_strlit("summary");
        reveal_strlit("detailed");
        assert("summary"@.len() == 7);
        assert("detailed"@.len() == 8);
    }

    /// The wire name, unquoted.
    pub fn to_string(&self) -> (r: String)
        ensures
            r@ == self.wire_name(),
    {
        match self {
            MonthlyBudgetMode::Summary => String::from_str("summary"),
            MonthlyBudgetMode::Detailed => String::from_str("detailed"),
        }
    }

    /// The value with wire name `name`, if any.
    pub fn from_name(name: &str) -> (r: Option<MonthlyBudgetMode>)
        ensures
            forall|v: MonthlyBudgetMode| r == Some(v) <==> v.wire_name() == name@,
    {
        let r = if same_text(name, "summary") {
            Some(MonthlyBudgetMode::Summary)
        } else if same_text(name, "detailed") {
            Some(MonthlyBudgetMode::Detailed)
        } else {
            None
        };
        proof {
            assert forall|v: MonthlyBudgetMode| r == Some(v) <==> v.wire_name() == name@ by {
                if let Some(w) = r {
                    MonthlyBudgetMode::wire_names_distinct(v, w);
                }
            }
        }
        r
    }
}

/// Whether a project record is in use.
#[derive(Debug, Clone, Copy, PartialEq, Eq)]
pub enum RecordStatus {
    Active,
    Archived,
}

impl RecordStatus {
    /// The name under which the value travels.
    pub open spec fn wire_name(self) -> Seq<char> {
        match self {
            RecordStatus::Active => "active"@,
            RecordStatus::Archived => "archived"@,
        }
    }

    /// Distinct values travel under distinct names.
    pub proof fn wire_names_distinct(a: RecordStatus, b: RecordStatus)
        ensures
            a.wire_name() == b.wire_name() ==> a == b,
    {
        reveal_strlit("active");
        reveal_strlit("archived");
        assert("active"@.len() == 6);
        assert("archived"@.len() == 8);
    }

    /// The wire name, unquoted.
    pub fn to_string(&self) -> (r: String)
        ensures
            r@ == self.wire_name(),
    {
        match self {
            RecordStatus::Active => String::from_str("active"),
            RecordStatus::Archived => String::from_str("archived"),
        }
    }

    /// The value with wire name `name`, if any.
    pub fn from_name(name: &str) -> (r: Option<RecordStatus>)
        ensures
            forall|v: RecordStatus| r == Some(v) <==> v.wire_name() == name@,
    {
        let r = if same_text(name, "active") {
            Some(RecordStatus::Active)
        } else if same_text(name, "archived") {
            Some(RecordStatus::Archived)
        } else {
            None
        };
        proof {
            assert forall|v: RecordStatus| r == Some(v) <==> v.wire_name() == name@ by {
                if let Some(w) = r {
                    RecordStatus::wire_names_distinct(v, w);
                }
            }
        }
        r
    }
}

} // verus!
