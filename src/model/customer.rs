//! Enumerations of the client record as the customer endpoints return it.
//! Each value travels as a fixed lowercase name; `to_string` and `from_name`
//! convert in both directions.
use vstd::prelude::*;
use crate::text::same_text;

verus! {

/// Invoice payment terms.
#[derive(Debug, Clone, Copy, PartialEq, Eq)]
pub enum PaymentTerms {
    DueOnReceipt,
    Net10,
    Net15,
    Net30,
    Net45,
    Net60,
    Net90,
}

impl PaymentTerms {
    /// The name under which the value travels.
    pub open spec fn wire_name(self) -> Seq<char> {
        match self {
            PaymentTerms::DueOnReceipt => "due_on_receipt"@,
            PaymentTerms::Net10 => "net_10"@,
            PaymentTerms::Net15 => "net_15"@,
            PaymentTerms::Net30 => "net_30"@,
            PaymentTerms::Net45 => "net_45"@,
            PaymentTerms::Net60 => "net_60"@,
            PaymentTerms::Net90 => "net_90"@,
        }
    }

    /// Distinct values travel under distinct names.
    pub proof fn wire_names_distinct(a: PaymentTerms, b: PaymentTerms)
        ensures
            a.wire_name() == b.wire_name() ==> a == b,
    {
        reveal_strlit("due_on_receipt");
        reveal_strlit("net_10");
        reveal_strlit("net_15");
        reveal_strlit("net_30");
        reveal_strlit("net_45");
        reveal_strlit("net_60");
        reveal_strlit("net_90");
        assert("due_on_receipt"@.len() == 14);
        assert("net_10"@.len() == 6);
        assert("net_15"@.len() == 6);
        assert("net_30"@.len() == 6);
        assert("net_45"@.len() == 6);
        assert("net_60"@.len() == 6);
        assert("net_90"@.len() == 6);
        assert("net_10"@[5] != "net_15"@[5]);
        assert("net_10"@[4] != "net_30"@[4]);
        assert("net_10"@[4] != "net_45"@[4]);
        assert("net_10"@[4] != "net_60"@[4]);
        assert("net_10"@[4] != "net_90"@[4]);
        assert("net_15"@[4] != "net_30"@[4]);
        assert("net_15"@[4] != "net_45"@[4]);
        assert("net_15"@[4] != "net_60"@[4]);
        assert("net_15"@[4] != "net_90"@[4]);
        assert("net_30"@[4] != "net_45"@[4]);
        assert("net_30"@[4] != "net_60"@[4]);
        assert("net_30"@[4] != "net_90"@[4]);
        assert("net_45"@[4] != "net_60"@[4]);
        assert("net_45"@[4] != "net_90"@[4]);
        assert("net_60"@[4] != "net_90"@[4]);
    }

    /// The wire name, unquoted.
    pub fn to_string(&self) -> (r: String)
        ensures
            r@ == self.wire_name(),
    {
        match self {
            PaymentTerms::DueOnReceipt => String::from_str("due_on_receipt"),
            PaymentTerms::Net10 => String::from_str("net_10"),
            PaymentTerms::Net15 => String::from_str("net_15"),
            PaymentTerms::Net30 => String::from_str("net_30"),
            PaymentTerms::Net45 => String::from_str("net_45"),
            PaymentTerms::Net60 => String::from_str("net_60"),
            PaymentTerms::Net90 => String::from_str("net_90"),
        }
    }

    /// The value with wire name `name`, if any.
    pub fn from_name(name: &str) -> (r: Option<PaymentTerms>)
        ensures
            forall|v: PaymentTerms| r == Some(v) <==> v.wire_name() == name@,
    {
        let r = if same_text(name, "due_on_receipt") {
            Some(PaymentTerms::DueOnReceipt)
        } else if same_text(name, "net_10") {
            Some(PaymentTerms::Net10)
        } else if same_text(name, "net_15") {
            Some(PaymentTerms::Net15)
        } else if same_text(name, "net_30") {
            Some(PaymentTerms::Net30)
        } else if same_text(name, "net_45") {
            Some(PaymentTerms::Net45)
        } else if same_text(name, "net_60") {
            Some(PaymentTerms::Net60)
        } else if same_text(name, "net_90") {
            Some(PaymentTerms::Net90)
        } else {
            None
        };
        proof {
            assert forall|v: PaymentTerms| r == Some(v) <==> v.wire_name() == name@ by {
                if let Some(w) = r {
                    PaymentTerms::wire_names_distinct(v, w);
                }
            }
        }
        r
    }
}

/// Whether a client record is in use.
#[derive(Debug, Clone, Copy, PartialEq, Eq)]
pub enum RecordStatus {
    Active,
    Archived,
}

impl RecordStatus {
    /// The name under which the value travels.
    pub open spec fn wire_name(self) -> Seq<char> {
        match self {
            RecordStatus::Active => "active"@,
            RecordStatus::Archived => "archived"@,
        }
    }

    /// Distinct values travel under distinct names.
    pub proof fn wire_names_distinct(a: RecordStatus, b: RecordStatus)
        ensures
            a.wire_name() == b.wire_name() ==> a == b,
    {
        reveal_strlit("active");
        reveal_strlit("archived");
        assert("active"@.len() == 6);
        assert("archived"@.len() == 8);
    }

    /// The wire name, unquoted.
    pub fn to_string(&self) -> (r: String)
        ensures
            r@ == self.wire_name(),
    {
        match self {
            RecordStatus::Active => String::from_str("active"),
            RecordStatus::Archived => String::from_str("archived"),
        }
    }

    /// The value with wire name `name`, if any.
    pub fn from_name(name: &str) -> (r: Option<RecordStatus>)
        ensures
            forall|v: RecordStatus| r == Some(v) <==> v.wire_name() == name@,
    {
        let r = if same_text(name, "active") {
            Some(RecordStatus::Active)
        } else if same_text(name, "archived") {
            Some(RecordStatus::Archived)
        } else {
            None
        };
        proof {
            assert forall|v: RecordStatus| r == Some(v) <==> v.wire_name() == name@ by {
                if let Some(w) = r {
                    RecordStatus::wire_names_distinct(v, w);
                }
            }
        }
        r
    }
}

} // verus!
