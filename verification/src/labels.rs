//! Resource labels and the resource enum.

use vstd::prelude::*;

use crate::text::{ascii_lowercase, lower_chars};

verus! {

/// Discriminant label for each resource type.
#[derive(Clone, Copy, Debug, PartialEq, Eq, Structural, Hash, PartialOrd, Ord)]
pub enum ObjectLabel {
    Agent,
    AgentSkill,
    Catalog,
    Column,
    Credential,
    ExternalLocation,
    Function,
    Provider,
    Recipient,
    Schema,
    Share,
    StagingTable,
    Table,
    TagPolicy,
    Volume,
}

/// The snake_case name of a label: its string form.
pub open spec fn label_name(label: ObjectLabel) -> Seq<char> {
    match label {
        ObjectLabel::Agent => "agent"@,
        ObjectLabel::AgentSkill => "agent_skill"@,
        ObjectLabel::Catalog => "catalog"@,
        ObjectLabel::Column => "column"@,
        ObjectLabel::Credential => "credential"@,
        ObjectLabel::ExternalLocation => "external_location"@,
        ObjectLabel::Function => "function"@,
        ObjectLabel::Provider => "provider"@,
        ObjectLabel::Recipient => "recipient"@,
        ObjectLabel::Schema => "schema"@,
        ObjectLabel::Share => "share"@,
        ObjectLabel::StagingTable => "staging_table"@,
        ObjectLabel::Table => "table"@,
        ObjectLabel::TagPolicy => "tag_policy"@,
        ObjectLabel::Volume => "volume"@,
    }
}

/// The name of the record type that a label stands for.
pub open spec fn record_type_name(label: ObjectLabel) -> Seq<char> {
    match label {
        ObjectLabel::Agent => "Agent"@,
        ObjectLabel::AgentSkill => "AgentSkill"@,
        ObjectLabel::Catalog => "Catalog"@,
        ObjectLabel::Column => "Column"@,
        ObjectLabel::Credential => "Credential"@,
        ObjectLabel::ExternalLocation => "ExternalLocation"@,
        ObjectLabel::Function => "Function"@,
        ObjectLabel::Provider => "Provider"@,
        ObjectLabel::Recipient => "Recipient"@,
        ObjectLabel::Schema => "Schema"@,
        ObjectLabel::Share => "Share"@,
        ObjectLabel::StagingTable => "StagingTable"@,
        ObjectLabel::Table => "Table"@,
        ObjectLabel::TagPolicy => "TagPolicy"@,
        ObjectLabel::Volume => "Volume"@,
    }
}

/// The label whose snake_case name is exactly `s`, if any.
pub open spec fn label_from_name(s: Seq<char>) -> Option<ObjectLabel> {
    if s == "agent"@ {
        Some(ObjectLabel::Agent)
    } else if s == "agent_skill"@ {
        Some(ObjectLabel::AgentSkill)
    } else if s == "catalog"@ {
        Some(ObjectLabel::Catalog)
    } else if s == "column"@ {
        Some(ObjectLabel::Column)
    } else if s == "credential"@ {
        Some(ObjectLabel::Credential)
    } else if s == "external_location"@ {
        Some(ObjectLabel::ExternalLocation)
    } else if s == "function"@ {
        Some(ObjectLabel::Function)
    } else if s == "provider"@ {
        Some(ObjectLabel::Provider)
    } else if s == "recipient"@ {
        Some(ObjectLabel::Recipient)
    } else if s == "schema"@ {
        Some(ObjectLabel::Schema)
    } else if s == "share"@ {
        Some(ObjectLabel::Share)
    } else if s == "staging_table"@ {
        Some(ObjectLabel::StagingTable)
    } else if s == "table"@ {
        Some(ObjectLabel::Table)
    } else if s == "tag_policy"@ {
        Some(ObjectLabel::TagPolicy)
    } else if s == "volume"@ {
        Some(ObjectLabel::Volume)
    } else {
        None
    }
}

/// The label that a text names, ignoring ASCII case.
pub open spec fn parse_label(s: Seq<char>) -> Option<ObjectLabel> {
    label_from_name(lower_chars(s))
}

/// The labels in declaration order.
pub open spec fn all_labels() -> Seq<ObjectLabel> {
    seq![
        ObjectLabel::Agent,
        ObjectLabel::AgentSkill,
        ObjectLabel::Catalog,
        ObjectLabel::Column,
        ObjectLabel::Credential,
        ObjectLabel::ExternalLocation,
        ObjectLabel::Function,
        ObjectLabel::Provider,
        ObjectLabel::Recipient,
        ObjectLabel::Schema,
        ObjectLabel::Share,
        ObjectLabel::StagingTable,
        ObjectLabel::Table,
        ObjectLabel::TagPolicy,
        ObjectLabel::Volume
    ]
}

/// Character-wise equality of two texts.
fn str_eq(a: &str, b: &str) -> (r: bool)
    ensures
        r == (a@ == b@),
{
    let n = a.unicode_len();
    let m = b.unicode_len();
    if n != m {
        return false;
    }
    for i in 0..n
        invariant
            n == a@.len(),
            m == b@.len(),
            n == m,
            forall|j: int| 0 <= j < i ==> a@[j] == b@[j],
    {
        if a.get_char(i) != b.get_char(i) {
            return false;
        }
    }
    assert(a@ =~= b@);
    true
}

impl ObjectLabel {
    /// Returns the snake_case string form of this label.
    pub fn as_str(&self) -> (r: &'static str)
        ensures
            r@ == label_name(*self),
    {
        match self {
            ObjectLabel::Agent => "agent",
            ObjectLabel::AgentSkill => "agent_skill",
            ObjectLabel::Catalog => "catalog",
            ObjectLabel::Column => "column",
            ObjectLabel::Credential => "credential",
            ObjectLabel::ExternalLocation => "external_location",
            ObjectLabel::Function => "function",
            ObjectLabel::Provider => "provider",
            ObjectLabel::Recipient => "recipient",
            ObjectLabel::Schema => "schema",
            ObjectLabel::Share => "share",
            ObjectLabel::StagingTable => "staging_table",
            ObjectLabel::Table => "table",
            ObjectLabel::TagPolicy => "tag_policy",
            ObjectLabel::Volume => "volume",
        }
    }

    /// Reads a label from its snake_case name, ignoring ASCII case; `None` where the
    /// text names no label.
    pub fn from_label_str(s: &str) -> (r: Option<ObjectLabel>)
        ensures
            r == parse_label(s@),
    {
        let lower = ascii_lowercase(s);
        let t = lower.as_str();
        if str_eq(t, "agent") {
            return Some(ObjectLabel::Agent);
        }
        if str_eq(t, "agent_skill") {
            return Some(ObjectLabel::AgentSkill);
        }
        if str_eq(t, "catalog") {
            return Some(ObjectLabel::Catalog);
        }
        if str_eq(t, "column") {
            return Some(ObjectLabel::Column);
        }
        if str_eq(t, "credential") {
            return Some(ObjectLabel::Credential);
        }
        if str_eq(t, "external_location") {
            return Some(ObjectLabel::ExternalLocation);
        }
        if str_eq(t, "function") {
            return Some(ObjectLabel::Function);
        }
        if str_eq(t, "provider") {
            return Some(ObjectLabel::Provider);
        }
        if str_eq(t, "recipient") {
            return Some(ObjectLabel::Recipient);
        }
        if str_eq(t, "schema") {
            return Some(ObjectLabel::Schema);
        }
        if str_eq(t, "share") {
            return Some(ObjectLabel::Share);
        }
        if str_eq(t, "staging_table") {
            return Some(ObjectLabel::StagingTable);
        }
        if str_eq(t, "table") {
            return Some(ObjectLabel::Table);
        }
        if str_eq(t, "tag_policy") {
            return Some(ObjectLabel::TagPolicy);
        }
        if str_eq(t, "volume") {
            return Some(ObjectLabel::Volume);
        }
        None
    }

    /// The name of the record type this label stands for, such as `"ExternalLocation"`.
    pub(crate) fn record_type_str(&self) -> (r: &'static str)
        ensures
            r@ == record_type_name(*self),
    {
        match self {
            ObjectLabel::Agent => "Agent",
            ObjectLabel::AgentSkill => "AgentSkill",
            ObjectLabel::Catalog => "Catalog",
            ObjectLabel::Column => "Column",
            ObjectLabel::Credential => "Credential",
            ObjectLabel::ExternalLocation => "ExternalLocation",
            ObjectLabel::Function => "Function",
            ObjectLabel::Provider => "Provider",
            ObjectLabel::Recipient => "Recipient",
            ObjectLabel::Schema => "Schema",
            ObjectLabel::Share => "Share",
            ObjectLabel::StagingTable => "StagingTable",
            ObjectLabel::Table => "Table",
            ObjectLabel::TagPolicy => "TagPolicy",
            ObjectLabel::Volume => "Volume",
        }
    }

    /// All labels, in declaration order.
    pub fn all() -> (r: Vec<ObjectLabel>)
        ensures
            r@ == all_labels(),
    {
        let mut v = Vec::new();
        v.push(ObjectLabel::Agent);
        v.push(ObjectLabel::AgentSkill);
        v.push(ObjectLabel::Catalog);
        v.push(ObjectLabel::Column);
        v.push(ObjectLabel::Credential);
        v.push(ObjectLabel::ExternalLocation);
        v.push(ObjectLabel::Function);
        v.push(ObjectLabel::Provider);
        v.push(ObjectLabel::Recipient);
        v.push(ObjectLabel::Schema);
        v.push(ObjectLabel::Share);
        v.push(ObjectLabel::StagingTable);
        v.push(ObjectLabel::Table);
        v.push(ObjectLabel::TagPolicy);
        v.push(ObjectLabel::Volume);
        assert(v@ =~= all_labels());
        v
    }
}

} // verus!
