//! Stored objects: the untyped form in which resources are kept.

use vstd::prelude::*;

use crate::ident::{ResourceExt, ResourceIdent};
use crate::labels::ObjectLabel;
use crate::name::{RefView, ResourceName, ResourceRef};
use crate::records::Table;

verus! {

/// A point in time: whole seconds since the Unix epoch, and the nanoseconds past that
/// second.
#[derive(Debug, Clone, Copy, PartialEq, Eq, Hash)]
pub struct Timestamp {
    pub secs: i64,
    pub nanos: u32,
}

/// A stored resource object: its id, label and name, and its properties in serialized
/// (JSON) form.
#[derive(Debug, Clone, PartialEq, Eq)]
pub struct Object {
    /// The globally unique identifier of the object.
    pub id: u128,
    /// The label / type of the object.
    pub label: ObjectLabel,
    /// The namespaced name of the object.
    pub name: ResourceName,
    /// The serialized fields of the resource.
    pub properties: Option<String>,
    /// Version, bumped on every mutating operation; a fresh object starts at 0.
    pub version: u64,
    /// The time when the object was created.
    pub created_at: Timestamp,
    /// The time when the object was last updated.
    pub updated_at: Option<Timestamp>,
}

/// Calls `chrono::Utc::now` for the current time, at the clock's full precision: its
/// seconds since the Unix epoch and the nanoseconds past that second. It depends on the
/// clock, so nothing is stated of it.
#[verifier::external_body]
pub(crate) fn now() -> Timestamp {
    let t = chrono::Utc::now();
    Timestamp { secs: t.timestamp(), nanos: t.timestamp_subsec_nanos() }
}

impl ResourceExt for Object {
    open spec fn label_view(&self) -> ObjectLabel {
        self.label
    }

    open spec fn name_view(&self) -> Seq<Seq<char>> {
        self.name@
    }

    open spec fn ref_view(&self) -> RefView {
        RefView::Uuid(self.id)
    }

    fn resource_name(&self) -> (r: ResourceName) {
        ResourceName::new(self.name.path.clone())
    }

    fn resource_ref(&self) -> (r: ResourceRef) {
        ResourceRef::Uuid(self.id)
    }

    fn resource_ident(&self) -> (r: ResourceIdent) {
        self.label.to_ident(ResourceRef::Uuid(self.id))
    }
}

/// A short summary of a table: its full name and its type.
#[derive(Debug, Clone, PartialEq, Eq)]
pub struct TableSummary {
    pub table_type: i32,
    pub full_name: String,
}

impl From<Table> for TableSummary {
    fn from(table: Table) -> (r: TableSummary) {
        TableSummary { table_type: table.table_type, full_name: table.full_name }
    }
}

impl vstd::std_specs::convert::FromSpecImpl<Table> for TableSummary {
    open spec fn obeys_from_spec() -> bool {
        true
    }

    open spec fn from_spec(table: Table) -> TableSummary {
        TableSummary { table_type: table.table_type, full_name: table.full_name }
    }
}

} // verus!
