//! Resource identifiers: a label together with a reference.

use vstd::prelude::*;

use crate::labels::{label_name, ObjectLabel};
use crate::name::{ref_display, RefView, ResourceName, ResourceRef};

verus! {

/// A resource that a policy can authorize: its kind and a reference to it.
#[derive(Debug, Clone, PartialEq, Eq, Hash)]
pub enum ResourceIdent {
    Share(ResourceRef),
    Credential(ResourceRef),
    ExternalLocation(ResourceRef),
    Catalog(ResourceRef),
    Schema(ResourceRef),
    Table(ResourceRef),
    Recipient(ResourceRef),
    Provider(ResourceRef),
    Column(ResourceRef),
    Volume(ResourceRef),
    Function(ResourceRef),
    TagPolicy(ResourceRef),
    StagingTable(ResourceRef),
    Agent(ResourceRef),
    AgentSkill(ResourceRef),
}

/// The string form of an identifier: the label's name, `:`, and the reference's string form.
pub open spec fn ident_display(label: ObjectLabel, r: RefView) -> Seq<char> {
    label_name(label) + seq![':'] + ref_display(r)
}

impl ResourceIdent {
    /// The kind of resource this identifier designates.
    pub open spec fn label_of(self) -> ObjectLabel {
        match self {
            ResourceIdent::Share(_) => ObjectLabel::Share,
            ResourceIdent::Credential(_) => ObjectLabel::Credential,
            ResourceIdent::ExternalLocation(_) => ObjectLabel::ExternalLocation,
            ResourceIdent::Catalog(_) => ObjectLabel::Catalog,
            ResourceIdent::Schema(_) => ObjectLabel::Schema,
            ResourceIdent::Table(_) => ObjectLabel::Table,
            ResourceIdent::Recipient(_) => ObjectLabel::Recipient,
            ResourceIdent::Provider(_) => ObjectLabel::Provider,
            ResourceIdent::Column(_) => ObjectLabel::Column,
            ResourceIdent::Volume(_) => ObjectLabel::Volume,
            ResourceIdent::Function(_) => ObjectLabel::Function,
            ResourceIdent::TagPolicy(_) => ObjectLabel::TagPolicy,
            ResourceIdent::StagingTable(_) => ObjectLabel::StagingTable,
            ResourceIdent::Agent(_) => ObjectLabel::Agent,
            ResourceIdent::AgentSkill(_) => ObjectLabel::AgentSkill,
        }
    }

    /// The reference this identifier carries.
    pub open spec fn inner_ref(self) -> ResourceRef {
        match self {
            ResourceIdent::Share(r) => r,
            ResourceIdent::Credential(r) => r,
            ResourceIdent::ExternalLocation(r) => r,
            ResourceIdent::Catalog(r) => r,
            ResourceIdent::Schema(r) => r,
            ResourceIdent::Table(r) => r,
            ResourceIdent::Recipient(r) => r,
            ResourceIdent::Provider(r) => r,
            ResourceIdent::Column(r) => r,
            ResourceIdent::Volume(r) => r,
            ResourceIdent::Function(r) => r,
            ResourceIdent::TagPolicy(r) => r,
            ResourceIdent::StagingTable(r) => r,
            ResourceIdent::Agent(r) => r,
            ResourceIdent::AgentSkill(r) => r,
        }
    }

    /// The label of this identifier.
    pub fn label(&self) -> (r: ObjectLabel)
        ensures
            r == self.label_of(),
    {
        match self {
            ResourceIdent::Share(_) => ObjectLabel::Share,
            ResourceIdent::Credential(_) => ObjectLabel::Credential,
            ResourceIdent::ExternalLocation(_) => ObjectLabel::ExternalLocation,
            ResourceIdent::Catalog(_) => ObjectLabel::Catalog,
            ResourceIdent::Schema(_) => ObjectLabel::Schema,
            ResourceIdent::Table(_) => ObjectLabel::Table,
            ResourceIdent::Recipient(_) => ObjectLabel::Recipient,
            ResourceIdent::Provider(_) => ObjectLabel::Provider,
            ResourceIdent::Column(_) => ObjectLabel::Column,
            ResourceIdent::Volume(_) => ObjectLabel::Volume,
            ResourceIdent::Function(_) => ObjectLabel::Function,
            ResourceIdent::TagPolicy(_) => ObjectLabel::TagPolicy,
            ResourceIdent::StagingTable(_) => ObjectLabel::StagingTable,
            ResourceIdent::Agent(_) => ObjectLabel::Agent,
            ResourceIdent::AgentSkill(_) => ObjectLabel::AgentSkill,
        }
    }

    /// The reference of this identifier.
    pub fn reference(&self) -> (r: &ResourceRef)
        ensures
            *r == self.inner_ref(),
    {
        match self {
            ResourceIdent::Share(r) => r,
            ResourceIdent::Credential(r) => r,
            ResourceIdent::ExternalLocation(r) => r,
            ResourceIdent::Catalog(r) => r,
            ResourceIdent::Schema(r) => r,
            ResourceIdent::Table(r) => r,
            ResourceIdent::Recipient(r) => r,
            ResourceIdent::Provider(r) => r,
            ResourceIdent::Column(r) => r,
            ResourceIdent::Volume(r) => r,
            ResourceIdent::Function(r) => r,
            ResourceIdent::TagPolicy(r) => r,
            ResourceIdent::StagingTable(r) => r,
            ResourceIdent::Agent(r) => r,
            ResourceIdent::AgentSkill(r) => r,
        }
    }

    /// An identifier for a share.
    pub fn share(r: ResourceRef) -> (id: ResourceIdent)
        ensures
            id.label_of() == ObjectLabel::Share,
            id.inner_ref() == r,
    {
        ResourceIdent::Share(r)
    }

    /// An identifier for a credential.
    pub fn credential(r: ResourceRef) -> (id: ResourceIdent)
        ensures
            id.label_of() == ObjectLabel::Credential,
            id.inner_ref() == r,
    {
        ResourceIdent::Credential(r)
    }

    /// An identifier for an external location.
    pub fn external_location(r: ResourceRef) -> (id: ResourceIdent)
        ensures
            id.label_of() == ObjectLabel::ExternalLocation,
            id.inner_ref() == r,
    {
        ResourceIdent::ExternalLocation(r)
    }

    /// An identifier for a catalog.
    pub fn catalog(r: ResourceRef) -> (id: ResourceIdent)
        ensures
            id.label_of() == ObjectLabel::Catalog,
            id.inner_ref() == r,
    {
        ResourceIdent::Catalog(r)
    }

    /// An identifier for a schema.
    pub fn schema(r: ResourceRef) -> (id: ResourceIdent)
        ensures
            id.label_of() == ObjectLabel::Schema,
            id.inner_ref() == r,
    {
        ResourceIdent::Schema(r)
    }

    /// An identifier for a table.
    pub fn table(r: ResourceRef) -> (id: ResourceIdent)
        ensures
            id.label_of() == ObjectLabel::Table,
            id.inner_ref() == r,
    {
        ResourceIdent::Table(r)
    }

    /// An identifier for a recipient.
    pub fn recipient(r: ResourceRef) -> (id: ResourceIdent)
        ensures
            id.label_of() == ObjectLabel::Recipient,
            id.inner_ref() == r,
    {
        ResourceIdent::Recipient(r)
    }

    /// An identifier for a provider.
    pub fn provider(r: ResourceRef) -> (id: ResourceIdent)
        ensures
            id.label_of() == ObjectLabel::Provider,
            id.inner_ref() == r,
    {
        ResourceIdent::Provider(r)
    }

    /// An identifier for a column.
    pub fn column(r: ResourceRef) -> (id: ResourceIdent)
        ensures
            id.label_of() == ObjectLabel::Column,
            id.inner_ref() == r,
    {
        ResourceIdent::Column(r)
    }

    /// An identifier for a volume.
    pub fn volume(r: ResourceRef) -> (id: ResourceIdent)
        ensures
            id.label_of() == ObjectLabel::Volume,
            id.inner_ref() == r,
    {
        ResourceIdent::Volume(r)
    }

    /// An identifier for a function.
    pub fn function(r: ResourceRef) -> (id: ResourceIdent)
        ensures
            id.label_of() == ObjectLabel::Function,
            id.inner_ref() == r,
    {
        ResourceIdent::Function(r)
    }

    /// An identifier for a tag policy.
    pub fn tag_policy(r: ResourceRef) -> (id: ResourceIdent)
        ensures
            id.label_of() == ObjectLabel::TagPolicy,
            id.inner_ref() == r,
    {
        ResourceIdent::TagPolicy(r)
    }

    /// An identifier for a staging table.
    pub fn staging_table(r: ResourceRef) -> (id: ResourceIdent)
        ensures
            id.label_of() == ObjectLabel::StagingTable,
            id.inner_ref() == r,
    {
        ResourceIdent::StagingTable(r)
    }

    /// An identifier for an agent.
    pub fn agent(r: ResourceRef) -> (id: ResourceIdent)
        ensures
            id.label_of() == ObjectLabel::Agent,
            id.inner_ref() == r,
    {
        ResourceIdent::Agent(r)
    }

    /// An identifier for an agent skill.
    pub fn agent_skill(r: ResourceRef) -> (id: ResourceIdent)
        ensures
            id.label_of() == ObjectLabel::AgentSkill,
            id.inner_ref() == r,
    {
        ResourceIdent::AgentSkill(r)
    }

    /// The string form of this identifier, such as `catalog:main` or
    /// `table:123e4567-e89b-12d3-a456-426614174000`.
    pub fn to_string(&self) -> (r: String)
        ensures
            r@ == ident_display(self.label_of(), self.inner_ref()@),
    {
        let mut s = String::from_str(self.label().as_str());
        s.append(":");
        let rs = self.reference().to_string();
        s.append(rs.as_str());
        proof {
            reveal_strlit(":");
        }
        s
    }
}

impl ObjectLabel {
    /// The identifier of the resource of this kind that `id` designates.
    pub fn to_ident(&self, id: ResourceRef) -> (r: ResourceIdent)
        ensures
            r.label_of() == *self,
            r.inner_ref() == id,
    {
        match self {
            ObjectLabel::Share => ResourceIdent::share(id),
            ObjectLabel::Credential => ResourceIdent::credential(id),
            ObjectLabel::ExternalLocation => ResourceIdent::external_location(id),
            ObjectLabel::Catalog => ResourceIdent::catalog(id),
            ObjectLabel::Schema => ResourceIdent::schema(id),
            ObjectLabel::Table => ResourceIdent::table(id),
            ObjectLabel::Recipient => ResourceIdent::recipient(id),
            ObjectLabel::Provider => ResourceIdent::provider(id),
            ObjectLabel::Column => ResourceIdent::column(id),
            ObjectLabel::Volume => ResourceIdent::volume(id),
            ObjectLabel::Function => ResourceIdent::function(id),
            ObjectLabel::TagPolicy => ResourceIdent::tag_policy(id),
            ObjectLabel::StagingTable => ResourceIdent::staging_table(id),
            ObjectLabel::Agent => ResourceIdent::agent(id),
            ObjectLabel::AgentSkill => ResourceIdent::agent_skill(id),
        }
    }
}

impl From<ResourceIdent> for ResourceRef {
    fn from(ident: ResourceIdent) -> (r: ResourceRef) {
        match ident {
            ResourceIdent::Share(r) => r,
            ResourceIdent::Credential(r) => r,
            ResourceIdent::ExternalLocation(r) => r,
            ResourceIdent::Catalog(r) => r,
            ResourceIdent::Schema(r) => r,
            ResourceIdent::Table(r) => r,
            ResourceIdent::Recipient(r) => r,
            ResourceIdent::Provider(r) => r,
            ResourceIdent::Column(r) => r,
            ResourceIdent::Volume(r) => r,
            ResourceIdent::Function(r) => r,
            ResourceIdent::TagPolicy(r) => r,
            ResourceIdent::StagingTable(r) => r,
            ResourceIdent::Agent(r) => r,
            ResourceIdent::AgentSkill(r) => r,
        }
    }
}

impl vstd::std_specs::convert::FromSpecImpl<ResourceIdent> for ResourceRef {
    open spec fn obeys_from_spec() -> bool {
        true
    }

    open spec fn from_spec(ident: ResourceIdent) -> ResourceRef {
        ident.inner_ref()
    }
}

impl From<ResourceIdent> for ObjectLabel {
    fn from(ident: ResourceIdent) -> (r: ObjectLabel) {
        ident.label()
    }
}

impl vstd::std_specs::convert::FromSpecImpl<ResourceIdent> for ObjectLabel {
    open spec fn obeys_from_spec() -> bool {
        true
    }

    open spec fn from_spec(ident: ResourceIdent) -> ObjectLabel {
        ident.label_of()
    }
}

/// Something that names and references a resource.
pub trait ResourceExt {
    /// The kind of resource.
    spec fn label_view(&self) -> ObjectLabel;

    /// The segments of the resource's name.
    spec fn name_view(&self) -> Seq<Seq<char>>;

    /// What the resource's reference designates.
    spec fn ref_view(&self) -> RefView;

    /// The name of the resource.
    fn resource_name(&self) -> (r: ResourceName)
        ensures
            r@ == self.name_view(),
    ;

    /// The reference for the resource: by UUID where it has one that parses, else by name.
    fn resource_ref(&self) -> (r: ResourceRef)
        ensures
            r@ == self.ref_view(),
    ;

    /// The identifier for the resource: its label together with its reference.
    fn resource_ident(&self) -> (r: ResourceIdent)
        ensures
            r.label_of() == self.label_view(),
            r.inner_ref()@ == self.ref_view(),
    ;
}

} // verus!
