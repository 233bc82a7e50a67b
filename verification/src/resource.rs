//! The resource enum: one record of any kind.

use vstd::prelude::*;

use crate::error::Error;
use crate::ident::{ResourceExt, ResourceIdent};
use crate::labels::ObjectLabel;
use crate::name::{RefView, ResourceName, ResourceRef};
use crate::object::Object;
use crate::records::{Agent, AgentSkill, Catalog, Column, Credential, ExternalLocation, Function, Provider, Recipient, Schema, Share, StagingTable, Table, TagPolicy, Volume};

verus! {

/// All resource types managed by the service.
#[derive(Clone, Debug, PartialEq)]
pub enum Resource {
    Agent(Agent),
    AgentSkill(AgentSkill),
    Catalog(Catalog),
    Column(Column),
    Credential(Credential),
    ExternalLocation(ExternalLocation),
    Function(Function),
    Provider(Provider),
    Recipient(Recipient),
    Schema(Schema),
    Share(Share),
    StagingTable(StagingTable),
    Table(Table),
    TagPolicy(TagPolicy),
    Volume(Volume),
}

impl Resource {
    /// The label of this resource's kind.
    pub open spec fn label_of(self) -> ObjectLabel {
        match self {
            Resource::Agent(_) => ObjectLabel::Agent,
            Resource::AgentSkill(_) => ObjectLabel::AgentSkill,
            Resource::Catalog(_) => ObjectLabel::Catalog,
            Resource::Column(_) => ObjectLabel::Column,
            Resource::Credential(_) => ObjectLabel::Credential,
            Resource::ExternalLocation(_) => ObjectLabel::ExternalLocation,
            Resource::Function(_) => ObjectLabel::Function,
            Resource::Provider(_) => ObjectLabel::Provider,
            Resource::Recipient(_) => ObjectLabel::Recipient,
            Resource::Schema(_) => ObjectLabel::Schema,
            Resource::Share(_) => ObjectLabel::Share,
            Resource::StagingTable(_) => ObjectLabel::StagingTable,
            Resource::Table(_) => ObjectLabel::Table,
            Resource::TagPolicy(_) => ObjectLabel::TagPolicy,
            Resource::Volume(_) => ObjectLabel::Volume,
        }
    }

    /// Whether this resource is `other` read back from an object with id `oid`: the same
    /// kind, and the record is `other`'s with its id replaced by the hyphenated `oid`.
    pub open spec fn restored(self, other: Resource, oid: u128) -> bool {
        match (self, other) {
            (Resource::Agent(x), Resource::Agent(y)) => x.restored(y, oid),
            (Resource::AgentSkill(x), Resource::AgentSkill(y)) => x.restored(y, oid),
            (Resource::Catalog(x), Resource::Catalog(y)) => x.restored(y, oid),
            (Resource::Column(x), Resource::Column(y)) => x.restored(y, oid),
            (Resource::Credential(x), Resource::Credential(y)) => x.restored(y, oid),
            (Resource::ExternalLocation(x), Resource::ExternalLocation(y)) => x.restored(y, oid),
            (Resource::Function(x), Resource::Function(y)) => x.restored(y, oid),
            (Resource::Provider(x), Resource::Provider(y)) => x.restored(y, oid),
            (Resource::Recipient(x), Resource::Recipient(y)) => x.restored(y, oid),
            (Resource::Schema(x), Resource::Schema(y)) => x.restored(y, oid),
            (Resource::Share(x), Resource::Share(y)) => x.restored(y, oid),
            (Resource::StagingTable(x), Resource::StagingTable(y)) => x.restored(y, oid),
            (Resource::Table(x), Resource::Table(y)) => x.restored(y, oid),
            (Resource::TagPolicy(x), Resource::TagPolicy(y)) => x.restored(y, oid),
            (Resource::Volume(x), Resource::Volume(y)) => x.restored(y, oid),
            _ => false,
        }
    }

    /// Whether `r` is what storing this resource with the serialized form `properties` gives.
    pub open spec fn stored_as(self, properties: String, r: Result<Object, Error>) -> bool {
        match self {
            Resource::Agent(x) => x.stored_as(properties, r),
            Resource::AgentSkill(x) => x.stored_as(properties, r),
            Resource::Catalog(x) => x.stored_as(properties, r),
            Resource::Column(x) => x.stored_as(properties, r),
            Resource::Credential(x) => x.stored_as(properties, r),
            Resource::ExternalLocation(x) => x.stored_as(properties, r),
            Resource::Function(x) => x.stored_as(properties, r),
            Resource::Provider(x) => x.stored_as(properties, r),
            Resource::Recipient(x) => x.stored_as(properties, r),
            Resource::Schema(x) => x.stored_as(properties, r),
            Resource::Share(x) => x.stored_as(properties, r),
            Resource::StagingTable(x) => x.stored_as(properties, r),
            Resource::Table(x) => x.stored_as(properties, r),
            Resource::TagPolicy(x) => x.stored_as(properties, r),
            Resource::Volume(x) => x.stored_as(properties, r),
        }
    }

    /// Return the discriminant label for this resource.
    pub fn resource_label(&self) -> (r: ObjectLabel)
        ensures
            r == self.label_of(),
    {
        match self {
            Resource::Agent(_) => ObjectLabel::Agent,
            Resource::AgentSkill(_) => ObjectLabel::AgentSkill,
            Resource::Catalog(_) => ObjectLabel::Catalog,
            Resource::Column(_) => ObjectLabel::Column,
            Resource::Credential(_) => ObjectLabel::Credential,
            Resource::ExternalLocation(_) => ObjectLabel::ExternalLocation,
            Resource::Function(_) => ObjectLabel::Function,
            Resource::Provider(_) => ObjectLabel::Provider,
            Resource::Recipient(_) => ObjectLabel::Recipient,
            Resource::Schema(_) => ObjectLabel::Schema,
            Resource::Share(_) => ObjectLabel::Share,
            Resource::StagingTable(_) => ObjectLabel::StagingTable,
            Resource::Table(_) => ObjectLabel::Table,
            Resource::TagPolicy(_) => ObjectLabel::TagPolicy,
            Resource::Volume(_) => ObjectLabel::Volume,
        }
    }

    /// Turns this resource into a stored object whose properties are `properties`, the
    /// resource's serialized form.
    pub fn into_object(self, properties: String) -> (r: Result<Object, Error>)
        ensures
            self.stored_as(properties, r),
    {
        match self {
            Resource::Agent(x) => x.into_object(properties),
            Resource::AgentSkill(x) => x.into_object(properties),
            Resource::Catalog(x) => x.into_object(properties),
            Resource::Column(x) => x.into_object(properties),
            Resource::Credential(x) => x.into_object(properties),
            Resource::ExternalLocation(x) => x.into_object(properties),
            Resource::Function(x) => x.into_object(properties),
            Resource::Provider(x) => x.into_object(properties),
            Resource::Recipient(x) => x.into_object(properties),
            Resource::Schema(x) => x.into_object(properties),
            Resource::Share(x) => x.into_object(properties),
            Resource::StagingTable(x) => x.into_object(properties),
            Resource::Table(x) => x.into_object(properties),
            Resource::TagPolicy(x) => x.into_object(properties),
            Resource::Volume(x) => x.into_object(properties),
        }
    }

    /// Reads a resource back from a stored object, of the kind the object's label names.
    /// `decoded` is what the object's properties decode to.
    pub fn try_from_object(object: Object, decoded: Result<Resource, Error>) -> (r: Result<
        Resource,
        Error,
    >)
        ensures
            object.properties is None ==> r == Err::<Resource, Error>(Error::MissingProperties),
            object.properties is Some ==> match decoded {
                Err(e) => r == Err::<Resource, Error>(e),
                Ok(d) => if d.label_of() == object.label {
                    r matches Ok(x) && x.restored(d, object.id)
                } else {
                    r == Err::<Resource, Error>(Error::ResourceMismatch(object.label))
                },
            },
    {
        match object.label {
            ObjectLabel::Agent => {
                let d = match decoded {
                    Ok(res) => Agent::try_from(res),
                    Err(e) => Err(e),
                };
                match Agent::try_from_object(object, d) {
                    Ok(x) => Ok(Resource::Agent(x)),
                    Err(e) => Err(e),
                }
            },
            ObjectLabel::AgentSkill => {
                let d = match decoded {
                    Ok(res) => AgentSkill::try_from(res),
                    Err(e) => Err(e),
                };
                match AgentSkill::try_from_object(object, d) {
                    Ok(x) => Ok(Resource::AgentSkill(x)),
                    Err(e) => Err(e),
                }
            },
            ObjectLabel::Catalog => {
                let d = match decoded {
                    Ok(res) => Catalog::try_from(res),
                    Err(e) => Err(e),
                };
                match Catalog::try_from_object(object, d) {
                    Ok(x) => Ok(Resource::Catalog(x)),
                    Err(e) => Err(e),
                }
            },
            ObjectLabel::Column => {
                let d = match decoded {
                    Ok(res) => Column::try_from(res),
                    Err(e) => Err(e),
                };
                match Column::try_from_object(object, d) {
                    Ok(x) => Ok(Resource::Column(x)),
                    Err(e) => Err(e),
                }
            },
            ObjectLabel::Credential => {
                let d = match decoded {
                    Ok(res) => Credential::try_from(res),
                    Err(e) => Err(e),
                };
                match Credential::try_from_object(object, d) {
                    Ok(x) => Ok(Resource::Credential(x)),
                    Err(e) => Err(e),
                }
            },
            ObjectLabel::ExternalLocation => {
                let d = match decoded {
                    Ok(res) => ExternalLocation::try_from(res),
                    Err(e) => Err(e),
                };
                match ExternalLocation::try_from_object(object, d) {
                    Ok(x) => Ok(Resource::ExternalLocation(x)),
                    Err(e) => Err(e),
                }
            },
            ObjectLabel::Function => {
                let d = match decoded {
                    Ok(res) => Function::try_from(res),
                    Err(e) => Err(e),
                };
                match Function::try_from_object(object, d) {
                    Ok(x) => Ok(Resource::Function(x)),
                    Err(e) => Err(e),
                }
            },
            ObjectLabel::Provider => {
                let d = match decoded {
                    Ok(res) => Provider::try_from(res),
                    Err(e) => Err(e),
                };
                match Provider::try_from_object(object, d) {
                    Ok(x) => Ok(Resource::Provider(x)),
                    Err(e) => Err(e),
                }
            },
            ObjectLabel::Recipient => {
                let d = match decoded {
                    Ok(res) => Recipient::try_from(res),
                    Err(e) => Err(e),
                };
                match Recipient::try_from_object(object, d) {
                    Ok(x) => Ok(Resource::Recipient(x)),
                    Err(e) => Err(e),
                }
            },
            ObjectLabel::Schema => {
                let d = match decoded {
                    Ok(res) => Schema::try_from(res),
                    Err(e) => Err(e),
                };
                match Schema::try_from_object(object, d) {
                    Ok(x) => Ok(Resource::Schema(x)),
                    Err(e) => Err(e),
                }
            },
            ObjectLabel::Share => {
                let d = match decoded {
                    Ok(res) => Share::try_from(res),
                    Err(e) => Err(e),
                };
                match Share::try_from_object(object, d) {
                    Ok(x) => Ok(Resource::Share(x)),
                    Err(e) => Err(e),
                }
            },
            ObjectLabel::StagingTable => {
                let d = match decoded {
                    Ok(res) => StagingTable::try_from(res),
                    Err(e) => Err(e),
                };
                match StagingTable::try_from_object(object, d) {
                    Ok(x) => Ok(Resource::StagingTable(x)),
                    Err(e) => Err(e),
                }
            },
            ObjectLabel::Table => {
                let d = match decoded {
                    Ok(res) => Table::try_from(res),
                    Err(e) => Err(e),
                };
                match Table::try_from_object(object, d) {
                    Ok(x) => Ok(Resource::Table(x)),
                    Err(e) => Err(e),
                }
            },
            ObjectLabel::TagPolicy => {
                let d = match decoded {
                    Ok(res) => TagPolicy::try_from(res),
                    Err(e) => Err(e),
                };
                match TagPolicy::try_from_object(object, d) {
                    Ok(x) => Ok(Resource::TagPolicy(x)),
                    Err(e) => Err(e),
                }
            },
            ObjectLabel::Volume => {
                let d = match decoded {
                    Ok(res) => Volume::try_from(res),
                    Err(e) => Err(e),
                };
                match Volume::try_from_object(object, d) {
                    Ok(x) => Ok(Resource::Volume(x)),
                    Err(e) => Err(e),
                }
            },
        }
    }
}

impl ResourceExt for Resource {
    open spec fn label_view(&self) -> ObjectLabel {
        self.label_of()
    }

    open spec fn name_view(&self) -> Seq<Seq<char>> {
        match self {
            Resource::Agent(x) => x.name_view(),
            Resource::AgentSkill(x) => x.name_view(),
            Resource::Catalog(x) => x.name_view(),
            Resource::Column(x) => x.name_view(),
            Resource::Credential(x) => x.name_view(),
            Resource::ExternalLocation(x) => x.name_view(),
            Resource::Function(x) => x.name_view(),
            Resource::Provider(x) => x.name_view(),
            Resource::Recipient(x) => x.name_view(),
            Resource::Schema(x) => x.name_view(),
            Resource::Share(x) => x.name_view(),
            Resource::StagingTable(x) => x.name_view(),
            Resource::Table(x) => x.name_view(),
            Resource::TagPolicy(x) => x.name_view(),
            Resource::Volume(x) => x.name_view(),
        }
    }

    open spec fn ref_view(&self) -> RefView {
        match self {
            Resource::Agent(x) => x.ref_view(),
            Resource::AgentSkill(x) => x.ref_view(),
            Resource::Catalog(x) => x.ref_view(),
            Resource::Column(x) => x.ref_view(),
            Resource::Credential(x) => x.ref_view(),
            Resource::ExternalLocation(x) => x.ref_view(),
            Resource::Function(x) => x.ref_view(),
            Resource::Provider(x) => x.ref_view(),
            Resource::Recipient(x) => x.ref_view(),
            Resource::Schema(x) => x.ref_view(),
            Resource::Share(x) => x.ref_view(),
            Resource::StagingTable(x) => x.ref_view(),
            Resource::Table(x) => x.ref_view(),
            Resource::TagPolicy(x) => x.ref_view(),
            Resource::Volume(x) => x.ref_view(),
        }
    }

    fn resource_name(&self) -> (r: ResourceName) {
        match self {
            Resource::Agent(x) => x.resource_name(),
            Resource::AgentSkill(x) => x.resource_name(),
            Resource::Catalog(x) => x.resource_name(),
            Resource::Column(x) => x.resource_name(),
            Resource::Credential(x) => x.resource_name(),
            Resource::ExternalLocation(x) => x.resource_name(),
            Resource::Function(x) => x.resource_name(),
            Resource::Provider(x) => x.resource_name(),
            Resource::Recipient(x) => x.resource_name(),
            Resource::Schema(x) => x.resource_name(),
            Resource::Share(x) => x.resource_name(),
            Resource::StagingTable(x) => x.resource_name(),
            Resource::Table(x) => x.resource_name(),
            Resource::TagPolicy(x) => x.resource_name(),
            Resource::Volume(x) => x.resource_name(),
        }
    }

    fn resource_ref(&self) -> (r: ResourceRef) {
        match self {
            Resource::Agent(x) => x.resource_ref(),
            Resource::AgentSkill(x) => x.resource_ref(),
            Resource::Catalog(x) => x.resource_ref(),
            Resource::Column(x) => x.resource_ref(),
            Resource::Credential(x) => x.resource_ref(),
            Resource::ExternalLocation(x) => x.resource_ref(),
            Resource::Function(x) => x.resource_ref(),
            Resource::Provider(x) => x.resource_ref(),
            Resource::Recipient(x) => x.resource_ref(),
            Resource::Schema(x) => x.resource_ref(),
            Resource::Share(x) => x.resource_ref(),
            Resource::StagingTable(x) => x.resource_ref(),
            Resource::Table(x) => x.resource_ref(),
            Resource::TagPolicy(x) => x.resource_ref(),
            Resource::Volume(x) => x.resource_ref(),
        }
    }

    fn resource_ident(&self) -> (r: ResourceIdent) {
        match self {
            Resource::Agent(x) => x.resource_ident(),
            Resource::AgentSkill(x) => x.resource_ident(),
            Resource::Catalog(x) => x.resource_ident(),
            Resource::Column(x) => x.resource_ident(),
            Resource::Credential(x) => x.resource_ident(),
            Resource::ExternalLocation(x) => x.resource_ident(),
            Resource::Function(x) => x.resource_ident(),
            Resource::Provider(x) => x.resource_ident(),
            Resource::Recipient(x) => x.resource_ident(),
            Resource::Schema(x) => x.resource_ident(),
            Resource::Share(x) => x.resource_ident(),
            Resource::StagingTable(x) => x.resource_ident(),
            Resource::Table(x) => x.resource_ident(),
            Resource::TagPolicy(x) => x.resource_ident(),
            Resource::Volume(x) => x.resource_ident(),
        }
    }
}

impl From<Agent> for Resource {
    fn from(v: Agent) -> (r: Resource) {
        Resource::Agent(v)
    }
}

impl vstd::std_specs::convert::FromSpecImpl<Agent> for Resource {
    open spec fn obeys_from_spec() -> bool {
        true
    }

    open spec fn from_spec(v: Agent) -> Resource {
        Resource::Agent(v)
    }
}

impl TryFrom<Resource> for Agent {
    type Error = Error;

    fn try_from(r: Resource) -> (res: Result<Agent, Error>) {
        match r {
            Resource::Agent(v) => Ok(v),
            _ => Err(Error::ResourceMismatch(ObjectLabel::Agent)),
        }
    }
}

impl vstd::std_specs::convert::TryFromSpecImpl<Resource> for Agent {
    open spec fn obeys_try_from_spec() -> bool {
        true
    }

    open spec fn try_from_spec(r: Resource) -> Result<Agent, Error> {
        match r {
            Resource::Agent(v) => Ok(v),
            _ => Err(Error::ResourceMismatch(ObjectLabel::Agent)),
        }
    }
}

impl From<AgentSkill> for Resource {
    fn from(v: AgentSkill) -> (r: Resource) {
        Resource::AgentSkill(v)
    }
}

impl vstd::std_specs::convert::FromSpecImpl<AgentSkill> for Resource {
    open spec fn obeys_from_spec() -> bool {
        true
    }

    open spec fn from_spec(v: AgentSkill) -> Resource {
        Resource::AgentSkill(v)
    }
}

impl TryFrom<Resource> for AgentSkill {
    type Error = Error;

    fn try_from(r: Resource) -> (res: Result<AgentSkill, Error>) {
        match r {
            Resource::AgentSkill(v) => Ok(v),
            _ => Err(Error::ResourceMismatch(ObjectLabel::AgentSkill)),
        }
    }
}

impl vstd::std_specs::convert::TryFromSpecImpl<Resource> for AgentSkill {
    open spec fn obeys_try_from_spec() -> bool {
        true
    }

    open spec fn try_from_spec(r: Resource) -> Result<AgentSkill, Error> {
        match r {
            Resource::AgentSkill(v) => Ok(v),
            _ => Err(Error::ResourceMismatch(ObjectLabel::AgentSkill)),
        }
    }
}

impl From<Catalog> for Resource {
    fn from(v: Catalog) -> (r: Resource) {
        Resource::Catalog(v)
    }
}

impl vstd::std_specs::convert::FromSpecImpl<Catalog> for Resource {
    open spec fn obeys_from_spec() -> bool {
        true
    }

    open spec fn from_spec(v: Catalog) -> Resource {
        Resource::Catalog(v)
    }
}

impl TryFrom<Resource> for Catalog {
    type Error = Error;

    fn try_from(r: Resource) -> (res: Result<Catalog, Error>) {
        match r {
            Resource::Catalog(v) => Ok(v),
            _ => Err(Error::ResourceMismatch(ObjectLabel::Catalog)),
        }
    }
}

impl vstd::std_specs::convert::TryFromSpecImpl<Resource> for Catalog {
    open spec fn obeys_try_from_spec() -> bool {
        true
    }

    open spec fn try_from_spec(r: Resource) -> Result<Catalog, Error> {
        match r {
            Resource::Catalog(v) => Ok(v),
            _ => Err(Error::ResourceMismatch(ObjectLabel::Catalog)),
        }
    }
}

impl From<Column> for Resource {
    fn from(v: Column) -> (r: Resource) {
        Resource::Column(v)
    }
}

impl vstd::std_specs::convert::FromSpecImpl<Column> for Resource {
    open spec fn obeys_from_spec() -> bool {
        true
    }

    open spec fn from_spec(v: Column) -> Resource {
        Resource::Column(v)
    }
}

impl TryFrom<Resource> for Column {
    type Error = Error;

    fn try_from(r: Resource) -> (res: Result<Column, Error>) {
        match r {
            Resource::Column(v) => Ok(v),
            _ => Err(Error::ResourceMismatch(ObjectLabel::Column)),
        }
    }
}

impl vstd::std_specs::convert::TryFromSpecImpl<Resource> for Column {
    open spec fn obeys_try_from_spec() -> bool {
        true
    }

    open spec fn try_from_spec(r: Resource) -> Result<Column, Error> {
        match r {
            Resource::Column(v) => Ok(v),
            _ => Err(Error::ResourceMismatch(ObjectLabel::Column)),
        }
    }
}

impl From<Credential> for Resource {
    fn from(v: Credential) -> (r: Resource) {
        Resource::Credential(v)
    }
}

impl vstd::std_specs::convert::FromSpecImpl<Credential> for Resource {
    open spec fn obeys_from_spec() -> bool {
        true
    }

    open spec fn from_spec(v: Credential) -> Resource {
        Resource::Credential(v)
    }
}

impl TryFrom<Resource> for Credential {
    type Error = Error;

    fn try_from(r: Resource) -> (res: Result<Credential, Error>) {
        match r {
            Resource::Credential(v) => Ok(v),
            _ => Err(Error::ResourceMismatch(ObjectLabel::Credential)),
        }
    }
}

impl vstd::std_specs::convert::TryFromSpecImpl<Resource> for Credential {
    open spec fn obeys_try_from_spec() -> bool {
        true
    }

    open spec fn try_from_spec(r: Resource) -> Result<Credential, Error> {
        match r {
            Resource::Credential(v) => Ok(v),
            _ => Err(Error::ResourceMismatch(ObjectLabel::Credential)),
        }
    }
}

impl From<ExternalLocation> for Resource {
    fn from(v: ExternalLocation) -> (r: Resource) {
        Resource::ExternalLocation(v)
    }
}

impl vstd::std_specs::convert::FromSpecImpl<ExternalLocation> for Resource {
    open spec fn obeys_from_spec() -> bool {
        true
    }

    open spec fn from_spec(v: ExternalLocation) -> Resource {
        Resource::ExternalLocation(v)
    }
}

impl TryFrom<Resource> for ExternalLocation {
    type Error = Error;

    fn try_from(r: Resource) -> (res: Result<ExternalLocation, Error>) {
        match r {
            Resource::ExternalLocation(v) => Ok(v),
            _ => Err(Error::ResourceMismatch(ObjectLabel::ExternalLocation)),
        }
    }
}

impl vstd::std_specs::convert::TryFromSpecImpl<Resource> for ExternalLocation {
    open spec fn obeys_try_from_spec() -> bool {
        true
    }

    open spec fn try_from_spec(r: Resource) -> Result<ExternalLocation, Error> {
        match r {
            Resource::ExternalLocation(v) => Ok(v),
            _ => Err(Error::ResourceMismatch(ObjectLabel::ExternalLocation)),
        }
    }
}

impl From<Function> for Resource {
    fn from(v: Function) -> (r: Resource) {
        Resource::Function(v)
    }
}

impl vstd::std_specs::convert::FromSpecImpl<Function> for Resource {
    open spec fn obeys_from_spec() -> bool {
        true
    }

    open spec fn from_spec(v: Function) -> Resource {
        Resource::Function(v)
    }
}

impl TryFrom<Resource> for Function {
    type Error = Error;

    fn try_from(r: Resource) -> (res: Result<Function, Error>) {
        match r {
            Resource::Function(v) => Ok(v),
            _ => Err(Error::ResourceMismatch(ObjectLabel::Function)),
        }
    }
}

impl vstd::std_specs::convert::TryFromSpecImpl<Resource> for Function {
    open spec fn obeys_try_from_spec() -> bool {
        true
    }

    open spec fn try_from_spec(r: Resource) -> Result<Function, Error> {
        match r {
            Resource::Function(v) => Ok(v),
            _ => Err(Error::ResourceMismatch(ObjectLabel::Function)),
        }
    }
}

impl From<Provider> for Resource {
    fn from(v: Provider) -> (r: Resource) {
        Resource::Provider(v)
    }
}

impl vstd::std_specs::convert::FromSpecImpl<Provider> for Resource {
    open spec fn obeys_from_spec() -> bool {
        true
    }

    open spec fn from_spec(v: Provider) -> Resource {
        Resource::Provider(v)
    }
}

impl TryFrom<Resource> for Provider {
    type Error = Error;

    fn try_from(r: Resource) -> (res: Result<Provider, Error>) {
        match r {
            Resource::Provider(v) => Ok(v),
            _ => Err(Error::ResourceMismatch(ObjectLabel::Provider)),
        }
    }
}

impl vstd::std_specs::convert::TryFromSpecImpl<Resource> for Provider {
    open spec fn obeys_try_from_spec() -> bool {
        true
    }

    open spec fn try_from_spec(r: Resource) -> Result<Provider, Error> {
        match r {
            Resource::Provider(v) => Ok(v),
            _ => Err(Error::ResourceMismatch(ObjectLabel::Provider)),
        }
    }
}

impl From<Recipient> for Resource {
    fn from(v: Recipient) -> (r: Resource) {
        Resource::Recipient(v)
    }
}

impl vstd::std_specs::convert::FromSpecImpl<Recipient> for Resource {
    open spec fn obeys_from_spec() -> bool {
        true
    }

    open spec fn from_spec(v: Recipient) -> Resource {
        Resource::Recipient(v)
    }
}

impl TryFrom<Resource> for Recipient {
    type Error = Error;

    fn try_from(r: Resource) -> (res: Result<Recipient, Error>) {
        match r {
            Resource::Recipient(v) => Ok(v),
            _ => Err(Error::ResourceMismatch(ObjectLabel::Recipient)),
        }
    }
}

impl vstd::std_specs::convert::TryFromSpecImpl<Resource> for Recipient {
    open spec fn obeys_try_from_spec() -> bool {
        true
    }

    open spec fn try_from_spec(r: Resource) -> Result<Recipient, Error> {
        match r {
            Resource::Recipient(v) => Ok(v),
            _ => Err(Error::ResourceMismatch(ObjectLabel::Recipient)),
        }
    }
}

impl From<Schema> for Resource {
    fn from(v: Schema) -> (r: Resource) {
        Resource::Schema(v)
    }
}

impl vstd::std_specs::convert::FromSpecImpl<Schema> for Resource {
    open spec fn obeys_from_spec() -> bool {
        true
    }

    open spec fn from_spec(v: Schema) -> Resource {
        Resource::Schema(v)
    }
}

impl TryFrom<Resource> for Schema {
    type Error = Error;

    fn try_from(r: Resource) -> (res: Result<Schema, Error>) {
        match r {
            Resource::Schema(v) => Ok(v),
            _ => Err(Error::ResourceMismatch(ObjectLabel::Schema)),
        }
    }
}

impl vstd::std_specs::convert::TryFromSpecImpl<Resource> for Schema {
    open spec fn obeys_try_from_spec() -> bool {
        true
    }

    open spec fn try_from_spec(r: Resource) -> Result<Schema, Error> {
        match r {
            Resource::Schema(v) => Ok(v),
            _ => Err(Error::ResourceMismatch(ObjectLabel::Schema)),
        }
    }
}

impl From<Share> for Resource {
    fn from(v: Share) -> (r: Resource) {
        Resource::Share(v)
    }
}

impl vstd::std_specs::convert::FromSpecImpl<Share> for Resource {
    open spec fn obeys_from_spec() -> bool {
        true
    }

    open spec fn from_spec(v: Share) -> Resource {
        Resource::Share(v)
    }
}

impl TryFrom<Resource> for Share {
    type Error = Error;

    fn try_from(r: Resource) -> (res: Result<Share, Error>) {
        match r {
            Resource::Share(v) => Ok(v),
            _ => Err(Error::ResourceMismatch(ObjectLabel::Share)),
        }
    }
}

impl vstd::std_specs::convert::TryFromSpecImpl<Resource> for Share {
    open spec fn obeys_try_from_spec() -> bool {
        true
    }

    open spec fn try_from_spec(r: Resource) -> Result<Share, Error> {
        match r {
            Resource::Share(v) => Ok(v),
            _ => Err(Error::ResourceMismatch(ObjectLabel::Share)),
        }
    }
}

impl From<StagingTable> for Resource {
    fn from(v: StagingTable) -> (r: Resource) {
        Resource::StagingTable(v)
    }
}

impl vstd::std_specs::convert::FromSpecImpl<StagingTable> for Resource {
    open spec fn obeys_from_spec() -> bool {
        true
    }

    open spec fn from_spec(v: StagingTable) -> Resource {
        Resource::StagingTable(v)
    }
}

impl TryFrom<Resource> for StagingTable {
    type Error = Error;

    fn try_from(r: Resource) -> (res: Result<StagingTable, Error>) {
        match r {
            Resource::StagingTable(v) => Ok(v),
            _ => Err(Error::ResourceMismatch(ObjectLabel::StagingTable)),
        }
    }
}

impl vstd::std_specs::convert::TryFromSpecImpl<Resource> for StagingTable {
    open spec fn obeys_try_from_spec() -> bool {
        true
    }

    open spec fn try_from_spec(r: Resource) -> Result<StagingTable, Error> {
        match r {
            Resource::StagingTable(v) => Ok(v),
            _ => Err(Error::ResourceMismatch(ObjectLabel::StagingTable)),
        }
    }
}

impl From<Table> for Resource {
    fn from(v: Table) -> (r: Resource) {
        Resource::Table(v)
    }
}

impl vstd::std_specs::convert::FromSpecImpl<Table> for Resource {
    open spec fn obeys_from_spec() -> bool {
        true
    }

    open spec fn from_spec(v: Table) -> Resource {
        Resource::Table(v)
    }
}

impl TryFrom<Resource> for Table {
    type Error = Error;

    fn try_from(r: Resource) -> (res: Result<Table, Error>) {
        match r {
            Resource::Table(v) => Ok(v),
            _ => Err(Error::ResourceMismatch(ObjectLabel::Table)),
        }
    }
}

impl vstd::std_specs::convert::TryFromSpecImpl<Resource> for Table {
    open spec fn obeys_try_from_spec() -> bool {
        true
    }

    open spec fn try_from_spec(r: Resource) -> Result<Table, Error> {
        match r {
            Resource::Table(v) => Ok(v),
            _ => Err(Error::ResourceMismatch(ObjectLabel::Table)),
        }
    }
}

impl From<TagPolicy> for Resource {
    fn from(v: TagPolicy) -> (r: Resource) {
        Resource::TagPolicy(v)
    }
}

impl vstd::std_specs::convert::FromSpecImpl<TagPolicy> for Resource {
    open spec fn obeys_from_spec() -> bool {
        true
    }

    open spec fn from_spec(v: TagPolicy) -> Resource {
        Resource::TagPolicy(v)
    }
}

impl TryFrom<Resource> for TagPolicy {
    type Error = Error;

    fn try_from(r: Resource) -> (res: Result<TagPolicy, Error>) {
        match r {
            Resource::TagPolicy(v) => Ok(v),
            _ => Err(Error::ResourceMismatch(ObjectLabel::TagPolicy)),
        }
    }
}

impl vstd::std_specs::convert::TryFromSpecImpl<Resource> for TagPolicy {
    open spec fn obeys_try_from_spec() -> bool {
        true
    }

    open spec fn try_from_spec(r: Resource) -> Result<TagPolicy, Error> {
        match r {
            Resource::TagPolicy(v) => Ok(v),
            _ => Err(Error::ResourceMismatch(ObjectLabel::TagPolicy)),
        }
    }
}

impl From<Volume> for Resource {
    fn from(v: Volume) -> (r: Resource) {
        Resource::Volume(v)
    }
}

impl vstd::std_specs::convert::FromSpecImpl<Volume> for Resource {
    open spec fn obeys_from_spec() -> bool {
        true
    }

    open spec fn from_spec(v: Volume) -> Resource {
        Resource::Volume(v)
    }
}

impl TryFrom<Resource> for Volume {
    type Error = Error;

    fn try_from(r: Resource) -> (res: Result<Volume, Error>) {
        match r {
            Resource::Volume(v) => Ok(v),
            _ => Err(Error::ResourceMismatch(ObjectLabel::Volume)),
        }
    }
}

impl vstd::std_specs::convert::TryFromSpecImpl<Resource> for Volume {
    open spec fn obeys_try_from_spec() -> bool {
        true
    }

    open spec fn try_from_spec(r: Resource) -> Result<Volume, Error> {
        match r {
            Resource::Volume(v) => Ok(v),
            _ => Err(Error::ResourceMismatch(ObjectLabel::Volume)),
        }
    }
}

} // verus!
