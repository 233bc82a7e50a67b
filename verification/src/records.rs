//! The resource records: every field of each resource, as plain values. Enumerated
//! fields are held as their integer codes; nested messages whose shape the library does
//! not read are held as their JSON text.

use vstd::prelude::*;

use std::collections::BTreeMap;

use crate::credentials::{AzureManagedIdentity, AzureServicePrincipal, AzureStorageKey};
use crate::messages::{FunctionParameterInfos, TagValue};
use crate::repr::RecipientToken;
use crate::sharing::DataObject;

use crate::error::Error;
use crate::ident::{ResourceExt, ResourceIdent};
use crate::identifiers::{hyphenated, nil_uuid, parse_uuid, uuid_hyphenated, uuid_parse};
use crate::labels::ObjectLabel;
use crate::name::{RefView, ResourceName, ResourceRef};
use crate::object::{now, Object};
use crate::text::{join_with, lemma_join_small, push_char};

verus! {

/// An agent record.
#[derive(Debug, Clone, PartialEq, Eq, Default)]
pub struct Agent {
    pub name: String,
    pub catalog_name: String,
    pub schema_name: String,
    pub full_name: String,
    pub agent_id: String,
    /// An enumeration code.
    pub invocation_protocol: i32,
    pub endpoint: String,
    pub description: Option<String>,
    pub capabilities: Vec<String>,
    /// Held as its JSON text.
    pub input_schema: Option<String>,
    pub owner: Option<String>,
    pub comment: Option<String>,
    pub created_at: Option<i64>,
    pub created_by: Option<String>,
    pub updated_at: Option<i64>,
    pub updated_by: Option<String>,
    pub metastore_id: Option<String>,
}

impl Agent {
    /// The segments of this record's name.
    pub open spec fn name_parts(&self) -> Seq<Seq<char>> {
        seq![self.catalog_name@, self.schema_name@, self.name@]
    }

    /// The id of the object stored for this record: the UUID its id parses to, the nil
    /// UUID where it does not parse.
    pub open spec fn object_id(&self) -> Result<u128, ()> {
        match uuid_parse(self.agent_id@) {
            Some(u) => Ok(u),
            None => Ok(nil_uuid()),
        }
    }

    /// Whether this record is `other` with its id replaced by the hyphenated form of `oid`.
    pub open spec fn restored(&self, other: Agent, oid: u128) -> bool {
        &&& self.name == other.name
        &&& self.catalog_name == other.catalog_name
        &&& self.schema_name == other.schema_name
        &&& self.full_name == other.full_name
        &&& self.invocation_protocol == other.invocation_protocol
        &&& self.endpoint == other.endpoint
        &&& self.description == other.description
        &&& self.capabilities == other.capabilities
        &&& self.input_schema == other.input_schema
        &&& self.owner == other.owner
        &&& self.comment == other.comment
        &&& self.created_at == other.created_at
        &&& self.created_by == other.created_by
        &&& self.updated_at == other.updated_at
        &&& self.updated_by == other.updated_by
        &&& self.metastore_id == other.metastore_id
        &&& self.agent_id@ == hyphenated(oid)
    }

    /// Whether the two records hold the same values, texts compared by their characters.
    pub open spec fn same_values(&self, other: Agent) -> bool {
        &&& self.name@ == other.name@
        &&& self.catalog_name@ == other.catalog_name@
        &&& self.schema_name@ == other.schema_name@
        &&& self.full_name@ == other.full_name@
        &&& self.invocation_protocol == other.invocation_protocol
        &&& self.endpoint@ == other.endpoint@
        &&& self.description == other.description
        &&& self.capabilities == other.capabilities
        &&& self.input_schema == other.input_schema
        &&& self.owner == other.owner
        &&& self.comment == other.comment
        &&& self.created_at == other.created_at
        &&& self.created_by == other.created_by
        &&& self.updated_at == other.updated_at
        &&& self.updated_by == other.updated_by
        &&& self.metastore_id == other.metastore_id
        &&& self.agent_id@ == other.agent_id@
    }

    /// Whether this record's id is the hyphenated lowercase form of the UUID `u`.
    pub open spec fn has_canonical_id(&self, u: u128) -> bool {
        self.agent_id@ == hyphenated(u)
    }

    /// Whether `r` is what storing this record with the serialized form `properties` gives.
    pub open spec fn stored_as(&self, properties: String, r: Result<Object, Error>) -> bool {
        match self.object_id() {
            Ok(id) => r matches Ok(o) && o.id == id && o.label == ObjectLabel::Agent
                && o.name@ == self.name_parts() && o.properties == Some(properties)
                && o.version == 0 && o.updated_at is None,
            Err(()) => false,
        }
    }

    /// Returns the fully-qualified dot-separated name computed from component fields.
    pub fn qualified_name(&self) -> (r: String)
        ensures
            r@ == join_with(self.name_view(), '.'),
    {
        let mut s = self.catalog_name.clone();
        push_char(&mut s, '.');
        s.append(self.schema_name.as_str());
        push_char(&mut s, '.');
        s.append(self.name.as_str());
        proof {
            lemma_join_small(self.catalog_name@, self.schema_name@, self.name@, '.');
        }
        s
    }

    /// Reads this record back from a stored object. `decoded` is what the object's
    /// properties decode to; the record read back carries the object's id, hyphenated.
    pub fn try_from_object(object: Object, decoded: Result<Agent, Error>) -> (r: Result<Agent, Error>)
        ensures
            object.properties is None ==> r == Err::<Agent, Error>(Error::MissingProperties),
            object.properties is Some ==> match decoded {
                Ok(d) => r matches Ok(x) && x.restored(d, object.id)
                    && x == (Agent { agent_id: x.agent_id, ..d }) && x.agent_id@ == hyphenated(object.id),
                Err(e) => r == Err::<Agent, Error>(e),
            },
    {
        if object.properties.is_none() {
            return Err(Error::MissingProperties);
        }
        match decoded {
            Ok(d) => {
                let mut d = d;
                d.agent_id = uuid_hyphenated(object.id);
                Ok(d)
            },
            Err(e) => Err(e),
        }
    }

    /// Turns this record into a stored object whose properties are `properties`, the
    /// record's serialized form.
    pub fn into_object(self, properties: String) -> (r: Result<Object, Error>)
        ensures
            self.stored_as(properties, r),
    {
        let id: u128 = match parse_uuid(self.agent_id.as_str()) {
            Some(u) => u,
            None => 0,
        };
        let name = self.resource_name();
        let created_at = now();
        Ok(
            Object {
                id,
                label: ObjectLabel::Agent,
                name,
                properties: Some(properties),
                version: 0,
                created_at,
                updated_at: None,
            },
        )
    }
}

impl ResourceExt for Agent {
    open spec fn label_view(&self) -> ObjectLabel {
        ObjectLabel::Agent
    }

    open spec fn name_view(&self) -> Seq<Seq<char>> {
        self.name_parts()
    }

    open spec fn ref_view(&self) -> RefView {
        match uuid_parse(self.agent_id@) {
            Some(u) => RefView::Uuid(u),
            None => RefView::Name(self.name_parts()),
        }
    }

    fn resource_name(&self) -> (r: ResourceName) {
        let mut path: Vec<String> = Vec::new();
        path.push(self.catalog_name.clone());
        path.push(self.schema_name.clone());
        path.push(self.name.clone());
        assert(path.deep_view() =~= self.name_parts());
        ResourceName::new(path)
    }

    fn resource_ref(&self) -> (r: ResourceRef) {
        match parse_uuid(self.agent_id.as_str()) {
            Some(u) => ResourceRef::Uuid(u),
            None => ResourceRef::Name(self.resource_name()),
        }
    }

    fn resource_ident(&self) -> (r: ResourceIdent) {
        ObjectLabel::Agent.to_ident(self.resource_ref())
    }
}

/// An agent skill record.
#[derive(Debug, Clone, PartialEq, Eq, Default)]
pub struct AgentSkill {
    pub name: String,
    pub catalog_name: String,
    pub schema_name: String,
    pub full_name: String,
    pub storage_location: String,
    pub agent_skill_id: String,
    /// An enumeration code.
    pub agent_skill_type: i32,
    pub description: Option<String>,
    pub license: Option<String>,
    pub allowed_tools: Vec<String>,
    pub metadata: BTreeMap<String, String>,
    pub owner: Option<String>,
    pub comment: Option<String>,
    pub created_at: Option<i64>,
    pub created_by: Option<String>,
    pub updated_at: Option<i64>,
    pub updated_by: Option<String>,
    pub metastore_id: Option<String>,
}

impl AgentSkill {
    /// The segments of this record's name.
    pub open spec fn name_parts(&self) -> Seq<Seq<char>> {
        seq![self.catalog_name@, self.schema_name@, self.name@]
    }

    /// The id of the object stored for this record: the UUID its id parses to, the nil
    /// UUID where it does not parse.
    pub open spec fn object_id(&self) -> Result<u128, ()> {
        match uuid_parse(self.agent_skill_id@) {
            Some(u) => Ok(u),
            None => Ok(nil_uuid()),
        }
    }

    /// Whether this record is `other` with its id replaced by the hyphenated form of `oid`.
    pub open spec fn restored(&self, other: AgentSkill, oid: u128) -> bool {
        &&& self.name == other.name
        &&& self.catalog_name == other.catalog_name
        &&& self.schema_name == other.schema_name
        &&& self.full_name == other.full_name
        &&& self.storage_location == other.storage_location
        &&& self.agent_skill_type == other.agent_skill_type
        &&& self.description == other.description
        &&& self.license == other.license
        &&& self.allowed_tools == other.allowed_tools
        &&& self.metadata == other.metadata
        &&& self.owner == other.owner
        &&& self.comment == other.comment
        &&& self.created_at == other.created_at
        &&& self.created_by == other.created_by
        &&& self.updated_at == other.updated_at
        &&& self.updated_by == other.updated_by
        &&& self.metastore_id == other.metastore_id
        &&& self.agent_skill_id@ == hyphenated(oid)
    }

    /// Whether the two records hold the same values, texts compared by their characters.
    pub open spec fn same_values(&self, other: AgentSkill) -> bool {
        &&& self.name@ == other.name@
        &&& self.catalog_name@ == other.catalog_name@
        &&& self.schema_name@ == other.schema_name@
        &&& self.full_name@ == other.full_name@
        &&& self.storage_location@ == other.storage_location@
        &&& self.agent_skill_type == other.agent_skill_type
        &&& self.description == other.description
        &&& self.license == other.license
        &&& self.allowed_tools == other.allowed_tools
        &&& self.metadata == other.metadata
        &&& self.owner == other.owner
        &&& self.comment == other.comment
        &&& self.created_at == other.created_at
        &&& self.created_by == other.created_by
        &&& self.updated_at == other.updated_at
        &&& self.updated_by == other.updated_by
        &&& self.metastore_id == other.metastore_id
        &&& self.agent_skill_id@ == other.agent_skill_id@
    }

    /// Whether this record's id is the hyphenated lowercase form of the UUID `u`.
    pub open spec fn has_canonical_id(&self, u: u128) -> bool {
        self.agent_skill_id@ == hyphenated(u)
    }

    /// Whether `r` is what storing this record with the serialized form `properties` gives.
    pub open spec fn stored_as(&self, properties: String, r: Result<Object, Error>) -> bool {
        match self.object_id() {
            Ok(id) => r matches Ok(o) && o.id == id && o.label == ObjectLabel::AgentSkill
                && o.name@ == self.name_parts() && o.properties == Some(properties)
                && o.version == 0 && o.updated_at is None,
            Err(()) => false,
        }
    }

    /// Returns the fully-qualified dot-separated name computed from component fields.
    pub fn qualified_name(&self) -> (r: String)
        ensures
            r@ == join_with(self.name_view(), '.'),
    {
        let mut s = self.catalog_name.clone();
        push_char(&mut s, '.');
        s.append(self.schema_name.as_str());
        push_char(&mut s, '.');
        s.append(self.name.as_str());
        proof {
            lemma_join_small(self.catalog_name@, self.schema_name@, self.name@, '.');
        }
        s
    }

    /// Reads this record back from a stored object. `decoded` is what the object's
    /// properties decode to; the record read back carries the object's id, hyphenated.
    pub fn try_from_object(object: Object, decoded: Result<AgentSkill, Error>) -> (r: Result<AgentSkill, Error>)
        ensures
            object.properties is None ==> r == Err::<AgentSkill, Error>(Error::MissingProperties),
            object.properties is Some ==> match decoded {
                Ok(d) => r matches Ok(x) && x.restored(d, object.id)
                    && x == (AgentSkill { agent_skill_id: x.agent_skill_id, ..d }) && x.agent_skill_id@ == hyphenated(object.id),
                Err(e) => r == Err::<AgentSkill, Error>(e),
            },
    {
        if object.properties.is_none() {
            return Err(Error::MissingProperties);
        }
        match decoded {
            Ok(d) => {
                let mut d = d;
                d.agent_skill_id = uuid_hyphenated(object.id);
                Ok(d)
            },
            Err(e) => Err(e),
        }
    }

    /// Turns this record into a stored object whose properties are `properties`, the
    /// record's serialized form.
    pub fn into_object(self, properties: String) -> (r: Result<Object, Error>)
        ensures
            self.stored_as(properties, r),
    {
        let id: u128 = match parse_uuid(self.agent_skill_id.as_str()) {
            Some(u) => u,
            None => 0,
        };
        let name = self.resource_name();
        let created_at = now();
        Ok(
            Object {
                id,
                label: ObjectLabel::AgentSkill,
                name,
                properties: Some(properties),
                version: 0,
                created_at,
                updated_at: None,
            },
        )
    }
}

impl ResourceExt for AgentSkill {
    open spec fn label_view(&self) -> ObjectLabel {
        ObjectLabel::AgentSkill
    }

    open spec fn name_view(&self) -> Seq<Seq<char>> {
        self.name_parts()
    }

    open spec fn ref_view(&self) -> RefView {
        match uuid_parse(self.agent_skill_id@) {
            Some(u) => RefView::Uuid(u),
            None => RefView::Name(self.name_parts()),
        }
    }

    fn resource_name(&self) -> (r: ResourceName) {
        let mut path: Vec<String> = Vec::new();
        path.push(self.catalog_name.clone());
        path.push(self.schema_name.clone());
        path.push(self.name.clone());
        assert(path.deep_view() =~= self.name_parts());
        ResourceName::new(path)
    }

    fn resource_ref(&self) -> (r: ResourceRef) {
        match parse_uuid(self.agent_skill_id.as_str()) {
            Some(u) => ResourceRef::Uuid(u),
            None => ResourceRef::Name(self.resource_name()),
        }
    }

    fn resource_ident(&self) -> (r: ResourceIdent) {
        ObjectLabel::AgentSkill.to_ident(self.resource_ref())
    }
}

/// A catalog record.
#[derive(Debug, Clone, PartialEq, Eq, Default)]
pub struct Catalog {
    pub name: String,
    pub id: Option<String>,
    pub owner: Option<String>,
    pub comment: Option<String>,
    pub properties: BTreeMap<String, String>,
    pub storage_root: Option<String>,
    pub provider_name: Option<String>,
    pub share_name: Option<String>,
    /// An enumeration code.
    pub catalog_type: Option<i32>,
    pub storage_location: Option<String>,
    pub created_at: Option<i64>,
    pub created_by: Option<String>,
    pub updated_at: Option<i64>,
    pub updated_by: Option<String>,
    pub browse_only: Option<bool>,
}

impl Catalog {
    /// The segments of this record's name.
    pub open spec fn name_parts(&self) -> Seq<Seq<char>> {
        seq![self.name@]
    }

    /// The id of the object stored for this record: the UUID its id parses to, the nil
    /// UUID where it has none, and `Err` where the id is present but does not parse.
    pub open spec fn object_id(&self) -> Result<u128, ()> {
        match self.id {
            Some(s) => match uuid_parse(s@) {
                Some(u) => Ok(u),
                None => Err(()),
            },
            None => Ok(nil_uuid()),
        }
    }

    /// Whether this record is `other` with its id replaced by the hyphenated form of `oid`.
    pub open spec fn restored(&self, other: Catalog, oid: u128) -> bool {
        &&& self.name == other.name
        &&& self.owner == other.owner
        &&& self.comment == other.comment
        &&& self.properties == other.properties
        &&& self.storage_root == other.storage_root
        &&& self.provider_name == other.provider_name
        &&& self.share_name == other.share_name
        &&& self.catalog_type == other.catalog_type
        &&& self.storage_location == other.storage_location
        &&& self.created_at == other.created_at
        &&& self.created_by == other.created_by
        &&& self.updated_at == other.updated_at
        &&& self.updated_by == other.updated_by
        &&& self.browse_only == other.browse_only
        &&& self.id matches Some(s) && s@ == hyphenated(oid)
    }

    /// Whether the two records hold the same values, texts compared by their characters.
    pub open spec fn same_values(&self, other: Catalog) -> bool {
        &&& self.name@ == other.name@
        &&& self.owner == other.owner
        &&& self.comment == other.comment
        &&& self.properties == other.properties
        &&& self.storage_root == other.storage_root
        &&& self.provider_name == other.provider_name
        &&& self.share_name == other.share_name
        &&& self.catalog_type == other.catalog_type
        &&& self.storage_location == other.storage_location
        &&& self.created_at == other.created_at
        &&& self.created_by == other.created_by
        &&& self.updated_at == other.updated_at
        &&& self.updated_by == other.updated_by
        &&& self.browse_only == other.browse_only
        &&& (self.id matches Some(s) ==> other.id matches Some(t) && s@ == t@) && (self.id is None ==> other.id is None)
    }

    /// Whether this record's id is the hyphenated lowercase form of the UUID `u`.
    pub open spec fn has_canonical_id(&self, u: u128) -> bool {
        self.id matches Some(s) && s@ == hyphenated(u)
    }

    /// Whether `r` is what storing this record with the serialized form `properties` gives.
    pub open spec fn stored_as(&self, properties: String, r: Result<Object, Error>) -> bool {
        match self.object_id() {
            Ok(id) => r matches Ok(o) && o.id == id && o.label == ObjectLabel::Catalog
                && o.name@ == self.name_parts() && o.properties == Some(properties)
                && o.version == 0 && o.updated_at is None,
            Err(()) => r matches Err(e) && e matches Error::InvalidUuid(t) && self.id matches Some(s) && t@ == s@,
        }
    }

    /// Returns the fully-qualified dot-separated name computed from component fields.
    pub fn qualified_name(&self) -> (r: String)
        ensures
            r@ == join_with(self.name_view(), '.'),
    {
        proof {
            lemma_join_small(self.name@, self.name@, self.name@, '.');
        }
        self.name.clone()
    }

    /// Reads this record back from a stored object. `decoded` is what the object's
    /// properties decode to; the record read back carries the object's id, hyphenated.
    pub fn try_from_object(object: Object, decoded: Result<Catalog, Error>) -> (r: Result<Catalog, Error>)
        ensures
            object.properties is None ==> r == Err::<Catalog, Error>(Error::MissingProperties),
            object.properties is Some ==> match decoded {
                Ok(d) => r matches Ok(x) && x.restored(d, object.id)
                    && x == (Catalog { id: x.id, ..d }) && (x.id matches Some(t) && t@ == hyphenated(object.id)),
                Err(e) => r == Err::<Catalog, Error>(e),
            },
    {
        if object.properties.is_none() {
            return Err(Error::MissingProperties);
        }
        match decoded {
            Ok(d) => {
                let mut d = d;
                d.id = Some(uuid_hyphenated(object.id));
                Ok(d)
            },
            Err(e) => Err(e),
        }
    }

    /// Turns this record into a stored object whose properties are `properties`, the
    /// record's serialized form; fails where the id is present but is not a UUID.
    pub fn into_object(self, properties: String) -> (r: Result<Object, Error>)
        ensures
            self.stored_as(properties, r),
    {
        let id: u128 = match &self.id {
            Some(s) => match parse_uuid(s.as_str()) {
                Some(u) => u,
                None => {
                    return Err(Error::InvalidUuid(s.clone()));
                },
            },
            None => 0,
        };
        let name = self.resource_name();
        let created_at = now();
        Ok(
            Object {
                id,
                label: ObjectLabel::Catalog,
                name,
                properties: Some(properties),
                version: 0,
                created_at,
                updated_at: None,
            },
        )
    }
}

impl ResourceExt for Catalog {
    open spec fn label_view(&self) -> ObjectLabel {
        ObjectLabel::Catalog
    }

    open spec fn name_view(&self) -> Seq<Seq<char>> {
        self.name_parts()
    }

    open spec fn ref_view(&self) -> RefView {
        match self.id {
            Some(s) => match uuid_parse(s@) {
                Some(u) => RefView::Uuid(u),
                None => RefView::Name(self.name_parts()),
            },
            None => RefView::Name(self.name_parts()),
        }
    }

    fn resource_name(&self) -> (r: ResourceName) {
        let mut path: Vec<String> = Vec::new();
        path.push(self.name.clone());
        assert(path.deep_view() =~= self.name_parts());
        ResourceName::new(path)
    }

    fn resource_ref(&self) -> (r: ResourceRef) {
        match &self.id {
            Some(s) => match parse_uuid(s.as_str()) {
                Some(u) => ResourceRef::Uuid(u),
                None => ResourceRef::Name(self.resource_name()),
            },
            None => ResourceRef::Name(self.resource_name()),
        }
    }

    fn resource_ident(&self) -> (r: ResourceIdent) {
        ObjectLabel::Catalog.to_ident(self.resource_ref())
    }
}

/// A column record.
#[derive(Debug, Clone, PartialEq, Eq, Default)]
pub struct Column {
    pub name: String,
    pub type_text: String,
    pub type_json: String,
    pub position: Option<i32>,
    /// An enumeration code.
    pub column_type: i32,
    pub type_precision: Option<i32>,
    pub type_scale: Option<i32>,
    pub type_interval_type: Option<String>,
    pub comment: Option<String>,
    pub nullable: Option<bool>,
    pub partition_index: Option<i32>,
    pub column_id: Option<String>,
}

impl Column {
    /// The segments of this record's name.
    pub open spec fn name_parts(&self) -> Seq<Seq<char>> {
        seq![self.name@]
    }

    /// The id of the object stored for this record: the UUID its id parses to, the nil
    /// UUID where it has none, and `Err` where the id is present but does not parse.
    pub open spec fn object_id(&self) -> Result<u128, ()> {
        match self.column_id {
            Some(s) => match uuid_parse(s@) {
                Some(u) => Ok(u),
                None => Err(()),
            },
            None => Ok(nil_uuid()),
        }
    }

    /// Whether this record is `other` with its id replaced by the hyphenated form of `oid`.
    pub open spec fn restored(&self, other: Column, oid: u128) -> bool {
        &&& self.name == other.name
        &&& self.type_text == other.type_text
        &&& self.type_json == other.type_json
        &&& self.position == other.position
        &&& self.column_type == other.column_type
        &&& self.type_precision == other.type_precision
        &&& self.type_scale == other.type_scale
        &&& self.type_interval_type == other.type_interval_type
        &&& self.comment == other.comment
        &&& self.nullable == other.nullable
        &&& self.partition_index == other.partition_index
        &&& self.column_id matches Some(s) && s@ == hyphenated(oid)
    }

    /// Whether the two records hold the same values, texts compared by their characters.
    pub open spec fn same_values(&self, other: Column) -> bool {
        &&& self.name@ == other.name@
        &&& self.type_text@ == other.type_text@
        &&& self.type_json@ == other.type_json@
        &&& self.position == other.position
        &&& self.column_type == other.column_type
        &&& self.type_precision == other.type_precision
        &&& self.type_scale == other.type_scale
        &&& self.type_interval_type == other.type_interval_type
        &&& self.comment == other.comment
        &&& self.nullable == other.nullable
        &&& self.partition_index == other.partition_index
        &&& (self.column_id matches Some(s) ==> other.column_id matches Some(t) && s@ == t@) && (self.column_id is None ==> other.column_id is None)
    }

    /// Whether this record's id is the hyphenated lowercase form of the UUID `u`.
    pub open spec fn has_canonical_id(&self, u: u128) -> bool {
        self.column_id matches Some(s) && s@ == hyphenated(u)
    }

    /// Whether `r` is what storing this record with the serialized form `properties` gives.
    pub open spec fn stored_as(&self, properties: String, r: Result<Object, Error>) -> bool {
        match self.object_id() {
            Ok(id) => r matches Ok(o) && o.id == id && o.label == ObjectLabel::Column
                && o.name@ == self.name_parts() && o.properties == Some(properties)
                && o.version == 0 && o.updated_at is None,
            Err(()) => r matches Err(e) && e matches Error::InvalidUuid(t) && self.column_id matches Some(s) && t@ == s@,
        }
    }

    /// Returns the fully-qualified dot-separated name computed from component fields.
    pub fn qualified_name(&self) -> (r: String)
        ensures
            r@ == join_with(self.name_view(), '.'),
    {
        proof {
            lemma_join_small(self.name@, self.name@, self.name@, '.');
        }
        self.name.clone()
    }

    /// Reads this record back from a stored object. `decoded` is what the object's
    /// properties decode to; the record read back carries the object's id, hyphenated.
    pub fn try_from_object(object: Object, decoded: Result<Column, Error>) -> (r: Result<Column, Error>)
        ensures
            object.properties is None ==> r == Err::<Column, Error>(Error::MissingProperties),
            object.properties is Some ==> match decoded {
                Ok(d) => r matches Ok(x) && x.restored(d, object.id)
                    && x == (Column { column_id: x.column_id, ..d }) && (x.column_id matches Some(t) && t@ == hyphenated(object.id)),
                Err(e) => r == Err::<Column, Error>(e),
            },
    {
        if object.properties.is_none() {
            return Err(Error::MissingProperties);
        }
        match decoded {
            Ok(d) => {
                let mut d = d;
                d.column_id = Some(uuid_hyphenated(object.id));
                Ok(d)
            },
            Err(e) => Err(e),
        }
    }

    /// Turns this record into a stored object whose properties are `properties`, the
    /// record's serialized form; fails where the id is present but is not a UUID.
    pub fn into_object(self, properties: String) -> (r: Result<Object, Error>)
        ensures
            self.stored_as(properties, r),
    {
        let id: u128 = match &self.column_id {
            Some(s) => match parse_uuid(s.as_str()) {
                Some(u) => u,
                None => {
                    return Err(Error::InvalidUuid(s.clone()));
                },
            },
            None => 0,
        };
        let name = self.resource_name();
        let created_at = now();
        Ok(
            Object {
                id,
                label: ObjectLabel::Column,
                name,
                properties: Some(properties),
                version: 0,
                created_at,
                updated_at: None,
            },
        )
    }
}

impl ResourceExt for Column {
    open spec fn label_view(&self) -> ObjectLabel {
        ObjectLabel::Column
    }

    open spec fn name_view(&self) -> Seq<Seq<char>> {
        self.name_parts()
    }

    open spec fn ref_view(&self) -> RefView {
        match self.column_id {
            Some(s) => match uuid_parse(s@) {
                Some(u) => RefView::Uuid(u),
                None => RefView::Name(self.name_parts()),
            },
            None => RefView::Name(self.name_parts()),
        }
    }

    fn resource_name(&self) -> (r: ResourceName) {
        let mut path: Vec<String> = Vec::new();
        path.push(self.name.clone());
        assert(path.deep_view() =~= self.name_parts());
        ResourceName::new(path)
    }

    fn resource_ref(&self) -> (r: ResourceRef) {
        match &self.column_id {
            Some(s) => match parse_uuid(s.as_str()) {
                Some(u) => ResourceRef::Uuid(u),
                None => ResourceRef::Name(self.resource_name()),
            },
            None => ResourceRef::Name(self.resource_name()),
        }
    }

    fn resource_ident(&self) -> (r: ResourceIdent) {
        ObjectLabel::Column.to_ident(self.resource_ref())
    }
}

/// A credential record.
#[derive(Debug, Clone, PartialEq, Eq, Default)]
pub struct Credential {
    pub name: String,
    pub id: Option<String>,
    /// An enumeration code.
    pub purpose: i32,
    pub read_only: bool,
    pub comment: Option<String>,
    pub owner: Option<String>,
    pub created_at: Option<i64>,
    pub created_by: Option<String>,
    pub updated_at: Option<i64>,
    pub updated_by: Option<String>,
    pub used_for_managed_storage: bool,
    pub full_name: Option<String>,
    pub azure_service_principal: Option<AzureServicePrincipal>,
    pub azure_managed_identity: Option<AzureManagedIdentity>,
    pub azure_storage_key: Option<AzureStorageKey>,
    /// Held as its JSON text.
    pub aws_iam_role: Option<String>,
    /// Held as its JSON text.
    pub databricks_gcp_service_account: Option<String>,
}

impl Credential {
    /// The segments of this record's name.
    pub open spec fn name_parts(&self) -> Seq<Seq<char>> {
        seq![self.name@]
    }

    /// The id of the object stored for this record: the UUID its id parses to, the nil
    /// UUID where it has none, and `Err` where the id is present but does not parse.
    pub open spec fn object_id(&self) -> Result<u128, ()> {
        match self.id {
            Some(s) => match uuid_parse(s@) {
                Some(u) => Ok(u),
                None => Err(()),
            },
            None => Ok(nil_uuid()),
        }
    }

    /// Whether this record is `other` with its id replaced by the hyphenated form of `oid`.
    pub open spec fn restored(&self, other: Credential, oid: u128) -> bool {
        &&& self.name == other.name
        &&& self.purpose == other.purpose
        &&& self.read_only == other.read_only
        &&& self.comment == other.comment
        &&& self.owner == other.owner
        &&& self.created_at == other.created_at
        &&& self.created_by == other.created_by
        &&& self.updated_at == other.updated_at
        &&& self.updated_by == other.updated_by
        &&& self.used_for_managed_storage == other.used_for_managed_storage
        &&& self.full_name == other.full_name
        &&& self.azure_service_principal == other.azure_service_principal
        &&& self.azure_managed_identity == other.azure_managed_identity
        &&& self.azure_storage_key == other.azure_storage_key
        &&& self.aws_iam_role == other.aws_iam_role
        &&& self.databricks_gcp_service_account == other.databricks_gcp_service_account
        &&& self.id matches Some(s) && s@ == hyphenated(oid)
    }

    /// Whether the two records hold the same values, texts compared by their characters.
    pub open spec fn same_values(&self, other: Credential) -> bool {
        &&& self.name@ == other.name@
        &&& self.purpose == other.purpose
        &&& self.read_only == other.read_only
        &&& self.comment == other.comment
        &&& self.owner == other.owner
        &&& self.created_at == other.created_at
        &&& self.created_by == other.created_by
        &&& self.updated_at == other.updated_at
        &&& self.updated_by == other.updated_by
        &&& self.used_for_managed_storage == other.used_for_managed_storage
        &&& self.full_name == other.full_name
        &&& self.azure_service_principal == other.azure_service_principal
        &&& self.azure_managed_identity == other.azure_managed_identity
        &&& self.azure_storage_key == other.azure_storage_key
        &&& self.aws_iam_role == other.aws_iam_role
        &&& self.databricks_gcp_service_account == other.databricks_gcp_service_account
        &&& (self.id matches Some(s) ==> other.id matches Some(t) && s@ == t@) && (self.id is None ==> other.id is None)
    }

    /// Whether this record's id is the hyphenated lowercase form of the UUID `u`.
    pub open spec fn has_canonical_id(&self, u: u128) -> bool {
        self.id matches Some(s) && s@ == hyphenated(u)
    }

    /// Whether `r` is what storing this record with the serialized form `properties` gives.
    pub open spec fn stored_as(&self, properties: String, r: Result<Object, Error>) -> bool {
        match self.object_id() {
            Ok(id) => r matches Ok(o) && o.id == id && o.label == ObjectLabel::Credential
                && o.name@ == self.name_parts() && o.properties == Some(properties)
                && o.version == 0 && o.updated_at is None,
            Err(()) => r matches Err(e) && e matches Error::InvalidUuid(t) && self.id matches Some(s) && t@ == s@,
        }
    }

    /// Returns the fully-qualified dot-separated name computed from component fields.
    pub fn qualified_name(&self) -> (r: String)
        ensures
            r@ == join_with(self.name_view(), '.'),
    {
        proof {
            lemma_join_small(self.name@, self.name@, self.name@, '.');
        }
        self.name.clone()
    }

    /// Reads this record back from a stored object. `decoded` is what the object's
    /// properties decode to; the record read back carries the object's id, hyphenated.
    pub fn try_from_object(object: Object, decoded: Result<Credential, Error>) -> (r: Result<Credential, Error>)
        ensures
            object.properties is None ==> r == Err::<Credential, Error>(Error::MissingProperties),
            object.properties is Some ==> match decoded {
                Ok(d) => r matches Ok(x) && x.restored(d, object.id)
                    && x == (Credential { id: x.id, ..d }) && (x.id matches Some(t) && t@ == hyphenated(object.id)),
                Err(e) => r == Err::<Credential, Error>(e),
            },
    {
        if object.properties.is_none() {
            return Err(Error::MissingProperties);
        }
        match decoded {
            Ok(d) => {
                let mut d = d;
                d.id = Some(uuid_hyphenated(object.id));
                Ok(d)
            },
            Err(e) => Err(e),
        }
    }

    /// Turns this record into a stored object whose properties are `properties`, the
    /// record's serialized form; fails where the id is present but is not a UUID.
    pub fn into_object(self, properties: String) -> (r: Result<Object, Error>)
        ensures
            self.stored_as(properties, r),
    {
        let id: u128 = match &self.id {
            Some(s) => match parse_uuid(s.as_str()) {
                Some(u) => u,
                None => {
                    return Err(Error::InvalidUuid(s.clone()));
                },
            },
            None => 0,
        };
        let name = self.resource_name();
        let created_at = now();
        Ok(
            Object {
                id,
                label: ObjectLabel::Credential,
                name,
                properties: Some(properties),
                version: 0,
                created_at,
                updated_at: None,
            },
        )
    }
}

impl ResourceExt for Credential {
    open spec fn label_view(&self) -> ObjectLabel {
        ObjectLabel::Credential
    }

    open spec fn name_view(&self) -> Seq<Seq<char>> {
        self.name_parts()
    }

    open spec fn ref_view(&self) -> RefView {
        match self.id {
            Some(s) => match uuid_parse(s@) {
                Some(u) => RefView::Uuid(u),
                None => RefView::Name(self.name_parts()),
            },
            None => RefView::Name(self.name_parts()),
        }
    }

    fn resource_name(&self) -> (r: ResourceName) {
        let mut path: Vec<String> = Vec::new();
        path.push(self.name.clone());
        assert(path.deep_view() =~= self.name_parts());
        ResourceName::new(path)
    }

    fn resource_ref(&self) -> (r: ResourceRef) {
        match &self.id {
            Some(s) => match parse_uuid(s.as_str()) {
                Some(u) => ResourceRef::Uuid(u),
                None => ResourceRef::Name(self.resource_name()),
            },
            None => ResourceRef::Name(self.resource_name()),
        }
    }

    fn resource_ident(&self) -> (r: ResourceIdent) {
        ObjectLabel::Credential.to_ident(self.resource_ref())
    }
}

/// An external location record.
#[derive(Debug, Clone, PartialEq, Eq, Default)]
pub struct ExternalLocation {
    pub name: String,
    pub url: String,
    pub credential_name: String,
    pub read_only: bool,
    pub comment: Option<String>,
    pub owner: Option<String>,
    pub credential_id: String,
    pub created_at: Option<i64>,
    pub created_by: Option<String>,
    pub updated_at: Option<i64>,
    pub updated_by: Option<String>,
    pub browse_only: Option<bool>,
    pub external_location_id: Option<String>,
}

impl ExternalLocation {
    /// The segments of this record's name.
    pub open spec fn name_parts(&self) -> Seq<Seq<char>> {
        seq![self.name@]
    }

    /// The id of the object stored for this record: the UUID its id parses to, the nil
    /// UUID where it has none, and `Err` where the id is present but does not parse.
    pub open spec fn object_id(&self) -> Result<u128, ()> {
        match self.external_location_id {
            Some(s) => match uuid_parse(s@) {
                Some(u) => Ok(u),
                None => Err(()),
            },
            None => Ok(nil_uuid()),
        }
    }

    /// Whether this record is `other` with its id replaced by the hyphenated form of `oid`.
    pub open spec fn restored(&self, other: ExternalLocation, oid: u128) -> bool {
        &&& self.name == other.name
        &&& self.url == other.url
        &&& self.credential_name == other.credential_name
        &&& self.read_only == other.read_only
        &&& self.comment == other.comment
        &&& self.owner == other.owner
        &&& self.credential_id == other.credential_id
        &&& self.created_at == other.created_at
        &&& self.created_by == other.created_by
        &&& self.updated_at == other.updated_at
        &&& self.updated_by == other.updated_by
        &&& self.browse_only == other.browse_only
        &&& self.external_location_id matches Some(s) && s@ == hyphenated(oid)
    }

    /// Whether the two records hold the same values, texts compared by their characters.
    pub open spec fn same_values(&self, other: ExternalLocation) -> bool {
        &&& self.name@ == other.name@
        &&& self.url@ == other.url@
        &&& self.credential_name@ == other.credential_name@
        &&& self.read_only == other.read_only
        &&& self.comment == other.comment
        &&& self.owner == other.owner
        &&& self.credential_id@ == other.credential_id@
        &&& self.created_at == other.created_at
        &&& self.created_by == other.created_by
        &&& self.updated_at == other.updated_at
        &&& self.updated_by == other.updated_by
        &&& self.browse_only == other.browse_only
        &&& (self.external_location_id matches Some(s) ==> other.external_location_id matches Some(t) && s@ == t@) && (self.external_location_id is None ==> other.external_location_id is None)
    }

    /// Whether this record's id is the hyphenated lowercase form of the UUID `u`.
    pub open spec fn has_canonical_id(&self, u: u128) -> bool {
        self.external_location_id matches Some(s) && s@ == hyphenated(u)
    }

    /// Whether `r` is what storing this record with the serialized form `properties` gives.
    pub open spec fn stored_as(&self, properties: String, r: Result<Object, Error>) -> bool {
        match self.object_id() {
            Ok(id) => r matches Ok(o) && o.id == id && o.label == ObjectLabel::ExternalLocation
                && o.name@ == self.name_parts() && o.properties == Some(properties)
                && o.version == 0 && o.updated_at is None,
            Err(()) => r matches Err(e) && e matches Error::InvalidUuid(t) && self.external_location_id matches Some(s) && t@ == s@,
        }
    }

    /// Returns the fully-qualified dot-separated name computed from component fields.
    pub fn qualified_name(&self) -> (r: String)
        ensures
            r@ == join_with(self.name_view(), '.'),
    {
        proof {
            lemma_join_small(self.name@, self.name@, self.name@, '.');
        }
        self.name.clone()
    }

    /// Reads this record back from a stored object. `decoded` is what the object's
    /// properties decode to; the record read back carries the object's id, hyphenated.
    pub fn try_from_object(object: Object, decoded: Result<ExternalLocation, Error>) -> (r: Result<ExternalLocation, Error>)
        ensures
            object.properties is None ==> r == Err::<ExternalLocation, Error>(Error::MissingProperties),
            object.properties is Some ==> match decoded {
                Ok(d) => r matches Ok(x) && x.restored(d, object.id)
                    && x == (ExternalLocation { external_location_id: x.external_location_id, ..d }) && (x.external_location_id matches Some(t) && t@ == hyphenated(object.id)),
                Err(e) => r == Err::<ExternalLocation, Error>(e),
            },
    {
        if object.properties.is_none() {
            return Err(Error::MissingProperties);
        }
        match decoded {
            Ok(d) => {
                let mut d = d;
                d.external_location_id = Some(uuid_hyphenated(object.id));
                Ok(d)
            },
            Err(e) => Err(e),
        }
    }

    /// Turns this record into a stored object whose properties are `properties`, the
    /// record's serialized form; fails where the id is present but is not a UUID.
    pub fn into_object(self, properties: String) -> (r: Result<Object, Error>)
        ensures
            self.stored_as(properties, r),
    {
        let id: u128 = match &self.external_location_id {
            Some(s) => match parse_uuid(s.as_str()) {
                Some(u) => u,
                None => {
                    return Err(Error::InvalidUuid(s.clone()));
                },
            },
            None => 0,
        };
        let name = self.resource_name();
        let created_at = now();
        Ok(
            Object {
                id,
                label: ObjectLabel::ExternalLocation,
                name,
                properties: Some(properties),
                version: 0,
                created_at,
                updated_at: None,
            },
        )
    }
}

impl ResourceExt for ExternalLocation {
    open spec fn label_view(&self) -> ObjectLabel {
        ObjectLabel::ExternalLocation
    }

    open spec fn name_view(&self) -> Seq<Seq<char>> {
        self.name_parts()
    }

    open spec fn ref_view(&self) -> RefView {
        match self.external_location_id {
            Some(s) => match uuid_parse(s@) {
                Some(u) => RefView::Uuid(u),
                None => RefView::Name(self.name_parts()),
            },
            None => RefView::Name(self.name_parts()),
        }
    }

    fn resource_name(&self) -> (r: ResourceName) {
        let mut path: Vec<String> = Vec::new();
        path.push(self.name.clone());
        assert(path.deep_view() =~= self.name_parts());
        ResourceName::new(path)
    }

    fn resource_ref(&self) -> (r: ResourceRef) {
        match &self.external_location_id {
            Some(s) => match parse_uuid(s.as_str()) {
                Some(u) => ResourceRef::Uuid(u),
                None => ResourceRef::Name(self.resource_name()),
            },
            None => ResourceRef::Name(self.resource_name()),
        }
    }

    fn resource_ident(&self) -> (r: ResourceIdent) {
        ObjectLabel::ExternalLocation.to_ident(self.resource_ref())
    }
}

/// A function record.
#[derive(Debug, Clone, PartialEq, Eq, Default)]
pub struct Function {
    pub name: String,
    pub catalog_name: String,
    pub schema_name: String,
    pub full_name: String,
    pub data_type: String,
    pub full_data_type: String,
    pub input_params: Option<FunctionParameterInfos>,
    pub return_params: Option<FunctionParameterInfos>,
    pub routine_body_language: Option<String>,
    pub routine_definition: Option<String>,
    /// Held as its JSON text.
    pub routine_dependencies: Option<String>,
    /// An enumeration code.
    pub parameter_style: i32,
    pub is_deterministic: bool,
    /// An enumeration code.
    pub sql_data_access: i32,
    pub is_null_call: bool,
    /// An enumeration code.
    pub security_type: i32,
    pub specific_name: Option<String>,
    /// An enumeration code.
    pub routine_body: i32,
    pub comment: Option<String>,
    pub properties: BTreeMap<String, String>,
    pub owner: Option<String>,
    pub function_id: Option<String>,
    pub created_at: Option<i64>,
    pub created_by: Option<String>,
    pub updated_at: Option<i64>,
    pub updated_by: Option<String>,
}

impl Function {
    /// The segments of this record's name.
    pub open spec fn name_parts(&self) -> Seq<Seq<char>> {
        seq![self.catalog_name@, self.schema_name@, self.name@]
    }

    /// The id of the object stored for this record: the UUID its id parses to, the nil
    /// UUID where it has none, and `Err` where the id is present but does not parse.
    pub open spec fn object_id(&self) -> Result<u128, ()> {
        match self.function_id {
            Some(s) => match uuid_parse(s@) {
                Some(u) => Ok(u),
                None => Err(()),
            },
            None => Ok(nil_uuid()),
        }
    }

    /// Whether this record is `other` with its id replaced by the hyphenated form of `oid`.
    pub open spec fn restored(&self, other: Function, oid: u128) -> bool {
        &&& self.name == other.name
        &&& self.catalog_name == other.catalog_name
        &&& self.schema_name == other.schema_name
        &&& self.full_name == other.full_name
        &&& self.data_type == other.data_type
        &&& self.full_data_type == other.full_data_type
        &&& self.input_params == other.input_params
        &&& self.return_params == other.return_params
        &&& self.routine_body_language == other.routine_body_language
        &&& self.routine_definition == other.routine_definition
        &&& self.routine_dependencies == other.routine_dependencies
        &&& self.parameter_style == other.parameter_style
        &&& self.is_deterministic == other.is_deterministic
        &&& self.sql_data_access == other.sql_data_access
        &&& self.is_null_call == other.is_null_call
        &&& self.security_type == other.security_type
        &&& self.specific_name == other.specific_name
        &&& self.routine_body == other.routine_body
        &&& self.comment == other.comment
        &&& self.properties == other.properties
        &&& self.owner == other.owner
        &&& self.created_at == other.created_at
        &&& self.created_by == other.created_by
        &&& self.updated_at == other.updated_at
        &&& self.updated_by == other.updated_by
        &&& self.function_id matches Some(s) && s@ == hyphenated(oid)
    }

    /// Whether the two records hold the same values, texts compared by their characters.
    pub open spec fn same_values(&self, other: Function) -> bool {
        &&& self.name@ == other.name@
        &&& self.catalog_name@ == other.catalog_name@
        &&& self.schema_name@ == other.schema_name@
        &&& self.full_name@ == other.full_name@
        &&& self.data_type@ == other.data_type@
        &&& self.full_data_type@ == other.full_data_type@
        &&& self.input_params == other.input_params
        &&& self.return_params == other.return_params
        &&& self.routine_body_language == other.routine_body_language
        &&& self.routine_definition == other.routine_definition
        &&& self.routine_dependencies == other.routine_dependencies
        &&& self.parameter_style == other.parameter_style
        &&& self.is_deterministic == other.is_deterministic
        &&& self.sql_data_access == other.sql_data_access
        &&& self.is_null_call == other.is_null_call
        &&& self.security_type == other.security_type
        &&& self.specific_name == other.specific_name
        &&& self.routine_body == other.routine_body
        &&& self.comment == other.comment
        &&& self.properties == other.properties
        &&& self.owner == other.owner
        &&& self.created_at == other.created_at
        &&& self.created_by == other.created_by
        &&& self.updated_at == other.updated_at
        &&& self.updated_by == other.updated_by
        &&& (self.function_id matches Some(s) ==> other.function_id matches Some(t) && s@ == t@) && (self.function_id is None ==> other.function_id is None)
    }

    /// Whether this record's id is the hyphenated lowercase form of the UUID `u`.
    pub open spec fn has_canonical_id(&self, u: u128) -> bool {
        self.function_id matches Some(s) && s@ == hyphenated(u)
    }

    /// Whether `r` is what storing this record with the serialized form `properties` gives.
    pub open spec fn stored_as(&self, properties: String, r: Result<Object, Error>) -> bool {
        match self.object_id() {
            Ok(id) => r matches Ok(o) && o.id == id && o.label == ObjectLabel::Function
                && o.name@ == self.name_parts() && o.properties == Some(properties)
                && o.version == 0 && o.updated_at is None,
            Err(()) => r matches Err(e) && e matches Error::InvalidUuid(t) && self.function_id matches Some(s) && t@ == s@,
        }
    }

    /// Returns the fully-qualified dot-separated name computed from component fields.
    pub fn qualified_name(&self) -> (r: String)
        ensures
            r@ == join_with(self.name_view(), '.'),
    {
        let mut s = self.catalog_name.clone();
        push_char(&mut s, '.');
        s.append(self.schema_name.as_str());
        push_char(&mut s, '.');
        s.append(self.name.as_str());
        proof {
            lemma_join_small(self.catalog_name@, self.schema_name@, self.name@, '.');
        }
        s
    }

    /// Reads this record back from a stored object. `decoded` is what the object's
    /// properties decode to; the record read back carries the object's id, hyphenated.
    pub fn try_from_object(object: Object, decoded: Result<Function, Error>) -> (r: Result<Function, Error>)
        ensures
            object.properties is None ==> r == Err::<Function, Error>(Error::MissingProperties),
            object.properties is Some ==> match decoded {
                Ok(d) => r matches Ok(x) && x.restored(d, object.id)
                    && x == (Function { function_id: x.function_id, ..d }) && (x.function_id matches Some(t) && t@ == hyphenated(object.id)),
                Err(e) => r == Err::<Function, Error>(e),
            },
    {
        if object.properties.is_none() {
            return Err(Error::MissingProperties);
        }
        match decoded {
            Ok(d) => {
                let mut d = d;
                d.function_id = Some(uuid_hyphenated(object.id));
                Ok(d)
            },
            Err(e) => Err(e),
        }
    }

    /// Turns this record into a stored object whose properties are `properties`, the
    /// record's serialized form; fails where the id is present but is not a UUID.
    pub fn into_object(self, properties: String) -> (r: Result<Object, Error>)
        ensures
            self.stored_as(properties, r),
    {
        let id: u128 = match &self.function_id {
            Some(s) => match parse_uuid(s.as_str()) {
                Some(u) => u,
                None => {
                    return Err(Error::InvalidUuid(s.clone()));
                },
            },
            None => 0,
        };
        let name = self.resource_name();
        let created_at = now();
        Ok(
            Object {
                id,
                label: ObjectLabel::Function,
                name,
                properties: Some(properties),
                version: 0,
                created_at,
                updated_at: None,
            },
        )
    }
}

impl ResourceExt for Function {
    open spec fn label_view(&self) -> ObjectLabel {
        ObjectLabel::Function
    }

    open spec fn name_view(&self) -> Seq<Seq<char>> {
        self.name_parts()
    }

    open spec fn ref_view(&self) -> RefView {
        match self.function_id {
            Some(s) => match uuid_parse(s@) {
                Some(u) => RefView::Uuid(u),
                None => RefView::Name(self.name_parts()),
            },
            None => RefView::Name(self.name_parts()),
        }
    }

    fn resource_name(&self) -> (r: ResourceName) {
        let mut path: Vec<String> = Vec::new();
        path.push(self.catalog_name.clone());
        path.push(self.schema_name.clone());
        path.push(self.name.clone());
        assert(path.deep_view() =~= self.name_parts());
        ResourceName::new(path)
    }

    fn resource_ref(&self) -> (r: ResourceRef) {
        match &self.function_id {
            Some(s) => match parse_uuid(s.as_str()) {
                Some(u) => ResourceRef::Uuid(u),
                None => ResourceRef::Name(self.resource_name()),
            },
            None => ResourceRef::Name(self.resource_name()),
        }
    }

    fn resource_ident(&self) -> (r: ResourceIdent) {
        ObjectLabel::Function.to_ident(self.resource_ref())
    }
}

/// A provider record.
#[derive(Debug, Clone, PartialEq, Eq, Default)]
pub struct Provider {
    pub id: Option<String>,
    pub name: String,
    /// An enumeration code.
    pub authentication_type: i32,
    pub owner: Option<String>,
    pub comment: Option<String>,
    pub recipient_profile_str: Option<String>,
    pub properties: BTreeMap<String, String>,
    pub created_at: Option<i64>,
    pub created_by: Option<String>,
    pub updated_at: Option<i64>,
    pub updated_by: Option<String>,
}

impl Provider {
    /// The segments of this record's name.
    pub open spec fn name_parts(&self) -> Seq<Seq<char>> {
        seq![self.name@]
    }

    /// The id of the object stored for this record: the UUID its id parses to, the nil
    /// UUID where it has none, and `Err` where the id is present but does not parse.
    pub open spec fn object_id(&self) -> Result<u128, ()> {
        match self.id {
            Some(s) => match uuid_parse(s@) {
                Some(u) => Ok(u),
                None => Err(()),
            },
            None => Ok(nil_uuid()),
        }
    }

    /// Whether this record is `other` with its id replaced by the hyphenated form of `oid`.
    pub open spec fn restored(&self, other: Provider, oid: u128) -> bool {
        &&& self.name == other.name
        &&& self.authentication_type == other.authentication_type
        &&& self.owner == other.owner
        &&& self.comment == other.comment
        &&& self.recipient_profile_str == other.recipient_profile_str
        &&& self.properties == other.properties
        &&& self.created_at == other.created_at
        &&& self.created_by == other.created_by
        &&& self.updated_at == other.updated_at
        &&& self.updated_by == other.updated_by
        &&& self.id matches Some(s) && s@ == hyphenated(oid)
    }

    /// Whether the two records hold the same values, texts compared by their characters.
    pub open spec fn same_values(&self, other: Provider) -> bool {
        &&& self.name@ == other.name@
        &&& self.authentication_type == other.authentication_type
        &&& self.owner == other.owner
        &&& self.comment == other.comment
        &&& self.recipient_profile_str == other.recipient_profile_str
        &&& self.properties == other.properties
        &&& self.created_at == other.created_at
        &&& self.created_by == other.created_by
        &&& self.updated_at == other.updated_at
        &&& self.updated_by == other.updated_by
        &&& (self.id matches Some(s) ==> other.id matches Some(t) && s@ == t@) && (self.id is None ==> other.id is None)
    }

    /// Whether this record's id is the hyphenated lowercase form of the UUID `u`.
    pub open spec fn has_canonical_id(&self, u: u128) -> bool {
        self.id matches Some(s) && s@ == hyphenated(u)
    }

    /// Whether `r` is what storing this record with the serialized form `properties` gives.
    pub open spec fn stored_as(&self, properties: String, r: Result<Object, Error>) -> bool {
        match self.object_id() {
            Ok(id) => r matches Ok(o) && o.id == id && o.label == ObjectLabel::Provider
                && o.name@ == self.name_parts() && o.properties == Some(properties)
                && o.version == 0 && o.updated_at is None,
            Err(()) => r matches Err(e) && e matches Error::InvalidUuid(t) && self.id matches Some(s) && t@ == s@,
        }
    }

    /// Returns the fully-qualified dot-separated name computed from component fields.
    pub fn qualified_name(&self) -> (r: String)
        ensures
            r@ == join_with(self.name_view(), '.'),
    {
        proof {
            lemma_join_small(self.name@, self.name@, self.name@, '.');
        }
        self.name.clone()
    }

    /// Reads this record back from a stored object. `decoded` is what the object's
    /// properties decode to; the record read back carries the object's id, hyphenated.
    pub fn try_from_object(object: Object, decoded: Result<Provider, Error>) -> (r: Result<Provider, Error>)
        ensures
            object.properties is None ==> r == Err::<Provider, Error>(Error::MissingProperties),
            object.properties is Some ==> match decoded {
                Ok(d) => r matches Ok(x) && x.restored(d, object.id)
                    && x == (Provider { id: x.id, ..d }) && (x.id matches Some(t) && t@ == hyphenated(object.id)),
                Err(e) => r == Err::<Provider, Error>(e),
            },
    {
        if object.properties.is_none() {
            return Err(Error::MissingProperties);
        }
        match decoded {
            Ok(d) => {
                let mut d = d;
                d.id = Some(uuid_hyphenated(object.id));
                Ok(d)
            },
            Err(e) => Err(e),
        }
    }

    /// Turns this record into a stored object whose properties are `properties`, the
    /// record's serialized form; fails where the id is present but is not a UUID.
    pub fn into_object(self, properties: String) -> (r: Result<Object, Error>)
        ensures
            self.stored_as(properties, r),
    {
        let id: u128 = match &self.id {
            Some(s) => match parse_uuid(s.as_str()) {
                Some(u) => u,
                None => {
                    return Err(Error::InvalidUuid(s.clone()));
                },
            },
            None => 0,
        };
        let name = self.resource_name();
        let created_at = now();
        Ok(
            Object {
                id,
                label: ObjectLabel::Provider,
                name,
                properties: Some(properties),
                version: 0,
                created_at,
                updated_at: None,
            },
        )
    }
}

impl ResourceExt for Provider {
    open spec fn label_view(&self) -> ObjectLabel {
        ObjectLabel::Provider
    }

    open spec fn name_view(&self) -> Seq<Seq<char>> {
        self.name_parts()
    }

    open spec fn ref_view(&self) -> RefView {
        match self.id {
            Some(s) => match uuid_parse(s@) {
                Some(u) => RefView::Uuid(u),
                None => RefView::Name(self.name_parts()),
            },
            None => RefView::Name(self.name_parts()),
        }
    }

    fn resource_name(&self) -> (r: ResourceName) {
        let mut path: Vec<String> = Vec::new();
        path.push(self.name.clone());
        assert(path.deep_view() =~= self.name_parts());
        ResourceName::new(path)
    }

    fn resource_ref(&self) -> (r: ResourceRef) {
        match &self.id {
            Some(s) => match parse_uuid(s.as_str()) {
                Some(u) => ResourceRef::Uuid(u),
                None => ResourceRef::Name(self.resource_name()),
            },
            None => ResourceRef::Name(self.resource_name()),
        }
    }

    fn resource_ident(&self) -> (r: ResourceIdent) {
        ObjectLabel::Provider.to_ident(self.resource_ref())
    }
}

/// A recipient record.
#[derive(Debug, Clone, PartialEq, Eq, Default)]
pub struct Recipient {
    pub id: Option<String>,
    pub name: String,
    /// An enumeration code.
    pub authentication_type: i32,
    pub owner: String,
    pub comment: Option<String>,
    pub properties: BTreeMap<String, String>,
    pub created_at: Option<i64>,
    pub created_by: Option<String>,
    pub tokens: Vec<RecipientToken>,
    pub updated_at: Option<i64>,
    pub updated_by: Option<String>,
}

impl Recipient {
    /// The segments of this record's name.
    pub open spec fn name_parts(&self) -> Seq<Seq<char>> {
        seq![self.name@]
    }

    /// The id of the object stored for this record: the UUID its id parses to, the nil
    /// UUID where it has none, and `Err` where the id is present but does not parse.
    pub open spec fn object_id(&self) -> Result<u128, ()> {
        match self.id {
            Some(s) => match uuid_parse(s@) {
                Some(u) => Ok(u),
                None => Err(()),
            },
            None => Ok(nil_uuid()),
        }
    }

    /// Whether this record is `other` with its id replaced by the hyphenated form of `oid`.
    pub open spec fn restored(&self, other: Recipient, oid: u128) -> bool {
        &&& self.name == other.name
        &&& self.authentication_type == other.authentication_type
        &&& self.owner == other.owner
        &&& self.comment == other.comment
        &&& self.properties == other.properties
        &&& self.created_at == other.created_at
        &&& self.created_by == other.created_by
        &&& self.tokens == other.tokens
        &&& self.updated_at == other.updated_at
        &&& self.updated_by == other.updated_by
        &&& self.id matches Some(s) && s@ == hyphenated(oid)
    }

    /// Whether the two records hold the same values, texts compared by their characters.
    pub open spec fn same_values(&self, other: Recipient) -> bool {
        &&& self.name@ == other.name@
        &&& self.authentication_type == other.authentication_type
        &&& self.owner@ == other.owner@
        &&& self.comment == other.comment
        &&& self.properties == other.properties
        &&& self.created_at == other.created_at
        &&& self.created_by == other.created_by
        &&& self.tokens == other.tokens
        &&& self.updated_at == other.updated_at
        &&& self.updated_by == other.updated_by
        &&& (self.id matches Some(s) ==> other.id matches Some(t) && s@ == t@) && (self.id is None ==> other.id is None)
    }

    /// Whether this record's id is the hyphenated lowercase form of the UUID `u`.
    pub open spec fn has_canonical_id(&self, u: u128) -> bool {
        self.id matches Some(s) && s@ == hyphenated(u)
    }

    /// Whether `r` is what storing this record with the serialized form `properties` gives.
    pub open spec fn stored_as(&self, properties: String, r: Result<Object, Error>) -> bool {
        match self.object_id() {
            Ok(id) => r matches Ok(o) && o.id == id && o.label == ObjectLabel::Recipient
                && o.name@ == self.name_parts() && o.properties == Some(properties)
                && o.version == 0 && o.updated_at is None,
            Err(()) => r matches Err(e) && e matches Error::InvalidUuid(t) && self.id matches Some(s) && t@ == s@,
        }
    }

    /// Returns the fully-qualified dot-separated name computed from component fields.
    pub fn qualified_name(&self) -> (r: String)
        ensures
            r@ == join_with(self.name_view(), '.'),
    {
        proof {
            lemma_join_small(self.name@, self.name@, self.name@, '.');
        }
        self.name.clone()
    }

    /// Reads this record back from a stored object. `decoded` is what the object's
    /// properties decode to; the record read back carries the object's id, hyphenated.
    pub fn try_from_object(object: Object, decoded: Result<Recipient, Error>) -> (r: Result<Recipient, Error>)
        ensures
            object.properties is None ==> r == Err::<Recipient, Error>(Error::MissingProperties),
            object.properties is Some ==> match decoded {
                Ok(d) => r matches Ok(x) && x.restored(d, object.id)
                    && x == (Recipient { id: x.id, ..d }) && (x.id matches Some(t) && t@ == hyphenated(object.id)),
                Err(e) => r == Err::<Recipient, Error>(e),
            },
    {
        if object.properties.is_none() {
            return Err(Error::MissingProperties);
        }
        match decoded {
            Ok(d) => {
                let mut d = d;
                d.id = Some(uuid_hyphenated(object.id));
                Ok(d)
            },
            Err(e) => Err(e),
        }
    }

    /// Turns this record into a stored object whose properties are `properties`, the
    /// record's serialized form; fails where the id is present but is not a UUID.
    pub fn into_object(self, properties: String) -> (r: Result<Object, Error>)
        ensures
            self.stored_as(properties, r),
    {
        let id: u128 = match &self.id {
            Some(s) => match parse_uuid(s.as_str()) {
                Some(u) => u,
                None => {
                    return Err(Error::InvalidUuid(s.clone()));
                },
            },
            None => 0,
        };
        let name = self.resource_name();
        let created_at = now();
        Ok(
            Object {
                id,
                label: ObjectLabel::Recipient,
                name,
                properties: Some(properties),
                version: 0,
                created_at,
                updated_at: None,
            },
        )
    }
}

impl ResourceExt for Recipient {
    open spec fn label_view(&self) -> ObjectLabel {
        ObjectLabel::Recipient
    }

    open spec fn name_view(&self) -> Seq<Seq<char>> {
        self.name_parts()
    }

    open spec fn ref_view(&self) -> RefView {
        match self.id {
            Some(s) => match uuid_parse(s@) {
                Some(u) => RefView::Uuid(u),
                None => RefView::Name(self.name_parts()),
            },
            None => RefView::Name(self.name_parts()),
        }
    }

    fn resource_name(&self) -> (r: ResourceName) {
        let mut path: Vec<String> = Vec::new();
        path.push(self.name.clone());
        assert(path.deep_view() =~= self.name_parts());
        ResourceName::new(path)
    }

    fn resource_ref(&self) -> (r: ResourceRef) {
        match &self.id {
            Some(s) => match parse_uuid(s.as_str()) {
                Some(u) => ResourceRef::Uuid(u),
                None => ResourceRef::Name(self.resource_name()),
            },
            None => ResourceRef::Name(self.resource_name()),
        }
    }

    fn resource_ident(&self) -> (r: ResourceIdent) {
        ObjectLabel::Recipient.to_ident(self.resource_ref())
    }
}

/// A schema record.
#[derive(Debug, Clone, PartialEq, Eq, Default)]
pub struct Schema {
    pub name: String,
    pub catalog_name: String,
    pub full_name: String,
    pub comment: Option<String>,
    pub properties: BTreeMap<String, String>,
    pub owner: Option<String>,
    pub created_at: Option<i64>,
    pub created_by: Option<String>,
    pub updated_at: Option<i64>,
    pub updated_by: Option<String>,
    pub schema_id: Option<String>,
    pub storage_root: Option<String>,
    pub storage_location: Option<String>,
}

impl Schema {
    /// The segments of this record's name.
    pub open spec fn name_parts(&self) -> Seq<Seq<char>> {
        seq![self.catalog_name@, self.name@]
    }

    /// The id of the object stored for this record: the UUID its id parses to, the nil
    /// UUID where it has none, and `Err` where the id is present but does not parse.
    pub open spec fn object_id(&self) -> Result<u128, ()> {
        match self.schema_id {
            Some(s) => match uuid_parse(s@) {
                Some(u) => Ok(u),
                None => Err(()),
            },
            None => Ok(nil_uuid()),
        }
    }

    /// Whether this record is `other` with its id replaced by the hyphenated form of `oid`.
    pub open spec fn restored(&self, other: Schema, oid: u128) -> bool {
        &&& self.name == other.name
        &&& self.catalog_name == other.catalog_name
        &&& self.full_name == other.full_name
        &&& self.comment == other.comment
        &&& self.properties == other.properties
        &&& self.owner == other.owner
        &&& self.created_at == other.created_at
        &&& self.created_by == other.created_by
        &&& self.updated_at == other.updated_at
        &&& self.updated_by == other.updated_by
        &&& self.storage_root == other.storage_root
        &&& self.storage_location == other.storage_location
        &&& self.schema_id matches Some(s) && s@ == hyphenated(oid)
    }

    /// Whether the two records hold the same values, texts compared by their characters.
    pub open spec fn same_values(&self, other: Schema) -> bool {
        &&& self.name@ == other.name@
        &&& self.catalog_name@ == other.catalog_name@
        &&& self.full_name@ == other.full_name@
        &&& self.comment == other.comment
        &&& self.properties == other.properties
        &&& self.owner == other.owner
        &&& self.created_at == other.created_at
        &&& self.created_by == other.created_by
        &&& self.updated_at == other.updated_at
        &&& self.updated_by == other.updated_by
        &&& self.storage_root == other.storage_root
        &&& self.storage_location == other.storage_location
        &&& (self.schema_id matches Some(s) ==> other.schema_id matches Some(t) && s@ == t@) && (self.schema_id is None ==> other.schema_id is None)
    }

    /// Whether this record's id is the hyphenated lowercase form of the UUID `u`.
    pub open spec fn has_canonical_id(&self, u: u128) -> bool {
        self.schema_id matches Some(s) && s@ == hyphenated(u)
    }

    /// Whether `r` is what storing this record with the serialized form `properties` gives.
    pub open spec fn stored_as(&self, properties: String, r: Result<Object, Error>) -> bool {
        match self.object_id() {
            Ok(id) => r matches Ok(o) && o.id == id && o.label == ObjectLabel::Schema
                && o.name@ == self.name_parts() && o.properties == Some(properties)
                && o.version == 0 && o.updated_at is None,
            Err(()) => r matches Err(e) && e matches Error::InvalidUuid(t) && self.schema_id matches Some(s) && t@ == s@,
        }
    }

    /// Returns the fully-qualified dot-separated name computed from component fields.
    pub fn qualified_name(&self) -> (r: String)
        ensures
            r@ == join_with(self.name_view(), '.'),
    {
        let mut s = self.catalog_name.clone();
        push_char(&mut s, '.');
        s.append(self.name.as_str());
        proof {
            lemma_join_small(self.catalog_name@, self.name@, self.catalog_name@, '.');
        }
        s
    }

    /// Reads this record back from a stored object. `decoded` is what the object's
    /// properties decode to; the record read back carries the object's id, hyphenated.
    pub fn try_from_object(object: Object, decoded: Result<Schema, Error>) -> (r: Result<Schema, Error>)
        ensures
            object.properties is None ==> r == Err::<Schema, Error>(Error::MissingProperties),
            object.properties is Some ==> match decoded {
                Ok(d) => r matches Ok(x) && x.restored(d, object.id)
                    && x == (Schema { schema_id: x.schema_id, ..d }) && (x.schema_id matches Some(t) && t@ == hyphenated(object.id)),
                Err(e) => r == Err::<Schema, Error>(e),
            },
    {
        if object.properties.is_none() {
            return Err(Error::MissingProperties);
        }
        match decoded {
            Ok(d) => {
                let mut d = d;
                d.schema_id = Some(uuid_hyphenated(object.id));
                Ok(d)
            },
            Err(e) => Err(e),
        }
    }

    /// Turns this record into a stored object whose properties are `properties`, the
    /// record's serialized form; fails where the id is present but is not a UUID.
    pub fn into_object(self, properties: String) -> (r: Result<Object, Error>)
        ensures
            self.stored_as(properties, r),
    {
        let id: u128 = match &self.schema_id {
            Some(s) => match parse_uuid(s.as_str()) {
                Some(u) => u,
                None => {
                    return Err(Error::InvalidUuid(s.clone()));
                },
            },
            None => 0,
        };
        let name = self.resource_name();
        let created_at = now();
        Ok(
            Object {
                id,
                label: ObjectLabel::Schema,
                name,
                properties: Some(properties),
                version: 0,
                created_at,
                updated_at: None,
            },
        )
    }
}

impl ResourceExt for Schema {
    open spec fn label_view(&self) -> ObjectLabel {
        ObjectLabel::Schema
    }

    open spec fn name_view(&self) -> Seq<Seq<char>> {
        self.name_parts()
    }

    open spec fn ref_view(&self) -> RefView {
        match self.schema_id {
            Some(s) => match uuid_parse(s@) {
                Some(u) => RefView::Uuid(u),
                None => RefView::Name(self.name_parts()),
            },
            None => RefView::Name(self.name_parts()),
        }
    }

    fn resource_name(&self) -> (r: ResourceName) {
        let mut path: Vec<String> = Vec::new();
        path.push(self.catalog_name.clone());
        path.push(self.name.clone());
        assert(path.deep_view() =~= self.name_parts());
        ResourceName::new(path)
    }

    fn resource_ref(&self) -> (r: ResourceRef) {
        match &self.schema_id {
            Some(s) => match parse_uuid(s.as_str()) {
                Some(u) => ResourceRef::Uuid(u),
                None => ResourceRef::Name(self.resource_name()),
            },
            None => ResourceRef::Name(self.resource_name()),
        }
    }

    fn resource_ident(&self) -> (r: ResourceIdent) {
        ObjectLabel::Schema.to_ident(self.resource_ref())
    }
}

/// A share record.
#[derive(Debug, Clone, PartialEq, Eq, Default)]
pub struct Share {
    pub id: Option<String>,
    pub name: String,
    pub objects: Vec<DataObject>,
    pub owner: Option<String>,
    pub comment: Option<String>,
    pub storage_location: Option<String>,
    pub storage_root: Option<String>,
    pub created_at: Option<i64>,
    pub created_by: Option<String>,
    pub updated_at: Option<i64>,
    pub updated_by: Option<String>,
}

impl Share {
    /// The segments of this record's name.
    pub open spec fn name_parts(&self) -> Seq<Seq<char>> {
        seq![self.name@]
    }

    /// The id of the object stored for this record: the UUID its id parses to, the nil
    /// UUID where it has none, and `Err` where the id is present but does not parse.
    pub open spec fn object_id(&self) -> Result<u128, ()> {
        match self.id {
            Some(s) => match uuid_parse(s@) {
                Some(u) => Ok(u),
                None => Err(()),
            },
            None => Ok(nil_uuid()),
        }
    }

    /// Whether this record is `other` with its id replaced by the hyphenated form of `oid`.
    pub open spec fn restored(&self, other: Share, oid: u128) -> bool {
        &&& self.name == other.name
        &&& self.objects == other.objects
        &&& self.owner == other.owner
        &&& self.comment == other.comment
        &&& self.storage_location == other.storage_location
        &&& self.storage_root == other.storage_root
        &&& self.created_at == other.created_at
        &&& self.created_by == other.created_by
        &&& self.updated_at == other.updated_at
        &&& self.updated_by == other.updated_by
        &&& self.id matches Some(s) && s@ == hyphenated(oid)
    }

    /// Whether the two records hold the same values, texts compared by their characters.
    pub open spec fn same_values(&self, other: Share) -> bool {
        &&& self.name@ == other.name@
        &&& self.objects == other.objects
        &&& self.owner == other.owner
        &&& self.comment == other.comment
        &&& self.storage_location == other.storage_location
        &&& self.storage_root == other.storage_root
        &&& self.created_at == other.created_at
        &&& self.created_by == other.created_by
        &&& self.updated_at == other.updated_at
        &&& self.updated_by == other.updated_by
        &&& (self.id matches Some(s) ==> other.id matches Some(t) && s@ == t@) && (self.id is None ==> other.id is None)
    }

    /// Whether this record's id is the hyphenated lowercase form of the UUID `u`.
    pub open spec fn has_canonical_id(&self, u: u128) -> bool {
        self.id matches Some(s) && s@ == hyphenated(u)
    }

    /// Whether `r` is what storing this record with the serialized form `properties` gives.
    pub open spec fn stored_as(&self, properties: String, r: Result<Object, Error>) -> bool {
        match self.object_id() {
            Ok(id) => r matches Ok(o) && o.id == id && o.label == ObjectLabel::Share
                && o.name@ == self.name_parts() && o.properties == Some(properties)
                && o.version == 0 && o.updated_at is None,
            Err(()) => r matches Err(e) && e matches Error::InvalidUuid(t) && self.id matches Some(s) && t@ == s@,
        }
    }

    /// Returns the fully-qualified dot-separated name computed from component fields.
    pub fn qualified_name(&self) -> (r: String)
        ensures
            r@ == join_with(self.name_view(), '.'),
    {
        proof {
            lemma_join_small(self.name@, self.name@, self.name@, '.');
        }
        self.name.clone()
    }

    /// Reads this record back from a stored object. `decoded` is what the object's
    /// properties decode to; the record read back carries the object's id, hyphenated.
    pub fn try_from_object(object: Object, decoded: Result<Share, Error>) -> (r: Result<Share, Error>)
        ensures
            object.properties is None ==> r == Err::<Share, Error>(Error::MissingProperties),
            object.properties is Some ==> match decoded {
                Ok(d) => r matches Ok(x) && x.restored(d, object.id)
                    && x == (Share { id: x.id, ..d }) && (x.id matches Some(t) && t@ == hyphenated(object.id)),
                Err(e) => r == Err::<Share, Error>(e),
            },
    {
        if object.properties.is_none() {
            return Err(Error::MissingProperties);
        }
        match decoded {
            Ok(d) => {
                let mut d = d;
                d.id = Some(uuid_hyphenated(object.id));
                Ok(d)
            },
            Err(e) => Err(e),
        }
    }

    /// Turns this record into a stored object whose properties are `properties`, the
    /// record's serialized form; fails where the id is present but is not a UUID.
    pub fn into_object(self, properties: String) -> (r: Result<Object, Error>)
        ensures
            self.stored_as(properties, r),
    {
        let id: u128 = match &self.id {
            Some(s) => match parse_uuid(s.as_str()) {
                Some(u) => u,
                None => {
                    return Err(Error::InvalidUuid(s.clone()));
                },
            },
            None => 0,
        };
        let name = self.resource_name();
        let created_at = now();
        Ok(
            Object {
                id,
                label: ObjectLabel::Share,
                name,
                properties: Some(properties),
                version: 0,
                created_at,
                updated_at: None,
            },
        )
    }
}

impl ResourceExt for Share {
    open spec fn label_view(&self) -> ObjectLabel {
        ObjectLabel::Share
    }

    open spec fn name_view(&self) -> Seq<Seq<char>> {
        self.name_parts()
    }

    open spec fn ref_view(&self) -> RefView {
        match self.id {
            Some(s) => match uuid_parse(s@) {
                Some(u) => RefView::Uuid(u),
                None => RefView::Name(self.name_parts()),
            },
            None => RefView::Name(self.name_parts()),
        }
    }

    fn resource_name(&self) -> (r: ResourceName) {
        let mut path: Vec<String> = Vec::new();
        path.push(self.name.clone());
        assert(path.deep_view() =~= self.name_parts());
        ResourceName::new(path)
    }

    fn resource_ref(&self) -> (r: ResourceRef) {
        match &self.id {
            Some(s) => match parse_uuid(s.as_str()) {
                Some(u) => ResourceRef::Uuid(u),
                None => ResourceRef::Name(self.resource_name()),
            },
            None => ResourceRef::Name(self.resource_name()),
        }
    }

    fn resource_ident(&self) -> (r: ResourceIdent) {
        ObjectLabel::Share.to_ident(self.resource_ref())
    }
}

/// A staging table record.
#[derive(Debug, Clone, PartialEq, Eq, Default)]
pub struct StagingTable {
    pub id: String,
    pub name: String,
    pub schema_name: String,
    pub catalog_name: String,
    pub staging_location: String,
    pub created_by: Option<String>,
    pub stage_committed: bool,
    pub created_at: Option<i64>,
}

impl StagingTable {
    /// The segments of this record's name.
    pub open spec fn name_parts(&self) -> Seq<Seq<char>> {
        seq![self.name@]
    }

    /// The id of the object stored for this record: the UUID its id parses to, the nil
    /// UUID where it does not parse.
    pub open spec fn object_id(&self) -> Result<u128, ()> {
        match uuid_parse(self.id@) {
            Some(u) => Ok(u),
            None => Ok(nil_uuid()),
        }
    }

    /// Whether this record is `other` with its id replaced by the hyphenated form of `oid`.
    pub open spec fn restored(&self, other: StagingTable, oid: u128) -> bool {
        &&& self.name == other.name
        &&& self.schema_name == other.schema_name
        &&& self.catalog_name == other.catalog_name
        &&& self.staging_location == other.staging_location
        &&& self.created_by == other.created_by
        &&& self.stage_committed == other.stage_committed
        &&& self.created_at == other.created_at
        &&& self.id@ == hyphenated(oid)
    }

    /// Whether the two records hold the same values, texts compared by their characters.
    pub open spec fn same_values(&self, other: StagingTable) -> bool {
        &&& self.name@ == other.name@
        &&& self.schema_name@ == other.schema_name@
        &&& self.catalog_name@ == other.catalog_name@
        &&& self.staging_location@ == other.staging_location@
        &&& self.created_by == other.created_by
        &&& self.stage_committed == other.stage_committed
        &&& self.created_at == other.created_at
        &&& self.id@ == other.id@
    }

    /// Whether this record's id is the hyphenated lowercase form of the UUID `u`.
    pub open spec fn has_canonical_id(&self, u: u128) -> bool {
        self.id@ == hyphenated(u)
    }

    /// Whether `r` is what storing this record with the serialized form `properties` gives.
    pub open spec fn stored_as(&self, properties: String, r: Result<Object, Error>) -> bool {
        match self.object_id() {
            Ok(id) => r matches Ok(o) && o.id == id && o.label == ObjectLabel::StagingTable
                && o.name@ == self.name_parts() && o.properties == Some(properties)
                && o.version == 0 && o.updated_at is None,
            Err(()) => false,
        }
    }

    /// Returns the fully-qualified dot-separated name computed from component fields.
    pub fn qualified_name(&self) -> (r: String)
        ensures
            r@ == join_with(self.name_view(), '.'),
    {
        proof {
            lemma_join_small(self.name@, self.name@, self.name@, '.');
        }
        self.name.clone()
    }

    /// Reads this record back from a stored object. `decoded` is what the object's
    /// properties decode to; the record read back carries the object's id, hyphenated.
    pub fn try_from_object(object: Object, decoded: Result<StagingTable, Error>) -> (r: Result<StagingTable, Error>)
        ensures
            object.properties is None ==> r == Err::<StagingTable, Error>(Error::MissingProperties),
            object.properties is Some ==> match decoded {
                Ok(d) => r matches Ok(x) && x.restored(d, object.id)
                    && x == (StagingTable { id: x.id, ..d }) && x.id@ == hyphenated(object.id),
                Err(e) => r == Err::<StagingTable, Error>(e),
            },
    {
        if object.properties.is_none() {
            return Err(Error::MissingProperties);
        }
        match decoded {
            Ok(d) => {
                let mut d = d;
                d.id = uuid_hyphenated(object.id);
                Ok(d)
            },
            Err(e) => Err(e),
        }
    }

    /// Turns this record into a stored object whose properties are `properties`, the
    /// record's serialized form.
    pub fn into_object(self, properties: String) -> (r: Result<Object, Error>)
        ensures
            self.stored_as(properties, r),
    {
        let id: u128 = match parse_uuid(self.id.as_str()) {
            Some(u) => u,
            None => 0,
        };
        let name = self.resource_name();
        let created_at = now();
        Ok(
            Object {
                id,
                label: ObjectLabel::StagingTable,
                name,
                properties: Some(properties),
                version: 0,
                created_at,
                updated_at: None,
            },
        )
    }
}

impl ResourceExt for StagingTable {
    open spec fn label_view(&self) -> ObjectLabel {
        ObjectLabel::StagingTable
    }

    open spec fn name_view(&self) -> Seq<Seq<char>> {
        self.name_parts()
    }

    open spec fn ref_view(&self) -> RefView {
        match uuid_parse(self.id@) {
            Some(u) => RefView::Uuid(u),
            None => RefView::Name(self.name_parts()),
        }
    }

    fn resource_name(&self) -> (r: ResourceName) {
        let mut path: Vec<String> = Vec::new();
        path.push(self.name.clone());
        assert(path.deep_view() =~= self.name_parts());
        ResourceName::new(path)
    }

    fn resource_ref(&self) -> (r: ResourceRef) {
        match parse_uuid(self.id.as_str()) {
            Some(u) => ResourceRef::Uuid(u),
            None => ResourceRef::Name(self.resource_name()),
        }
    }

    fn resource_ident(&self) -> (r: ResourceIdent) {
        ObjectLabel::StagingTable.to_ident(self.resource_ref())
    }
}

/// A table record.
#[derive(Debug, Clone, PartialEq, Eq, Default)]
pub struct Table {
    pub name: String,
    pub catalog_name: String,
    pub schema_name: String,
    /// An enumeration code.
    pub table_type: i32,
    /// An enumeration code.
    pub data_source_format: i32,
    pub columns: Vec<Column>,
    pub storage_location: Option<String>,
    pub view_definition: Option<String>,
    /// Held as its JSON text.
    pub view_dependencies: Option<String>,
    pub owner: Option<String>,
    pub comment: Option<String>,
    pub properties: BTreeMap<String, String>,
    pub storage_credential_name: Option<String>,
    pub full_name: String,
    pub created_at: Option<i64>,
    pub created_by: Option<String>,
    pub updated_at: Option<i64>,
    pub updated_by: Option<String>,
    pub deleted_at: Option<i64>,
    pub table_id: Option<String>,
}

impl Table {
    /// The segments of this record's name.
    pub open spec fn name_parts(&self) -> Seq<Seq<char>> {
        seq![self.catalog_name@, self.schema_name@, self.name@]
    }

    /// The id of the object stored for this record: the UUID its id parses to, the nil
    /// UUID where it has none, and `Err` where the id is present but does not parse.
    pub open spec fn object_id(&self) -> Result<u128, ()> {
        match self.table_id {
            Some(s) => match uuid_parse(s@) {
                Some(u) => Ok(u),
                None => Err(()),
            },
            None => Ok(nil_uuid()),
        }
    }

    /// Whether this record is `other` with its id replaced by the hyphenated form of `oid`.
    pub open spec fn restored(&self, other: Table, oid: u128) -> bool {
        &&& self.name == other.name
        &&& self.catalog_name == other.catalog_name
        &&& self.schema_name == other.schema_name
        &&& self.table_type == other.table_type
        &&& self.data_source_format == other.data_source_format
        &&& self.columns == other.columns
        &&& self.storage_location == other.storage_location
        &&& self.view_definition == other.view_definition
        &&& self.view_dependencies == other.view_dependencies
        &&& self.owner == other.owner
        &&& self.comment == other.comment
        &&& self.properties == other.properties
        &&& self.storage_credential_name == other.storage_credential_name
        &&& self.full_name == other.full_name
        &&& self.created_at == other.created_at
        &&& self.created_by == other.created_by
        &&& self.updated_at == other.updated_at
        &&& self.updated_by == other.updated_by
        &&& self.deleted_at == other.deleted_at
        &&& self.table_id matches Some(s) && s@ == hyphenated(oid)
    }

    /// Whether the two records hold the same values, texts compared by their characters.
    pub open spec fn same_values(&self, other: Table) -> bool {
        &&& self.name@ == other.name@
        &&& self.catalog_name@ == other.catalog_name@
        &&& self.schema_name@ == other.schema_name@
        &&& self.table_type == other.table_type
        &&& self.data_source_format == other.data_source_format
        &&& self.columns == other.columns
        &&& self.storage_location == other.storage_location
        &&& self.view_definition == other.view_definition
        &&& self.view_dependencies == other.view_dependencies
        &&& self.owner == other.owner
        &&& self.comment == other.comment
        &&& self.properties == other.properties
        &&& self.storage_credential_name == other.storage_credential_name
        &&& self.full_name@ == other.full_name@
        &&& self.created_at == other.created_at
        &&& self.created_by == other.created_by
        &&& self.updated_at == other.updated_at
        &&& self.updated_by == other.updated_by
        &&& self.deleted_at == other.deleted_at
        &&& (self.table_id matches Some(s) ==> other.table_id matches Some(t) && s@ == t@) && (self.table_id is None ==> other.table_id is None)
    }

    /// Whether this record's id is the hyphenated lowercase form of the UUID `u`.
    pub open spec fn has_canonical_id(&self, u: u128) -> bool {
        self.table_id matches Some(s) && s@ == hyphenated(u)
    }

    /// Whether `r` is what storing this record with the serialized form `properties` gives.
    pub open spec fn stored_as(&self, properties: String, r: Result<Object, Error>) -> bool {
        match self.object_id() {
            Ok(id) => r matches Ok(o) && o.id == id && o.label == ObjectLabel::Table
                && o.name@ == self.name_parts() && o.properties == Some(properties)
                && o.version == 0 && o.updated_at is None,
            Err(()) => r matches Err(e) && e matches Error::InvalidUuid(t) && self.table_id matches Some(s) && t@ == s@,
        }
    }

    /// Returns the fully-qualified dot-separated name computed from component fields.
    pub fn qualified_name(&self) -> (r: String)
        ensures
            r@ == join_with(self.name_view(), '.'),
    {
        let mut s = self.catalog_name.clone();
        push_char(&mut s, '.');
        s.append(self.schema_name.as_str());
        push_char(&mut s, '.');
        s.append(self.name.as_str());
        proof {
            lemma_join_small(self.catalog_name@, self.schema_name@, self.name@, '.');
        }
        s
    }

    /// Reads this record back from a stored object. `decoded` is what the object's
    /// properties decode to; the record read back carries the object's id, hyphenated.
    pub fn try_from_object(object: Object, decoded: Result<Table, Error>) -> (r: Result<Table, Error>)
        ensures
            object.properties is None ==> r == Err::<Table, Error>(Error::MissingProperties),
            object.properties is Some ==> match decoded {
                Ok(d) => r matches Ok(x) && x.restored(d, object.id)
                    && x == (Table { table_id: x.table_id, ..d }) && (x.table_id matches Some(t) && t@ == hyphenated(object.id)),
                Err(e) => r == Err::<Table, Error>(e),
            },
    {
        if object.properties.is_none() {
            return Err(Error::MissingProperties);
        }
        match decoded {
            Ok(d) => {
                let mut d = d;
                d.table_id = Some(uuid_hyphenated(object.id));
                Ok(d)
            },
            Err(e) => Err(e),
        }
    }

    /// Turns this record into a stored object whose properties are `properties`, the
    /// record's serialized form; fails where the id is present but is not a UUID.
    pub fn into_object(self, properties: String) -> (r: Result<Object, Error>)
        ensures
            self.stored_as(properties, r),
    {
        let id: u128 = match &self.table_id {
            Some(s) => match parse_uuid(s.as_str()) {
                Some(u) => u,
                None => {
                    return Err(Error::InvalidUuid(s.clone()));
                },
            },
            None => 0,
        };
        let name = self.resource_name();
        let created_at = now();
        Ok(
            Object {
                id,
                label: ObjectLabel::Table,
                name,
                properties: Some(properties),
                version: 0,
                created_at,
                updated_at: None,
            },
        )
    }
}

impl ResourceExt for Table {
    open spec fn label_view(&self) -> ObjectLabel {
        ObjectLabel::Table
    }

    open spec fn name_view(&self) -> Seq<Seq<char>> {
        self.name_parts()
    }

    open spec fn ref_view(&self) -> RefView {
        match self.table_id {
            Some(s) => match uuid_parse(s@) {
                Some(u) => RefView::Uuid(u),
                None => RefView::Name(self.name_parts()),
            },
            None => RefView::Name(self.name_parts()),
        }
    }

    fn resource_name(&self) -> (r: ResourceName) {
        let mut path: Vec<String> = Vec::new();
        path.push(self.catalog_name.clone());
        path.push(self.schema_name.clone());
        path.push(self.name.clone());
        assert(path.deep_view() =~= self.name_parts());
        ResourceName::new(path)
    }

    fn resource_ref(&self) -> (r: ResourceRef) {
        match &self.table_id {
            Some(s) => match parse_uuid(s.as_str()) {
                Some(u) => ResourceRef::Uuid(u),
                None => ResourceRef::Name(self.resource_name()),
            },
            None => ResourceRef::Name(self.resource_name()),
        }
    }

    fn resource_ident(&self) -> (r: ResourceIdent) {
        ObjectLabel::Table.to_ident(self.resource_ref())
    }
}

/// A tag policy record.
#[derive(Debug, Clone, PartialEq, Eq, Default)]
pub struct TagPolicy {
    pub tag_key: String,
    pub description: Option<String>,
    pub values: Vec<TagValue>,
    pub id: Option<String>,
    pub created_at: Option<i64>,
    pub updated_at: Option<i64>,
}

impl TagPolicy {
    /// The segments of this record's name.
    pub open spec fn name_parts(&self) -> Seq<Seq<char>> {
        seq![self.tag_key@]
    }

    /// The id of the object stored for this record: the UUID its id parses to, the nil
    /// UUID where it has none, and `Err` where the id is present but does not parse.
    pub open spec fn object_id(&self) -> Result<u128, ()> {
        match self.id {
            Some(s) => match uuid_parse(s@) {
                Some(u) => Ok(u),
                None => Err(()),
            },
            None => Ok(nil_uuid()),
        }
    }

    /// Whether this record is `other` with its id replaced by the hyphenated form of `oid`.
    pub open spec fn restored(&self, other: TagPolicy, oid: u128) -> bool {
        &&& self.tag_key == other.tag_key
        &&& self.description == other.description
        &&& self.values == other.values
        &&& self.created_at == other.created_at
        &&& self.updated_at == other.updated_at
        &&& self.id matches Some(s) && s@ == hyphenated(oid)
    }

    /// Whether the two records hold the same values, texts compared by their characters.
    pub open spec fn same_values(&self, other: TagPolicy) -> bool {
        &&& self.tag_key@ == other.tag_key@
        &&& self.description == other.description
        &&& self.values == other.values
        &&& self.created_at == other.created_at
        &&& self.updated_at == other.updated_at
        &&& (self.id matches Some(s) ==> other.id matches Some(t) && s@ == t@) && (self.id is None ==> other.id is None)
    }

    /// Whether this record's id is the hyphenated lowercase form of the UUID `u`.
    pub open spec fn has_canonical_id(&self, u: u128) -> bool {
        self.id matches Some(s) && s@ == hyphenated(u)
    }

    /// Whether `r` is what storing this record with the serialized form `properties` gives.
    pub open spec fn stored_as(&self, properties: String, r: Result<Object, Error>) -> bool {
        match self.object_id() {
            Ok(id) => r matches Ok(o) && o.id == id && o.label == ObjectLabel::TagPolicy
                && o.name@ == self.name_parts() && o.properties == Some(properties)
                && o.version == 0 && o.updated_at is None,
            Err(()) => r matches Err(e) && e matches Error::InvalidUuid(t) && self.id matches Some(s) && t@ == s@,
        }
    }

    /// Returns the fully-qualified dot-separated name computed from component fields.
    pub fn qualified_name(&self) -> (r: String)
        ensures
            r@ == join_with(self.name_view(), '.'),
    {
        proof {
            lemma_join_small(self.tag_key@, self.tag_key@, self.tag_key@, '.');
        }
        self.tag_key.clone()
    }

    /// Reads this record back from a stored object. `decoded` is what the object's
    /// properties decode to; the record read back carries the object's id, hyphenated.
    pub fn try_from_object(object: Object, decoded: Result<TagPolicy, Error>) -> (r: Result<TagPolicy, Error>)
        ensures
            object.properties is None ==> r == Err::<TagPolicy, Error>(Error::MissingProperties),
            object.properties is Some ==> match decoded {
                Ok(d) => r matches Ok(x) && x.restored(d, object.id)
                    && x == (TagPolicy { id: x.id, ..d }) && (x.id matches Some(t) && t@ == hyphenated(object.id)),
                Err(e) => r == Err::<TagPolicy, Error>(e),
            },
    {
        if object.properties.is_none() {
            return Err(Error::MissingProperties);
        }
        match decoded {
            Ok(d) => {
                let mut d = d;
                d.id = Some(uuid_hyphenated(object.id));
                Ok(d)
            },
            Err(e) => Err(e),
        }
    }

    /// Turns this record into a stored object whose properties are `properties`, the
    /// record's serialized form; fails where the id is present but is not a UUID.
    pub fn into_object(self, properties: String) -> (r: Result<Object, Error>)
        ensures
            self.stored_as(properties, r),
    {
        let id: u128 = match &self.id {
            Some(s) => match parse_uuid(s.as_str()) {
                Some(u) => u,
                None => {
                    return Err(Error::InvalidUuid(s.clone()));
                },
            },
            None => 0,
        };
        let name = self.resource_name();
        let created_at = now();
        Ok(
            Object {
                id,
                label: ObjectLabel::TagPolicy,
                name,
                properties: Some(properties),
                version: 0,
                created_at,
                updated_at: None,
            },
        )
    }
}

impl ResourceExt for TagPolicy {
    open spec fn label_view(&self) -> ObjectLabel {
        ObjectLabel::TagPolicy
    }

    open spec fn name_view(&self) -> Seq<Seq<char>> {
        self.name_parts()
    }

    open spec fn ref_view(&self) -> RefView {
        match self.id {
            Some(s) => match uuid_parse(s@) {
                Some(u) => RefView::Uuid(u),
                None => RefView::Name(self.name_parts()),
            },
            None => RefView::Name(self.name_parts()),
        }
    }

    fn resource_name(&self) -> (r: ResourceName) {
        let mut path: Vec<String> = Vec::new();
        path.push(self.tag_key.clone());
        assert(path.deep_view() =~= self.name_parts());
        ResourceName::new(path)
    }

    fn resource_ref(&self) -> (r: ResourceRef) {
        match &self.id {
            Some(s) => match parse_uuid(s.as_str()) {
                Some(u) => ResourceRef::Uuid(u),
                None => ResourceRef::Name(self.resource_name()),
            },
            None => ResourceRef::Name(self.resource_name()),
        }
    }

    fn resource_ident(&self) -> (r: ResourceIdent) {
        ObjectLabel::TagPolicy.to_ident(self.resource_ref())
    }
}

/// A volume record.
#[derive(Debug, Clone, PartialEq, Eq, Default)]
pub struct Volume {
    pub name: String,
    pub catalog_name: String,
    pub schema_name: String,
    pub full_name: String,
    pub storage_location: String,
    pub volume_id: String,
    /// An enumeration code.
    pub volume_type: i32,
    pub owner: Option<String>,
    pub comment: Option<String>,
    pub created_at: Option<i64>,
    pub created_by: Option<String>,
    pub updated_at: Option<i64>,
    pub updated_by: Option<String>,
    pub browse_only: Option<bool>,
    pub metastore_id: Option<String>,
}

impl Volume {
    /// The segments of this record's name.
    pub open spec fn name_parts(&self) -> Seq<Seq<char>> {
        seq![self.catalog_name@, self.schema_name@, self.name@]
    }

    /// The id of the object stored for this record: the UUID its id parses to, the nil
    /// UUID where it does not parse.
    pub open spec fn object_id(&self) -> Result<u128, ()> {
        match uuid_parse(self.volume_id@) {
            Some(u) => Ok(u),
            None => Ok(nil_uuid()),
        }
    }

    /// Whether this record is `other` with its id replaced by the hyphenated form of `oid`.
    pub open spec fn restored(&self, other: Volume, oid: u128) -> bool {
        &&& self.name == other.name
        &&& self.catalog_name == other.catalog_name
        &&& self.schema_name == other.schema_name
        &&& self.full_name == other.full_name
        &&& self.storage_location == other.storage_location
        &&& self.volume_type == other.volume_type
        &&& self.owner == other.owner
        &&& self.comment == other.comment
        &&& self.created_at == other.created_at
        &&& self.created_by == other.created_by
        &&& self.updated_at == other.updated_at
        &&& self.updated_by == other.updated_by
        &&& self.browse_only == other.browse_only
        &&& self.metastore_id == other.metastore_id
        &&& self.volume_id@ == hyphenated(oid)
    }

    /// Whether the two records hold the same values, texts compared by their characters.
    pub open spec fn same_values(&self, other: Volume) -> bool {
        &&& self.name@ == other.name@
        &&& self.catalog_name@ == other.catalog_name@
        &&& self.schema_name@ == other.schema_name@
        &&& self.full_name@ == other.full_name@
        &&& self.storage_location@ == other.storage_location@
        &&& self.volume_type == other.volume_type
        &&& self.owner == other.owner
        &&& self.comment == other.comment
        &&& self.created_at == other.created_at
        &&& self.created_by == other.created_by
        &&& self.updated_at == other.updated_at
        &&& self.updated_by == other.updated_by
        &&& self.browse_only == other.browse_only
        &&& self.metastore_id == other.metastore_id
        &&& self.volume_id@ == other.volume_id@
    }

    /// Whether this record's id is the hyphenated lowercase form of the UUID `u`.
    pub open spec fn has_canonical_id(&self, u: u128) -> bool {
        self.volume_id@ == hyphenated(u)
    }

    /// Whether `r` is what storing this record with the serialized form `properties` gives.
    pub open spec fn stored_as(&self, properties: String, r: Result<Object, Error>) -> bool {
        match self.object_id() {
            Ok(id) => r matches Ok(o) && o.id == id && o.label == ObjectLabel::Volume
                && o.name@ == self.name_parts() && o.properties == Some(properties)
                && o.version == 0 && o.updated_at is None,
            Err(()) => false,
        }
    }

    /// Returns the fully-qualified dot-separated name computed from component fields.
    pub fn qualified_name(&self) -> (r: String)
        ensures
            r@ == join_with(self.name_view(), '.'),
    {
        let mut s = self.catalog_name.clone();
        push_char(&mut s, '.');
        s.append(self.schema_name.as_str());
        push_char(&mut s, '.');
        s.append(self.name.as_str());
        proof {
            lemma_join_small(self.catalog_name@, self.schema_name@, self.name@, '.');
        }
        s
    }

    /// Reads this record back from a stored object. `decoded` is what the object's
    /// properties decode to; the record read back carries the object's id, hyphenated.
    pub fn try_from_object(object: Object, decoded: Result<Volume, Error>) -> (r: Result<Volume, Error>)
        ensures
            object.properties is None ==> r == Err::<Volume, Error>(Error::MissingProperties),
            object.properties is Some ==> match decoded {
                Ok(d) => r matches Ok(x) && x.restored(d, object.id)
                    && x == (Volume { volume_id: x.volume_id, ..d }) && x.volume_id@ == hyphenated(object.id),
                Err(e) => r == Err::<Volume, Error>(e),
            },
    {
        if object.properties.is_none() {
            return Err(Error::MissingProperties);
        }
        match decoded {
            Ok(d) => {
                let mut d = d;
                d.volume_id = uuid_hyphenated(object.id);
                Ok(d)
            },
            Err(e) => Err(e),
        }
    }

    /// Turns this record into a stored object whose properties are `properties`, the
    /// record's serialized form.
    pub fn into_object(self, properties: String) -> (r: Result<Object, Error>)
        ensures
            self.stored_as(properties, r),
    {
        let id: u128 = match parse_uuid(self.volume_id.as_str()) {
            Some(u) => u,
            None => 0,
        };
        let name = self.resource_name();
        let created_at = now();
        Ok(
            Object {
                id,
                label: ObjectLabel::Volume,
                name,
                properties: Some(properties),
                version: 0,
                created_at,
                updated_at: None,
            },
        )
    }
}

impl ResourceExt for Volume {
    open spec fn label_view(&self) -> ObjectLabel {
        ObjectLabel::Volume
    }

    open spec fn name_view(&self) -> Seq<Seq<char>> {
        self.name_parts()
    }

    open spec fn ref_view(&self) -> RefView {
        match uuid_parse(self.volume_id@) {
            Some(u) => RefView::Uuid(u),
            None => RefView::Name(self.name_parts()),
        }
    }

    fn resource_name(&self) -> (r: ResourceName) {
        let mut path: Vec<String> = Vec::new();
        path.push(self.catalog_name.clone());
        path.push(self.schema_name.clone());
        path.push(self.name.clone());
        assert(path.deep_view() =~= self.name_parts());
        ResourceName::new(path)
    }

    fn resource_ref(&self) -> (r: ResourceRef) {
        match parse_uuid(self.volume_id.as_str()) {
            Some(u) => ResourceRef::Uuid(u),
            None => ResourceRef::Name(self.resource_name()),
        }
    }

    fn resource_ident(&self) -> (r: ResourceIdent) {
        ObjectLabel::Volume.to_ident(self.resource_ref())
    }
}

} // verus!
