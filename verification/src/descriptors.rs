//! What the store is told of each resource type: its fields and their roles, the fields
//! that make up its name, and the type it nests under.

use vstd::prelude::*;

use crate::labels::ObjectLabel;

verus! {

/// The role a field of a resource plays in the store.
#[derive(Debug, Clone, Copy, PartialEq, Eq, Structural, Hash)]
pub enum FieldRole {
    /// Normal data, stored with the resource's properties.
    Data,
    /// The resource's identifier, kept as the stored object's id.
    Identifier,
    /// Sensitive data, sealed and redacted from ordinary reads.
    Sensitive,
    /// Kept up to date by the store, such as `created_at`.
    Managed,
}

/// A field of a resource type and its role.
#[derive(Debug, Clone, Copy)]
pub struct FieldDescriptor {
    pub name: &'static str,
    pub role: FieldRole,
}

/// A field descriptor as a pair of its name and role.
pub open spec fn field_view(d: FieldDescriptor) -> (Seq<char>, FieldRole) {
    (d.name@, d.role)
}

/// The fields of each resource type with their roles, in declaration order.
pub open spec fn field_table(l: ObjectLabel) -> Seq<(Seq<char>, FieldRole)> {
    match l {
        ObjectLabel::Agent => seq![("name"@, FieldRole::Data), ("catalog_name"@, FieldRole::Data), ("schema_name"@, FieldRole::Data), ("full_name"@, FieldRole::Data), ("agent_id"@, FieldRole::Identifier), ("invocation_protocol"@, FieldRole::Data), ("endpoint"@, FieldRole::Data), ("description"@, FieldRole::Data), ("capabilities"@, FieldRole::Data), ("input_schema"@, FieldRole::Data), ("owner"@, FieldRole::Data), ("comment"@, FieldRole::Data), ("created_at"@, FieldRole::Managed), ("created_by"@, FieldRole::Managed), ("updated_at"@, FieldRole::Managed), ("updated_by"@, FieldRole::Managed), ("metastore_id"@, FieldRole::Data)],
        ObjectLabel::AgentSkill => seq![("name"@, FieldRole::Data), ("catalog_name"@, FieldRole::Data), ("schema_name"@, FieldRole::Data), ("full_name"@, FieldRole::Data), ("storage_location"@, FieldRole::Data), ("agent_skill_id"@, FieldRole::Identifier), ("agent_skill_type"@, FieldRole::Data), ("description"@, FieldRole::Data), ("license"@, FieldRole::Data), ("allowed_tools"@, FieldRole::Data), ("metadata"@, FieldRole::Data), ("owner"@, FieldRole::Data), ("comment"@, FieldRole::Data), ("created_at"@, FieldRole::Managed), ("created_by"@, FieldRole::Managed), ("updated_at"@, FieldRole::Managed), ("updated_by"@, FieldRole::Managed), ("metastore_id"@, FieldRole::Data)],
        ObjectLabel::Catalog => seq![("name"@, FieldRole::Data), ("id"@, FieldRole::Identifier), ("owner"@, FieldRole::Data), ("comment"@, FieldRole::Data), ("properties"@, FieldRole::Data), ("storage_root"@, FieldRole::Data), ("provider_name"@, FieldRole::Data), ("share_name"@, FieldRole::Data), ("catalog_type"@, FieldRole::Data), ("storage_location"@, FieldRole::Data), ("created_at"@, FieldRole::Managed), ("created_by"@, FieldRole::Managed), ("updated_at"@, FieldRole::Managed), ("updated_by"@, FieldRole::Managed), ("browse_only"@, FieldRole::Data)],
        ObjectLabel::Column => seq![("name"@, FieldRole::Data), ("type_text"@, FieldRole::Data), ("type_json"@, FieldRole::Data), ("position"@, FieldRole::Data), ("type_name"@, FieldRole::Data), ("type_precision"@, FieldRole::Data), ("type_scale"@, FieldRole::Data), ("type_interval_type"@, FieldRole::Data), ("comment"@, FieldRole::Data), ("nullable"@, FieldRole::Data), ("partition_index"@, FieldRole::Data), ("column_id"@, FieldRole::Identifier)],
        ObjectLabel::Credential => seq![("name"@, FieldRole::Data), ("id"@, FieldRole::Identifier), ("purpose"@, FieldRole::Data), ("read_only"@, FieldRole::Data), ("comment"@, FieldRole::Data), ("owner"@, FieldRole::Data), ("created_at"@, FieldRole::Managed), ("created_by"@, FieldRole::Managed), ("updated_at"@, FieldRole::Managed), ("updated_by"@, FieldRole::Managed), ("used_for_managed_storage"@, FieldRole::Data), ("full_name"@, FieldRole::Data), ("azure_service_principal"@, FieldRole::Data), ("azure_managed_identity"@, FieldRole::Data), ("azure_storage_key"@, FieldRole::Data), ("aws_iam_role"@, FieldRole::Data), ("databricks_gcp_service_account"@, FieldRole::Data)],
        ObjectLabel::ExternalLocation => seq![("name"@, FieldRole::Data), ("url"@, FieldRole::Data), ("credential_name"@, FieldRole::Data), ("read_only"@, FieldRole::Data), ("comment"@, FieldRole::Data), ("owner"@, FieldRole::Data), ("credential_id"@, FieldRole::Data), ("created_at"@, FieldRole::Managed), ("created_by"@, FieldRole::Managed), ("updated_at"@, FieldRole::Managed), ("updated_by"@, FieldRole::Managed), ("browse_only"@, FieldRole::Data), ("external_location_id"@, FieldRole::Identifier)],
        ObjectLabel::Function => seq![("name"@, FieldRole::Data), ("catalog_name"@, FieldRole::Data), ("schema_name"@, FieldRole::Data), ("full_name"@, FieldRole::Data), ("data_type"@, FieldRole::Data), ("full_data_type"@, FieldRole::Data), ("input_params"@, FieldRole::Data), ("return_params"@, FieldRole::Data), ("routine_body_language"@, FieldRole::Data), ("routine_definition"@, FieldRole::Data), ("routine_dependencies"@, FieldRole::Data), ("parameter_style"@, FieldRole::Data), ("is_deterministic"@, FieldRole::Data), ("sql_data_access"@, FieldRole::Data), ("is_null_call"@, FieldRole::Data), ("security_type"@, FieldRole::Data), ("specific_name"@, FieldRole::Data), ("routine_body"@, FieldRole::Data), ("comment"@, FieldRole::Data), ("properties"@, FieldRole::Data), ("owner"@, FieldRole::Data), ("function_id"@, FieldRole::Identifier), ("created_at"@, FieldRole::Managed), ("created_by"@, FieldRole::Managed), ("updated_at"@, FieldRole::Managed), ("updated_by"@, FieldRole::Managed)],
        ObjectLabel::Provider => seq![("id"@, FieldRole::Identifier), ("name"@, FieldRole::Data), ("authentication_type"@, FieldRole::Data), ("owner"@, FieldRole::Data), ("comment"@, FieldRole::Data), ("recipient_profile_str"@, FieldRole::Data), ("properties"@, FieldRole::Data), ("created_at"@, FieldRole::Managed), ("created_by"@, FieldRole::Managed), ("updated_at"@, FieldRole::Managed), ("updated_by"@, FieldRole::Managed)],
        ObjectLabel::Recipient => seq![("id"@, FieldRole::Identifier), ("name"@, FieldRole::Data), ("authentication_type"@, FieldRole::Data), ("owner"@, FieldRole::Data), ("comment"@, FieldRole::Data), ("properties"@, FieldRole::Data), ("created_at"@, FieldRole::Managed), ("created_by"@, FieldRole::Managed), ("tokens"@, FieldRole::Data), ("updated_at"@, FieldRole::Managed), ("updated_by"@, FieldRole::Managed)],
        ObjectLabel::Schema => seq![("name"@, FieldRole::Data), ("catalog_name"@, FieldRole::Data), ("full_name"@, FieldRole::Data), ("comment"@, FieldRole::Data), ("properties"@, FieldRole::Data), ("owner"@, FieldRole::Data), ("created_at"@, FieldRole::Managed), ("created_by"@, FieldRole::Managed), ("updated_at"@, FieldRole::Managed), ("updated_by"@, FieldRole::Managed), ("schema_id"@, FieldRole::Identifier), ("storage_root"@, FieldRole::Data), ("storage_location"@, FieldRole::Data)],
        ObjectLabel::Share => seq![("id"@, FieldRole::Identifier), ("name"@, FieldRole::Data), ("objects"@, FieldRole::Data), ("owner"@, FieldRole::Data), ("comment"@, FieldRole::Data), ("storage_location"@, FieldRole::Data), ("storage_root"@, FieldRole::Data), ("created_at"@, FieldRole::Managed), ("created_by"@, FieldRole::Managed), ("updated_at"@, FieldRole::Managed), ("updated_by"@, FieldRole::Managed)],
        ObjectLabel::StagingTable => seq![("id"@, FieldRole::Identifier), ("name"@, FieldRole::Data), ("schema_name"@, FieldRole::Data), ("catalog_name"@, FieldRole::Data), ("staging_location"@, FieldRole::Data), ("created_by"@, FieldRole::Managed), ("stage_committed"@, FieldRole::Data), ("created_at"@, FieldRole::Managed)],
        ObjectLabel::Table => seq![("name"@, FieldRole::Data), ("catalog_name"@, FieldRole::Data), ("schema_name"@, FieldRole::Data), ("table_type"@, FieldRole::Data), ("data_source_format"@, FieldRole::Data), ("columns"@, FieldRole::Data), ("storage_location"@, FieldRole::Data), ("view_definition"@, FieldRole::Data), ("view_dependencies"@, FieldRole::Data), ("owner"@, FieldRole::Data), ("comment"@, FieldRole::Data), ("properties"@, FieldRole::Data), ("storage_credential_name"@, FieldRole::Data), ("full_name"@, FieldRole::Data), ("created_at"@, FieldRole::Managed), ("created_by"@, FieldRole::Managed), ("updated_at"@, FieldRole::Managed), ("updated_by"@, FieldRole::Managed), ("deleted_at"@, FieldRole::Data), ("table_id"@, FieldRole::Identifier)],
        ObjectLabel::TagPolicy => seq![("tag_key"@, FieldRole::Data), ("description"@, FieldRole::Data), ("values"@, FieldRole::Data), ("id"@, FieldRole::Identifier), ("created_at"@, FieldRole::Managed), ("updated_at"@, FieldRole::Managed)],
        ObjectLabel::Volume => seq![("name"@, FieldRole::Data), ("catalog_name"@, FieldRole::Data), ("schema_name"@, FieldRole::Data), ("full_name"@, FieldRole::Data), ("storage_location"@, FieldRole::Data), ("volume_id"@, FieldRole::Identifier), ("volume_type"@, FieldRole::Data), ("owner"@, FieldRole::Data), ("comment"@, FieldRole::Data), ("created_at"@, FieldRole::Managed), ("created_by"@, FieldRole::Managed), ("updated_at"@, FieldRole::Managed), ("updated_by"@, FieldRole::Managed), ("browse_only"@, FieldRole::Data), ("metastore_id"@, FieldRole::Data)],
    }
}

/// The fields whose values make up a resource's name, outermost first.
pub open spec fn path_table(l: ObjectLabel) -> Seq<Seq<char>> {
    match l {
        ObjectLabel::Agent => seq!["catalog_name"@, "schema_name"@, "name"@],
        ObjectLabel::AgentSkill => seq!["catalog_name"@, "schema_name"@, "name"@],
        ObjectLabel::Catalog => seq!["name"@],
        ObjectLabel::Column => seq!["name"@],
        ObjectLabel::Credential => seq!["name"@],
        ObjectLabel::ExternalLocation => seq!["name"@],
        ObjectLabel::Function => seq!["catalog_name"@, "schema_name"@, "name"@],
        ObjectLabel::Provider => seq!["name"@],
        ObjectLabel::Recipient => seq!["name"@],
        ObjectLabel::Schema => seq!["catalog_name"@, "name"@],
        ObjectLabel::Share => seq!["name"@],
        ObjectLabel::StagingTable => seq!["name"@],
        ObjectLabel::Table => seq!["catalog_name"@, "schema_name"@, "name"@],
        ObjectLabel::TagPolicy => seq!["tag_key"@],
        ObjectLabel::Volume => seq!["catalog_name"@, "schema_name"@, "name"@],
    }
}

/// The resource type that a resource type nests under, if any.
pub open spec fn parent_of(l: ObjectLabel) -> Option<ObjectLabel> {
    match l {
        ObjectLabel::Agent => Some(ObjectLabel::Catalog),
        ObjectLabel::AgentSkill => Some(ObjectLabel::Catalog),
        ObjectLabel::Catalog => None,
        ObjectLabel::Column => None,
        ObjectLabel::Credential => None,
        ObjectLabel::ExternalLocation => None,
        ObjectLabel::Function => Some(ObjectLabel::Catalog),
        ObjectLabel::Provider => None,
        ObjectLabel::Recipient => None,
        ObjectLabel::Schema => Some(ObjectLabel::Catalog),
        ObjectLabel::Share => None,
        ObjectLabel::StagingTable => None,
        ObjectLabel::Table => Some(ObjectLabel::Catalog),
        ObjectLabel::TagPolicy => None,
        ObjectLabel::Volume => Some(ObjectLabel::Catalog),
    }
}

fn agent_fields() -> (r: Vec<FieldDescriptor>)
    ensures
        r@.map_values(|d: FieldDescriptor| field_view(d)) == field_table(ObjectLabel::Agent),
{
    let mut v: Vec<FieldDescriptor> = Vec::new();
    v.push(FieldDescriptor { name: "name", role: FieldRole::Data });
    v.push(FieldDescriptor { name: "catalog_name", role: FieldRole::Data });
    v.push(FieldDescriptor { name: "schema_name", role: FieldRole::Data });
    v.push(FieldDescriptor { name: "full_name", role: FieldRole::Data });
    v.push(FieldDescriptor { name: "agent_id", role: FieldRole::Identifier });
    v.push(FieldDescriptor { name: "invocation_protocol", role: FieldRole::Data });
    v.push(FieldDescriptor { name: "endpoint", role: FieldRole::Data });
    v.push(FieldDescriptor { name: "description", role: FieldRole::Data });
    v.push(FieldDescriptor { name: "capabilities", role: FieldRole::Data });
    v.push(FieldDescriptor { name: "input_schema", role: FieldRole::Data });
    v.push(FieldDescriptor { name: "owner", role: FieldRole::Data });
    v.push(FieldDescriptor { name: "comment", role: FieldRole::Data });
    v.push(FieldDescriptor { name: "created_at", role: FieldRole::Managed });
    v.push(FieldDescriptor { name: "created_by", role: FieldRole::Managed });
    v.push(FieldDescriptor { name: "updated_at", role: FieldRole::Managed });
    v.push(FieldDescriptor { name: "updated_by", role: FieldRole::Managed });
    v.push(FieldDescriptor { name: "metastore_id", role: FieldRole::Data });
    assert(v@.map_values(|d: FieldDescriptor| field_view(d)) =~= field_table(ObjectLabel::Agent));
    v
}

fn agent_skill_fields() -> (r: Vec<FieldDescriptor>)
    ensures
        r@.map_values(|d: FieldDescriptor| field_view(d)) == field_table(ObjectLabel::AgentSkill),
{
    let mut v: Vec<FieldDescriptor> = Vec::new();
    v.push(FieldDescriptor { name: "name", role: FieldRole::Data });
    v.push(FieldDescriptor { name: "catalog_name", role: FieldRole::Data });
    v.push(FieldDescriptor { name: "schema_name", role: FieldRole::Data });
    v.push(FieldDescriptor { name: "full_name", role: FieldRole::Data });
    v.push(FieldDescriptor { name: "storage_location", role: FieldRole::Data });
    v.push(FieldDescriptor { name: "agent_skill_id", role: FieldRole::Identifier });
    v.push(FieldDescriptor { name: "agent_skill_type", role: FieldRole::Data });
    v.push(FieldDescriptor { name: "description", role: FieldRole::Data });
    v.push(FieldDescriptor { name: "license", role: FieldRole::Data });
    v.push(FieldDescriptor { name: "allowed_tools", role: FieldRole::Data });
    v.push(FieldDescriptor { name: "metadata", role: FieldRole::Data });
    v.push(FieldDescriptor { name: "owner", role: FieldRole::Data });
    v.push(FieldDescriptor { name: "comment", role: FieldRole::Data });
    v.push(FieldDescriptor { name: "created_at", role: FieldRole::Managed });
    v.push(FieldDescriptor { name: "created_by", role: FieldRole::Managed });
    v.push(FieldDescriptor { name: "updated_at", role: FieldRole::Managed });
    v.push(FieldDescriptor { name: "updated_by", role: FieldRole::Managed });
    v.push(FieldDescriptor { name: "metastore_id", role: FieldRole::Data });
    assert(v@.map_values(|d: FieldDescriptor| field_view(d)) =~= field_table(ObjectLabel::AgentSkill));
    v
}

fn catalog_fields() -> (r: Vec<FieldDescriptor>)
    ensures
        r@.map_values(|d: FieldDescriptor| field_view(d)) == field_table(ObjectLabel::Catalog),
{
    let mut v: Vec<FieldDescriptor> = Vec::new();
    v.push(FieldDescriptor { name: "name", role: FieldRole::Data });
    v.push(FieldDescriptor { name: "id", role: FieldRole::Identifier });
    v.push(FieldDescriptor { name: "owner", role: FieldRole::Data });
    v.push(FieldDescriptor { name: "comment", role: FieldRole::Data });
    v.push(FieldDescriptor { name: "properties", role: FieldRole::Data });
    v.push(FieldDescriptor { name: "storage_root", role: FieldRole::Data });
    v.push(FieldDescriptor { name: "provider_name", role: FieldRole::Data });
    v.push(FieldDescriptor { name: "share_name", role: FieldRole::Data });
    v.push(FieldDescriptor { name: "catalog_type", role: FieldRole::Data });
    v.push(FieldDescriptor { name: "storage_location", role: FieldRole::Data });
    v.push(FieldDescriptor { name: "created_at", role: FieldRole::Managed });
    v.push(FieldDescriptor { name: "created_by", role: FieldRole::Managed });
    v.push(FieldDescriptor { name: "updated_at", role: FieldRole::Managed });
    v.push(FieldDescriptor { name: "updated_by", role: FieldRole::Managed });
    v.push(FieldDescriptor { name: "browse_only", role: FieldRole::Data });
    assert(v@.map_values(|d: FieldDescriptor| field_view(d)) =~= field_table(ObjectLabel::Catalog));
    v
}

fn column_fields() -> (r: Vec<FieldDescriptor>)
    ensures
        r@.map_values(|d: FieldDescriptor| field_view(d)) == field_table(ObjectLabel::Column),
{
    let mut v: Vec<FieldDescriptor> = Vec::new();
    v.push(FieldDescriptor { name: "name", role: FieldRole::Data });
    v.push(FieldDescriptor { name: "type_text", role: FieldRole::Data });
    v.push(FieldDescriptor { name: "type_json", role: FieldRole::Data });
    v.push(FieldDescriptor { name: "position", role: FieldRole::Data });
    v.push(FieldDescriptor { name: "type_name", role: FieldRole::Data });
    v.push(FieldDescriptor { name: "type_precision", role: FieldRole::Data });
    v.push(FieldDescriptor { name: "type_scale", role: FieldRole::Data });
    v.push(FieldDescriptor { name: "type_interval_type", role: FieldRole::Data });
    v.push(FieldDescriptor { name: "comment", role: FieldRole::Data });
    v.push(FieldDescriptor { name: "nullable", role: FieldRole::Data });
    v.push(FieldDescriptor { name: "partition_index", role: FieldRole::Data });
    v.push(FieldDescriptor { name: "column_id", role: FieldRole::Identifier });
    assert(v@.map_values(|d: FieldDescriptor| field_view(d)) =~= field_table(ObjectLabel::Column));
    v
}

fn credential_fields() -> (r: Vec<FieldDescriptor>)
    ensures
        r@.map_values(|d: FieldDescriptor| field_view(d)) == field_table(ObjectLabel::Credential),
{
    let mut v: Vec<FieldDescriptor> = Vec::new();
    v.push(FieldDescriptor { name: "name", role: FieldRole::Data });
    v.push(FieldDescriptor { name: "id", role: FieldRole::Identifier });
    v.push(FieldDescriptor { name: "purpose", role: FieldRole::Data });
    v.push(FieldDescriptor { name: "read_only", role: FieldRole::Data });
    v.push(FieldDescriptor { name: "comment", role: FieldRole::Data });
    v.push(FieldDescriptor { name: "owner", role: FieldRole::Data });
    v.push(FieldDescriptor { name: "created_at", role: FieldRole::Managed });
    v.push(FieldDescriptor { name: "created_by", role: FieldRole::Managed });
    v.push(FieldDescriptor { name: "updated_at", role: FieldRole::Managed });
    v.push(FieldDescriptor { name: "updated_by", role: FieldRole::Managed });
    v.push(FieldDescriptor { name: "used_for_managed_storage", role: FieldRole::Data });
    v.push(FieldDescriptor { name: "full_name", role: FieldRole::Data });
    v.push(FieldDescriptor { name: "azure_service_principal", role: FieldRole::Data });
    v.push(FieldDescriptor { name: "azure_managed_identity", role: FieldRole::Data });
    v.push(FieldDescriptor { name: "azure_storage_key", role: FieldRole::Data });
    v.push(FieldDescriptor { name: "aws_iam_role", role: FieldRole::Data });
    v.push(FieldDescriptor { name: "databricks_gcp_service_account", role: FieldRole::Data });
    assert(v@.map_values(|d: FieldDescriptor| field_view(d)) =~= field_table(ObjectLabel::Credential));
    v
}

fn external_location_fields() -> (r: Vec<FieldDescriptor>)
    ensures
        r@.map_values(|d: FieldDescriptor| field_view(d)) == field_table(ObjectLabel::ExternalLocation),
{
    let mut v: Vec<FieldDescriptor> = Vec::new();
    v.push(FieldDescriptor { name: "name", role: FieldRole::Data });
    v.push(FieldDescriptor { name: "url", role: FieldRole::Data });
    v.push(FieldDescriptor { name: "credential_name", role: FieldRole::Data });
    v.push(FieldDescriptor { name: "read_only", role: FieldRole::Data });
    v.push(FieldDescriptor { name: "comment", role: FieldRole::Data });
    v.push(FieldDescriptor { name: "owner", role: FieldRole::Data });
    v.push(FieldDescriptor { name: "credential_id", role: FieldRole::Data });
    v.push(FieldDescriptor { name: "created_at", role: FieldRole::Managed });
    v.push(FieldDescriptor { name: "created_by", role: FieldRole::Managed });
    v.push(FieldDescriptor { name: "updated_at", role: FieldRole::Managed });
    v.push(FieldDescriptor { name: "updated_by", role: FieldRole::Managed });
    v.push(FieldDescriptor { name: "browse_only", role: FieldRole::Data });
    v.push(FieldDescriptor { name: "external_location_id", role: FieldRole::Identifier });
    assert(v@.map_values(|d: FieldDescriptor| field_view(d)) =~= field_table(ObjectLabel::ExternalLocation));
    v
}

fn function_fields() -> (r: Vec<FieldDescriptor>)
    ensures
        r@.map_values(|d: FieldDescriptor| field_view(d)) == field_table(ObjectLabel::Function),
{
    let mut v: Vec<FieldDescriptor> = Vec::new();
    v.push(FieldDescriptor { name: "name", role: FieldRole::Data });
    v.push(FieldDescriptor { name: "catalog_name", role: FieldRole::Data });
    v.push(FieldDescriptor { name: "schema_name", role: FieldRole::Data });
    v.push(FieldDescriptor { name: "full_name", role: FieldRole::Data });
    v.push(FieldDescriptor { name: "data_type", role: FieldRole::Data });
    v.push(FieldDescriptor { name: "full_data_type", role: FieldRole::Data });
    v.push(FieldDescriptor { name: "input_params", role: FieldRole::Data });
    v.push(FieldDescriptor { name: "return_params", role: FieldRole::Data });
    v.push(FieldDescriptor { name: "routine_body_language", role: FieldRole::Data });
    v.push(FieldDescriptor { name: "routine_definition", role: FieldRole::Data });
    v.push(FieldDescriptor { name: "routine_dependencies", role: FieldRole::Data });
    v.push(FieldDescriptor { name: "parameter_style", role: FieldRole::Data });
    v.push(FieldDescriptor { name: "is_deterministic", role: FieldRole::Data });
    v.push(FieldDescriptor { name: "sql_data_access", role: FieldRole::Data });
    v.push(FieldDescriptor { name: "is_null_call", role: FieldRole::Data });
    v.push(FieldDescriptor { name: "security_type", role: FieldRole::Data });
    v.push(FieldDescriptor { name: "specific_name", role: FieldRole::Data });
    v.push(FieldDescriptor { name: "routine_body", role: FieldRole::Data });
    v.push(FieldDescriptor { name: "comment", role: FieldRole::Data });
    v.push(FieldDescriptor { name: "properties", role: FieldRole::Data });
    v.push(FieldDescriptor { name: "owner", role: FieldRole::Data });
    v.push(FieldDescriptor { name: "function_id", role: FieldRole::Identifier });
    v.push(FieldDescriptor { name: "created_at", role: FieldRole::Managed });
    v.push(FieldDescriptor { name: "created_by", role: FieldRole::Managed });
    v.push(FieldDescriptor { name: "updated_at", role: FieldRole::Managed });
    v.push(FieldDescriptor { name: "updated_by", role: FieldRole::Managed });
    assert(v@.map_values(|d: FieldDescriptor| field_view(d)) =~= field_table(ObjectLabel::Function));
    v
}

fn provider_fields() -> (r: Vec<FieldDescriptor>)
    ensures
        r@.map_values(|d: FieldDescriptor| field_view(d)) == field_table(ObjectLabel::Provider),
{
    let mut v: Vec<FieldDescriptor> = Vec::new();
    v.push(FieldDescriptor { name: "id", role: FieldRole::Identifier });
    v.push(FieldDescriptor { name: "name", role: FieldRole::Data });
    v.push(FieldDescriptor { name: "authentication_type", role: FieldRole::Data });
    v.push(FieldDescriptor { name: "owner", role: FieldRole::Data });
    v.push(FieldDescriptor { name: "comment", role: FieldRole::Data });
    v.push(FieldDescriptor { name: "recipient_profile_str", role: FieldRole::Data });
    v.push(FieldDescriptor { name: "properties", role: FieldRole::Data });
    v.push(FieldDescriptor { name: "created_at", role: FieldRole::Managed });
    v.push(FieldDescriptor { name: "created_by", role: FieldRole::Managed });
    v.push(FieldDescriptor { name: "updated_at", role: FieldRole::Managed });
    v.push(FieldDescriptor { name: "updated_by", role: FieldRole::Managed });
    assert(v@.map_values(|d: FieldDescriptor| field_view(d)) =~= field_table(ObjectLabel::Provider));
    v
}

fn recipient_fields() -> (r: Vec<FieldDescriptor>)
    ensures
        r@.map_values(|d: FieldDescriptor| field_view(d)) == field_table(ObjectLabel::Recipient),
{
    let mut v: Vec<FieldDescriptor> = Vec::new();
    v.push(FieldDescriptor { name: "id", role: FieldRole::Identifier });
    v.push(FieldDescriptor { name: "name", role: FieldRole::Data });
    v.push(FieldDescriptor { name: "authentication_type", role: FieldRole::Data });
    v.push(FieldDescriptor { name: "owner", role: FieldRole::Data });
    v.push(FieldDescriptor { name: "comment", role: FieldRole::Data });
    v.push(FieldDescriptor { name: "properties", role: FieldRole::Data });
    v.push(FieldDescriptor { name: "created_at", role: FieldRole::Managed });
    v.push(FieldDescriptor { name: "created_by", role: FieldRole::Managed });
    v.push(FieldDescriptor { name: "tokens", role: FieldRole::Data });
    v.push(FieldDescriptor { name: "updated_at", role: FieldRole::Managed });
    v.push(FieldDescriptor { name: "updated_by", role: FieldRole::Managed });
    assert(v@.map_values(|d: FieldDescriptor| field_view(d)) =~= field_table(ObjectLabel::Recipient));
    v
}

fn schema_fields() -> (r: Vec<FieldDescriptor>)
    ensures
        r@.map_values(|d: FieldDescriptor| field_view(d)) == field_table(ObjectLabel::Schema),
{
    let mut v: Vec<FieldDescriptor> = Vec::new();
    v.push(FieldDescriptor { name: "name", role: FieldRole::Data });
    v.push(FieldDescriptor { name: "catalog_name", role: FieldRole::Data });
    v.push(FieldDescriptor { name: "full_name", role: FieldRole::Data });
    v.push(FieldDescriptor { name: "comment", role: FieldRole::Data });
    v.push(FieldDescriptor { name: "properties", role: FieldRole::Data });
    v.push(FieldDescriptor { name: "owner", role: FieldRole::Data });
    v.push(FieldDescriptor { name: "created_at", role: FieldRole::Managed });
    v.push(FieldDescriptor { name: "created_by", role: FieldRole::Managed });
    v.push(FieldDescriptor { name: "updated_at", role: FieldRole::Managed });
    v.push(FieldDescriptor { name: "updated_by", role: FieldRole::Managed });
    v.push(FieldDescriptor { name: "schema_id", role: FieldRole::Identifier });
    v.push(FieldDescriptor { name: "storage_root", role: FieldRole::Data });
    v.push(FieldDescriptor { name: "storage_location", role: FieldRole::Data });
    assert(v@.map_values(|d: FieldDescriptor| field_view(d)) =~= field_table(ObjectLabel::Schema));
    v
}

fn share_fields() -> (r: Vec<FieldDescriptor>)
    ensures
        r@.map_values(|d: FieldDescriptor| field_view(d)) == field_table(ObjectLabel::Share),
{
    let mut v: Vec<FieldDescriptor> = Vec::new();
    v.push(FieldDescriptor { name: "id", role: FieldRole::Identifier });
    v.push(FieldDescriptor { name: "name", role: FieldRole::Data });
    v.push(FieldDescriptor { name: "objects", role: FieldRole::Data });
    v.push(FieldDescriptor { name: "owner", role: FieldRole::Data });
    v.push(FieldDescriptor { name: "comment", role: FieldRole::Data });
    v.push(FieldDescriptor { name: "storage_location", role: FieldRole::Data });
    v.push(FieldDescriptor { name: "storage_root", role: FieldRole::Data });
    v.push(FieldDescriptor { name: "created_at", role: FieldRole::Managed });
    v.push(FieldDescriptor { name: "created_by", role: FieldRole::Managed });
    v.push(FieldDescriptor { name: "updated_at", role: FieldRole::Managed });
    v.push(FieldDescriptor { name: "updated_by", role: FieldRole::Managed });
    assert(v@.map_values(|d: FieldDescriptor| field_view(d)) =~= field_table(ObjectLabel::Share));
    v
}

fn staging_table_fields() -> (r: Vec<FieldDescriptor>)
    ensures
        r@.map_values(|d: FieldDescriptor| field_view(d)) == field_table(ObjectLabel::StagingTable),
{
    let mut v: Vec<FieldDescriptor> = Vec::new();
    v.push(FieldDescriptor { name: "id", role: FieldRole::Identifier });
    v.push(FieldDescriptor { name: "name", role: FieldRole::Data });
    v.push(FieldDescriptor { name: "schema_name", role: FieldRole::Data });
    v.push(FieldDescriptor { name: "catalog_name", role: FieldRole::Data });
    v.push(FieldDescriptor { name: "staging_location", role: FieldRole::Data });
    v.push(FieldDescriptor { name: "created_by", role: FieldRole::Managed });
    v.push(FieldDescriptor { name: "stage_committed", role: FieldRole::Data });
    v.push(FieldDescriptor { name: "created_at", role: FieldRole::Managed });
    assert(v@.map_values(|d: FieldDescriptor| field_view(d)) =~= field_table(ObjectLabel::StagingTable));
    v
}

fn table_fields() -> (r: Vec<FieldDescriptor>)
    ensures
        r@.map_values(|d: FieldDescriptor| field_view(d)) == field_table(ObjectLabel::Table),
{
    let mut v: Vec<FieldDescriptor> = Vec::new();
    v.push(FieldDescriptor { name: "name", role: FieldRole::Data });
    v.push(FieldDescriptor { name: "catalog_name", role: FieldRole::Data });
    v.push(FieldDescriptor { name: "schema_name", role: FieldRole::Data });
    v.push(FieldDescriptor { name: "table_type", role: FieldRole::Data });
    v.push(FieldDescriptor { name: "data_source_format", role: FieldRole::Data });
    v.push(FieldDescriptor { name: "columns", role: FieldRole::Data });
    v.push(FieldDescriptor { name: "storage_location", role: FieldRole::Data });
    v.push(FieldDescriptor { name: "view_definition", role: FieldRole::Data });
    v.push(FieldDescriptor { name: "view_dependencies", role: FieldRole::Data });
    v.push(FieldDescriptor { name: "owner", role: FieldRole::Data });
    v.push(FieldDescriptor { name: "comment", role: FieldRole::Data });
    v.push(FieldDescriptor { name: "properties", role: FieldRole::Data });
    v.push(FieldDescriptor { name: "storage_credential_name", role: FieldRole::Data });
    v.push(FieldDescriptor { name: "full_name", role: FieldRole::Data });
    v.push(FieldDescriptor { name: "created_at", role: FieldRole::Managed });
    v.push(FieldDescriptor { name: "created_by", role: FieldRole::Managed });
    v.push(FieldDescriptor { name: "updated_at", role: FieldRole::Managed });
    v.push(FieldDescriptor { name: "updated_by", role: FieldRole::Managed });
    v.push(FieldDescriptor { name: "deleted_at", role: FieldRole::Data });
    v.push(FieldDescriptor { name: "table_id", role: FieldRole::Identifier });
    assert(v@.map_values(|d: FieldDescriptor| field_view(d)) =~= field_table(ObjectLabel::Table));
    v
}

fn tag_policy_fields() -> (r: Vec<FieldDescriptor>)
    ensures
        r@.map_values(|d: FieldDescriptor| field_view(d)) == field_table(ObjectLabel::TagPolicy),
{
    let mut v: Vec<FieldDescriptor> = Vec::new();
    v.push(FieldDescriptor { name: "tag_key", role: FieldRole::Data });
    v.push(FieldDescriptor { name: "description", role: FieldRole::Data });
    v.push(FieldDescriptor { name: "values", role: FieldRole::Data });
    v.push(FieldDescriptor { name: "id", role: FieldRole::Identifier });
    v.push(FieldDescriptor { name: "created_at", role: FieldRole::Managed });
    v.push(FieldDescriptor { name: "updated_at", role: FieldRole::Managed });
    assert(v@.map_values(|d: FieldDescriptor| field_view(d)) =~= field_table(ObjectLabel::TagPolicy));
    v
}

fn volume_fields() -> (r: Vec<FieldDescriptor>)
    ensures
        r@.map_values(|d: FieldDescriptor| field_view(d)) == field_table(ObjectLabel::Volume),
{
    let mut v: Vec<FieldDescriptor> = Vec::new();
    v.push(FieldDescriptor { name: "name", role: FieldRole::Data });
    v.push(FieldDescriptor { name: "catalog_name", role: FieldRole::Data });
    v.push(FieldDescriptor { name: "schema_name", role: FieldRole::Data });
    v.push(FieldDescriptor { name: "full_name", role: FieldRole::Data });
    v.push(FieldDescriptor { name: "storage_location", role: FieldRole::Data });
    v.push(FieldDescriptor { name: "volume_id", role: FieldRole::Identifier });
    v.push(FieldDescriptor { name: "volume_type", role: FieldRole::Data });
    v.push(FieldDescriptor { name: "owner", role: FieldRole::Data });
    v.push(FieldDescriptor { name: "comment", role: FieldRole::Data });
    v.push(FieldDescriptor { name: "created_at", role: FieldRole::Managed });
    v.push(FieldDescriptor { name: "created_by", role: FieldRole::Managed });
    v.push(FieldDescriptor { name: "updated_at", role: FieldRole::Managed });
    v.push(FieldDescriptor { name: "updated_by", role: FieldRole::Managed });
    v.push(FieldDescriptor { name: "browse_only", role: FieldRole::Data });
    v.push(FieldDescriptor { name: "metastore_id", role: FieldRole::Data });
    assert(v@.map_values(|d: FieldDescriptor| field_view(d)) =~= field_table(ObjectLabel::Volume));
    v
}

impl ObjectLabel {
    /// The fields of this resource type with their roles, in declaration order.
    pub fn fields(&self) -> (r: Vec<FieldDescriptor>)
        ensures
            r@.map_values(|d: FieldDescriptor| field_view(d)) == field_table(*self),
    {
        match self {
            ObjectLabel::Agent => agent_fields(),
            ObjectLabel::AgentSkill => agent_skill_fields(),
            ObjectLabel::Catalog => catalog_fields(),
            ObjectLabel::Column => column_fields(),
            ObjectLabel::Credential => credential_fields(),
            ObjectLabel::ExternalLocation => external_location_fields(),
            ObjectLabel::Function => function_fields(),
            ObjectLabel::Provider => provider_fields(),
            ObjectLabel::Recipient => recipient_fields(),
            ObjectLabel::Schema => schema_fields(),
            ObjectLabel::Share => share_fields(),
            ObjectLabel::StagingTable => staging_table_fields(),
            ObjectLabel::Table => table_fields(),
            ObjectLabel::TagPolicy => tag_policy_fields(),
            ObjectLabel::Volume => volume_fields(),
        }
    }

    /// The fields whose values make up a resource's name, outermost first.
    pub fn path_names(&self) -> (r: Vec<&'static str>)
        ensures
            r@.map_values(|s: &'static str| s@) == path_table(*self),
    {
        let mut v: Vec<&'static str> = Vec::new();
        match self {
            ObjectLabel::Agent => {
                v.push("catalog_name");
                v.push("schema_name");
                v.push("name");
            },
            ObjectLabel::AgentSkill => {
                v.push("catalog_name");
                v.push("schema_name");
                v.push("name");
            },
            ObjectLabel::Catalog => {
                v.push("name");
            },
            ObjectLabel::Column => {
                v.push("name");
            },
            ObjectLabel::Credential => {
                v.push("name");
            },
            ObjectLabel::ExternalLocation => {
                v.push("name");
            },
            ObjectLabel::Function => {
                v.push("catalog_name");
                v.push("schema_name");
                v.push("name");
            },
            ObjectLabel::Provider => {
                v.push("name");
            },
            ObjectLabel::Recipient => {
                v.push("name");
            },
            ObjectLabel::Schema => {
                v.push("catalog_name");
                v.push("name");
            },
            ObjectLabel::Share => {
                v.push("name");
            },
            ObjectLabel::StagingTable => {
                v.push("name");
            },
            ObjectLabel::Table => {
                v.push("catalog_name");
                v.push("schema_name");
                v.push("name");
            },
            ObjectLabel::TagPolicy => {
                v.push("tag_key");
            },
            ObjectLabel::Volume => {
                v.push("catalog_name");
                v.push("schema_name");
                v.push("name");
            },
        }
        assert(v@.map_values(|s: &'static str| s@) =~= path_table(*self));
        v
    }

    /// The resource type this one nests under, if any.
    pub fn parent_label(&self) -> (r: Option<ObjectLabel>)
        ensures
            r == parent_of(*self),
    {
        match self {
            ObjectLabel::Agent => Some(ObjectLabel::Catalog),
            ObjectLabel::AgentSkill => Some(ObjectLabel::Catalog),
            ObjectLabel::Catalog => None,
            ObjectLabel::Column => None,
            ObjectLabel::Credential => None,
            ObjectLabel::ExternalLocation => None,
            ObjectLabel::Function => Some(ObjectLabel::Catalog),
            ObjectLabel::Provider => None,
            ObjectLabel::Recipient => None,
            ObjectLabel::Schema => Some(ObjectLabel::Catalog),
            ObjectLabel::Share => None,
            ObjectLabel::StagingTable => None,
            ObjectLabel::Table => Some(ObjectLabel::Catalog),
            ObjectLabel::TagPolicy => None,
            ObjectLabel::Volume => Some(ObjectLabel::Catalog),
        }
    }
}

/// How many of the first `n` fields of a list have the given role.
pub open spec fn count_role_prefix(fields: Seq<(Seq<char>, FieldRole)>, role: FieldRole, n: nat) -> nat
    decreases n,
{
    if n == 0 {
        0
    } else {
        count_role_prefix(fields, role, (n - 1) as nat) + if fields[n - 1].1 == role {
            1nat
        } else {
            0nat
        }
    }
}

/// How many fields of a list have the given role.
pub open spec fn count_role(fields: Seq<(Seq<char>, FieldRole)>, role: FieldRole) -> nat {
    count_role_prefix(fields, role, fields.len())
}

/// A resource type nests under the catalog exactly when its name has more than one
/// segment, and under nothing when its name is a single segment.
pub proof fn lemma_parent_iff_nested_path(l: ObjectLabel)
    ensures
        path_table(l).len() >= 1,
        parent_of(l) == (if path_table(l).len() > 1 {
            Some(ObjectLabel::Catalog)
        } else {
            None::<ObjectLabel>
        }),
{
}

/// Every field that makes up a resource's name is a data field of its resource type.
pub proof fn lemma_path_names_are_data_fields(l: ObjectLabel, i: int)
    requires
        0 <= i < path_table(l).len(),
    ensures
        field_table(l).contains((path_table(l)[i], FieldRole::Data)),
{
    let f = field_table(l);
    let p = path_table(l);
    match l {
        ObjectLabel::Agent => {
            if i == 0 {
                assert(f[1] == (p[0], FieldRole::Data));
            } else if i == 1 {
                assert(f[2] == (p[1], FieldRole::Data));
            } else if i == 2 {
                assert(f[0] == (p[2], FieldRole::Data));
            }
        },
        ObjectLabel::AgentSkill => {
            if i == 0 {
                assert(f[1] == (p[0], FieldRole::Data));
            } else if i == 1 {
                assert(f[2] == (p[1], FieldRole::Data));
            } else if i == 2 {
                assert(f[0] == (p[2], FieldRole::Data));
            }
        },
        ObjectLabel::Catalog => {
            assert(f[0] == (p[0], FieldRole::Data));
        },
        ObjectLabel::Column => {
            assert(f[0] == (p[0], FieldRole::Data));
        },
        ObjectLabel::Credential => {
            assert(f[0] == (p[0], FieldRole::Data));
        },
        ObjectLabel::ExternalLocation => {
            assert(f[0] == (p[0], FieldRole::Data));
        },
        ObjectLabel::Function => {
            if i == 0 {
                assert(f[1] == (p[0], FieldRole::Data));
            } else if i == 1 {
                assert(f[2] == (p[1], FieldRole::Data));
            } else if i == 2 {
                assert(f[0] == (p[2], FieldRole::Data));
            }
        },
        ObjectLabel::Provider => {
            assert(f[1] == (p[0], FieldRole::Data));
        },
        ObjectLabel::Recipient => {
            assert(f[1] == (p[0], FieldRole::Data));
        },
        ObjectLabel::Schema => {
            if i == 0 {
                assert(f[1] == (p[0], FieldRole::Data));
            } else if i == 1 {
                assert(f[0] == (p[1], FieldRole::Data));
            }
        },
        ObjectLabel::Share => {
            assert(f[1] == (p[0], FieldRole::Data));
        },
        ObjectLabel::StagingTable => {
            assert(f[1] == (p[0], FieldRole::Data));
        },
        ObjectLabel::Table => {
            if i == 0 {
                assert(f[1] == (p[0], FieldRole::Data));
            } else if i == 1 {
                assert(f[2] == (p[1], FieldRole::Data));
            } else if i == 2 {
                assert(f[0] == (p[2], FieldRole::Data));
            }
        },
        ObjectLabel::TagPolicy => {
            assert(f[0] == (p[0], FieldRole::Data));
        },
        ObjectLabel::Volume => {
            if i == 0 {
                assert(f[1] == (p[0], FieldRole::Data));
            } else if i == 1 {
                assert(f[2] == (p[1], FieldRole::Data));
            } else if i == 2 {
                assert(f[0] == (p[2], FieldRole::Data));
            }
        },
    }
}

proof fn lemma_single_identifier_of_agent()
    ensures
        count_role(field_table(ObjectLabel::Agent), FieldRole::Identifier) == 1,
{
    let f = field_table(ObjectLabel::Agent);
    assert(count_role_prefix(f, FieldRole::Identifier, 0) == 0);
    assert(count_role_prefix(f, FieldRole::Identifier, 1) == 0);
    assert(count_role_prefix(f, FieldRole::Identifier, 2) == 0);
    assert(count_role_prefix(f, FieldRole::Identifier, 3) == 0);
    assert(count_role_prefix(f, FieldRole::Identifier, 4) == 0);
    assert(count_role_prefix(f, FieldRole::Identifier, 5) == 1);
    assert(count_role_prefix(f, FieldRole::Identifier, 6) == 1);
    assert(count_role_prefix(f, FieldRole::Identifier, 7) == 1);
    assert(count_role_prefix(f, FieldRole::Identifier, 8) == 1);
    assert(count_role_prefix(f, FieldRole::Identifier, 9) == 1);
    assert(count_role_prefix(f, FieldRole::Identifier, 10) == 1);
    assert(count_role_prefix(f, FieldRole::Identifier, 11) == 1);
    assert(count_role_prefix(f, FieldRole::Identifier, 12) == 1);
    assert(count_role_prefix(f, FieldRole::Identifier, 13) == 1);
    assert(count_role_prefix(f, FieldRole::Identifier, 14) == 1);
    assert(count_role_prefix(f, FieldRole::Identifier, 15) == 1);
    assert(count_role_prefix(f, FieldRole::Identifier, 16) == 1);
    assert(count_role_prefix(f, FieldRole::Identifier, 17) == 1);
}

proof fn lemma_single_identifier_of_agent_skill()
    ensures
        count_role(field_table(ObjectLabel::AgentSkill), FieldRole::Identifier) == 1,
{
    let f = field_table(ObjectLabel::AgentSkill);
    assert(count_role_prefix(f, FieldRole::Identifier, 0) == 0);
    assert(count_role_prefix(f, FieldRole::Identifier, 1) == 0);
    assert(count_role_prefix(f, FieldRole::Identifier, 2) == 0);
    assert(count_role_prefix(f, FieldRole::Identifier, 3) == 0);
    assert(count_role_prefix(f, FieldRole::Identifier, 4) == 0);
    assert(count_role_prefix(f, FieldRole::Identifier, 5) == 0);
    assert(count_role_prefix(f, FieldRole::Identifier, 6) == 1);
    assert(count_role_prefix(f, FieldRole::Identifier, 7) == 1);
    assert(count_role_prefix(f, FieldRole::Identifier, 8) == 1);
    assert(count_role_prefix(f, FieldRole::Identifier, 9) == 1);
    assert(count_role_prefix(f, FieldRole::Identifier, 10) == 1);
    assert(count_role_prefix(f, FieldRole::Identifier, 11) == 1);
    assert(count_role_prefix(f, FieldRole::Identifier, 12) == 1);
    assert(count_role_prefix(f, FieldRole::Identifier, 13) == 1);
    assert(count_role_prefix(f, FieldRole::Identifier, 14) == 1);
    assert(count_role_prefix(f, FieldRole::Identifier, 15) == 1);
    assert(count_role_prefix(f, FieldRole::Identifier, 16) == 1);
    assert(count_role_prefix(f, FieldRole::Identifier, 17) == 1);
    assert(count_role_prefix(f, FieldRole::Identifier, 18) == 1);
}

proof fn lemma_single_identifier_of_catalog()
    ensures
        count_role(field_table(ObjectLabel::Catalog), FieldRole::Identifier) == 1,
{
    let f = field_table(ObjectLabel::Catalog);
    assert(count_role_prefix(f, FieldRole::Identifier, 0) == 0);
    assert(count_role_prefix(f, FieldRole::Identifier, 1) == 0);
    assert(count_role_prefix(f, FieldRole::Identifier, 2) == 1);
    assert(count_role_prefix(f, FieldRole::Identifier, 3) == 1);
    assert(count_role_prefix(f, FieldRole::Identifier, 4) == 1);
    assert(count_role_prefix(f, FieldRole::Identifier, 5) == 1);
    assert(count_role_prefix(f, FieldRole::Identifier, 6) == 1);
    assert(count_role_prefix(f, FieldRole::Identifier, 7) == 1);
    assert(count_role_prefix(f, FieldRole::Identifier, 8) == 1);
    assert(count_role_prefix(f, FieldRole::Identifier, 9) == 1);
    assert(count_role_prefix(f, FieldRole::Identifier, 10) == 1);
    assert(count_role_prefix(f, FieldRole::Identifier, 11) == 1);
    assert(count_role_prefix(f, FieldRole::Identifier, 12) == 1);
    assert(count_role_prefix(f, FieldRole::Identifier, 13) == 1);
    assert(count_role_prefix(f, FieldRole::Identifier, 14) == 1);
    assert(count_role_prefix(f, FieldRole::Identifier, 15) == 1);
}

proof fn lemma_single_identifier_of_column()
    ensures
        count_role(field_table(ObjectLabel::Column), FieldRole::Identifier) == 1,
{
    let f = field_table(ObjectLabel::Column);
    assert(count_role_prefix(f, FieldRole::Identifier, 0) == 0);
    assert(count_role_prefix(f, FieldRole::Identifier, 1) == 0);
    assert(count_role_prefix(f, FieldRole::Identifier, 2) == 0);
    assert(count_role_prefix(f, FieldRole::Identifier, 3) == 0);
    assert(count_role_prefix(f, FieldRole::Identifier, 4) == 0);
    assert(count_role_prefix(f, FieldRole::Identifier, 5) == 0);
    assert(count_role_prefix(f, FieldRole::Identifier, 6) == 0);
    assert(count_role_prefix(f, FieldRole::Identifier, 7) == 0);
    assert(count_role_prefix(f, FieldRole::Identifier, 8) == 0);
    assert(count_role_prefix(f, FieldRole::Identifier, 9) == 0);
    assert(count_role_prefix(f, FieldRole::Identifier, 10) == 0);
    assert(count_role_prefix(f, FieldRole::Identifier, 11) == 0);
    assert(count_role_prefix(f, FieldRole::Identifier, 12) == 1);
}

proof fn lemma_single_identifier_of_credential()
    ensures
        count_role(field_table(ObjectLabel::Credential), FieldRole::Identifier) == 1,
{
    let f = field_table(ObjectLabel::Credential);
    assert(count_role_prefix(f, FieldRole::Identifier, 0) == 0);
    assert(count_role_prefix(f, FieldRole::Identifier, 1) == 0);
    assert(count_role_prefix(f, FieldRole::Identifier, 2) == 1);
    assert(count_role_prefix(f, FieldRole::Identifier, 3) == 1);
    assert(count_role_prefix(f, FieldRole::Identifier, 4) == 1);
    assert(count_role_prefix(f, FieldRole::Identifier, 5) == 1);
    assert(count_role_prefix(f, FieldRole::Identifier, 6) == 1);
    assert(count_role_prefix(f, FieldRole::Identifier, 7) == 1);
    assert(count_role_prefix(f, FieldRole::Identifier, 8) == 1);
    assert(count_role_prefix(f, FieldRole::Identifier, 9) == 1);
    assert(count_role_prefix(f, FieldRole::Identifier, 10) == 1);
    assert(count_role_prefix(f, FieldRole::Identifier, 11) == 1);
    assert(count_role_prefix(f, FieldRole::Identifier, 12) == 1);
    assert(count_role_prefix(f, FieldRole::Identifier, 13) == 1);
    assert(count_role_prefix(f, FieldRole::Identifier, 14) == 1);
    assert(count_role_prefix(f, FieldRole::Identifier, 15) == 1);
    assert(count_role_prefix(f, FieldRole::Identifier, 16) == 1);
    assert(count_role_prefix(f, FieldRole::Identifier, 17) == 1);
}

proof fn lemma_single_identifier_of_external_location()
    ensures
        count_role(field_table(ObjectLabel::ExternalLocation), FieldRole::Identifier) == 1,
{
    let f = field_table(ObjectLabel::ExternalLocation);
    assert(count_role_prefix(f, FieldRole::Identifier, 0) == 0);
    assert(count_role_prefix(f, FieldRole::Identifier, 1) == 0);
    assert(count_role_prefix(f, FieldRole::Identifier, 2) == 0);
    assert(count_role_prefix(f, FieldRole::Identifier, 3) == 0);
    assert(count_role_prefix(f, FieldRole::Identifier, 4) == 0);
    assert(count_role_prefix(f, FieldRole::Identifier, 5) == 0);
    assert(count_role_prefix(f, FieldRole::Identifier, 6) == 0);
    assert(count_role_prefix(f, FieldRole::Identifier, 7) == 0);
    assert(count_role_prefix(f, FieldRole::Identifier, 8) == 0);
    assert(count_role_prefix(f, FieldRole::Identifier, 9) == 0);
    assert(count_role_prefix(f, FieldRole::Identifier, 10) == 0);
    assert(count_role_prefix(f, FieldRole::Identifier, 11) == 0);
    assert(count_role_prefix(f, FieldRole::Identifier, 12) == 0);
    assert(count_role_prefix(f, FieldRole::Identifier, 13) == 1);
}

proof fn lemma_single_identifier_of_function()
    ensures
        count_role(field_table(ObjectLabel::Function), FieldRole::Identifier) == 1,
{
    let f = field_table(ObjectLabel::Function);
    assert(count_role_prefix(f, FieldRole::Identifier, 0) == 0);
    assert(count_role_prefix(f, FieldRole::Identifier, 1) == 0);
    assert(count_role_prefix(f, FieldRole::Identifier, 2) == 0);
    assert(count_role_prefix(f, FieldRole::Identifier, 3) == 0);
    assert(count_role_prefix(f, FieldRole::Identifier, 4) == 0);
    assert(count_role_prefix(f, FieldRole::Identifier, 5) == 0);
    assert(count_role_prefix(f, FieldRole::Identifier, 6) == 0);
    assert(count_role_prefix(f, FieldRole::Identifier, 7) == 0);
    assert(count_role_prefix(f, FieldRole::Identifier, 8) == 0);
    assert(count_role_prefix(f, FieldRole::Identifier, 9) == 0);
    assert(count_role_prefix(f, FieldRole::Identifier, 10) == 0);
    assert(count_role_prefix(f, FieldRole::Identifier, 11) == 0);
    assert(count_role_prefix(f, FieldRole::Identifier, 12) == 0);
    assert(count_role_prefix(f, FieldRole::Identifier, 13) == 0);
    assert(count_role_prefix(f, FieldRole::Identifier, 14) == 0);
    assert(count_role_prefix(f, FieldRole::Identifier, 15) == 0);
    assert(count_role_prefix(f, FieldRole::Identifier, 16) == 0);
    assert(count_role_prefix(f, FieldRole::Identifier, 17) == 0);
    assert(count_role_prefix(f, FieldRole::Identifier, 18) == 0);
    assert(count_role_prefix(f, FieldRole::Identifier, 19) == 0);
    assert(count_role_prefix(f, FieldRole::Identifier, 20) == 0);
    assert(count_role_prefix(f, FieldRole::Identifier, 21) == 0);
    assert(count_role_prefix(f, FieldRole::Identifier, 22) == 1);
    assert(count_role_prefix(f, FieldRole::Identifier, 23) == 1);
    assert(count_role_prefix(f, FieldRole::Identifier, 24) == 1);
    assert(count_role_prefix(f, FieldRole::Identifier, 25) == 1);
    assert(count_role_prefix(f, FieldRole::Identifier, 26) == 1);
}

proof fn lemma_single_identifier_of_provider()
    ensures
        count_role(field_table(ObjectLabel::Provider), FieldRole::Identifier) == 1,
{
    let f = field_table(ObjectLabel::Provider);
    assert(count_role_prefix(f, FieldRole::Identifier, 0) == 0);
    assert(count_role_prefix(f, FieldRole::Identifier, 1) == 1);
    assert(count_role_prefix(f, FieldRole::Identifier, 2) == 1);
    assert(count_role_prefix(f, FieldRole::Identifier, 3) == 1);
    assert(count_role_prefix(f, FieldRole::Identifier, 4) == 1);
    assert(count_role_prefix(f, FieldRole::Identifier, 5) == 1);
    assert(count_role_prefix(f, FieldRole::Identifier, 6) == 1);
    assert(count_role_prefix(f, FieldRole::Identifier, 7) == 1);
    assert(count_role_prefix(f, FieldRole::Identifier, 8) == 1);
    assert(count_role_prefix(f, FieldRole::Identifier, 9) == 1);
    assert(count_role_prefix(f, FieldRole::Identifier, 10) == 1);
    assert(count_role_prefix(f, FieldRole::Identifier, 11) == 1);
}

proof fn lemma_single_identifier_of_recipient()
    ensures
        count_role(field_table(ObjectLabel::Recipient), FieldRole::Identifier) == 1,
{
    let f = field_table(ObjectLabel::Recipient);
    assert(count_role_prefix(f, FieldRole::Identifier, 0) == 0);
    assert(count_role_prefix(f, FieldRole::Identifier, 1) == 1);
    assert(count_role_prefix(f, FieldRole::Identifier, 2) == 1);
    assert(count_role_prefix(f, FieldRole::Identifier, 3) == 1);
    assert(count_role_prefix(f, FieldRole::Identifier, 4) == 1);
    assert(count_role_prefix(f, FieldRole::Identifier, 5) == 1);
    assert(count_role_prefix(f, FieldRole::Identifier, 6) == 1);
    assert(count_role_prefix(f, FieldRole::Identifier, 7) == 1);
    assert(count_role_prefix(f, FieldRole::Identifier, 8) == 1);
    assert(count_role_prefix(f, FieldRole::Identifier, 9) == 1);
    assert(count_role_prefix(f, FieldRole::Identifier, 10) == 1);
    assert(count_role_prefix(f, FieldRole::Identifier, 11) == 1);
}

proof fn lemma_single_identifier_of_schema()
    ensures
        count_role(field_table(ObjectLabel::Schema), FieldRole::Identifier) == 1,
{
    let f = field_table(ObjectLabel::Schema);
    assert(count_role_prefix(f, FieldRole::Identifier, 0) == 0);
    assert(count_role_prefix(f, FieldRole::Identifier, 1) == 0);
    assert(count_role_prefix(f, FieldRole::Identifier, 2) == 0);
    assert(count_role_prefix(f, FieldRole::Identifier, 3) == 0);
    assert(count_role_prefix(f, FieldRole::Identifier, 4) == 0);
    assert(count_role_prefix(f, FieldRole::Identifier, 5) == 0);
    assert(count_role_prefix(f, FieldRole::Identifier, 6) == 0);
    assert(count_role_prefix(f, FieldRole::Identifier, 7) == 0);
    assert(count_role_prefix(f, FieldRole::Identifier, 8) == 0);
    assert(count_role_prefix(f, FieldRole::Identifier, 9) == 0);
    assert(count_role_prefix(f, FieldRole::Identifier, 10) == 0);
    assert(count_role_prefix(f, FieldRole::Identifier, 11) == 1);
    assert(count_role_prefix(f, FieldRole::Identifier, 12) == 1);
    assert(count_role_prefix(f, FieldRole::Identifier, 13) == 1);
}

proof fn lemma_single_identifier_of_share()
    ensures
        count_role(field_table(ObjectLabel::Share), FieldRole::Identifier) == 1,
{
    let f = field_table(ObjectLabel::Share);
    assert(count_role_prefix(f, FieldRole::Identifier, 0) == 0);
    assert(count_role_prefix(f, FieldRole::Identifier, 1) == 1);
    assert(count_role_prefix(f, FieldRole::Identifier, 2) == 1);
    assert(count_role_prefix(f, FieldRole::Identifier, 3) == 1);
    assert(count_role_prefix(f, FieldRole::Identifier, 4) == 1);
    assert(count_role_prefix(f, FieldRole::Identifier, 5) == 1);
    assert(count_role_prefix(f, FieldRole::Identifier, 6) == 1);
    assert(count_role_prefix(f, FieldRole::Identifier, 7) == 1);
    assert(count_role_prefix(f, FieldRole::Identifier, 8) == 1);
    assert(count_role_prefix(f, FieldRole::Identifier, 9) == 1);
    assert(count_role_prefix(f, FieldRole::Identifier, 10) == 1);
    assert(count_role_prefix(f, FieldRole::Identifier, 11) == 1);
}

proof fn lemma_single_identifier_of_staging_table()
    ensures
        count_role(field_table(ObjectLabel::StagingTable), FieldRole::Identifier) == 1,
{
    let f = field_table(ObjectLabel::StagingTable);
    assert(count_role_prefix(f, FieldRole::Identifier, 0) == 0);
    assert(count_role_prefix(f, FieldRole::Identifier, 1) == 1);
    assert(count_role_prefix(f, FieldRole::Identifier, 2) == 1);
    assert(count_role_prefix(f, FieldRole::Identifier, 3) == 1);
    assert(count_role_prefix(f, FieldRole::Identifier, 4) == 1);
    assert(count_role_prefix(f, FieldRole::Identifier, 5) == 1);
    assert(count_role_prefix(f, FieldRole::Identifier, 6) == 1);
    assert(count_role_prefix(f, FieldRole::Identifier, 7) == 1);
    assert(count_role_prefix(f, FieldRole::Identifier, 8) == 1);
}

proof fn lemma_single_identifier_of_table()
    ensures
        count_role(field_table(ObjectLabel::Table), FieldRole::Identifier) == 1,
{
    let f = field_table(ObjectLabel::Table);
    assert(count_role_prefix(f, FieldRole::Identifier, 0) == 0);
    assert(count_role_prefix(f, FieldRole::Identifier, 1) == 0);
    assert(count_role_prefix(f, FieldRole::Identifier, 2) == 0);
    assert(count_role_prefix(f, FieldRole::Identifier, 3) == 0);
    assert(count_role_prefix(f, FieldRole::Identifier, 4) == 0);
    assert(count_role_prefix(f, FieldRole::Identifier, 5) == 0);
    assert(count_role_prefix(f, FieldRole::Identifier, 6) == 0);
    assert(count_role_prefix(f, FieldRole::Identifier, 7) == 0);
    assert(count_role_prefix(f, FieldRole::Identifier, 8) == 0);
    assert(count_role_prefix(f, FieldRole::Identifier, 9) == 0);
    assert(count_role_prefix(f, FieldRole::Identifier, 10) == 0);
    assert(count_role_prefix(f, FieldRole::Identifier, 11) == 0);
    assert(count_role_prefix(f, FieldRole::Identifier, 12) == 0);
    assert(count_role_prefix(f, FieldRole::Identifier, 13) == 0);
    assert(count_role_prefix(f, FieldRole::Identifier, 14) == 0);
    assert(count_role_prefix(f, FieldRole::Identifier, 15) == 0);
    assert(count_role_prefix(f, FieldRole::Identifier, 16) == 0);
    assert(count_role_prefix(f, FieldRole::Identifier, 17) == 0);
    assert(count_role_prefix(f, FieldRole::Identifier, 18) == 0);
    assert(count_role_prefix(f, FieldRole::Identifier, 19) == 0);
    assert(count_role_prefix(f, FieldRole::Identifier, 20) == 1);
}

proof fn lemma_single_identifier_of_tag_policy()
    ensures
        count_role(field_table(ObjectLabel::TagPolicy), FieldRole::Identifier) == 1,
{
    let f = field_table(ObjectLabel::TagPolicy);
    assert(count_role_prefix(f, FieldRole::Identifier, 0) == 0);
    assert(count_role_prefix(f, FieldRole::Identifier, 1) == 0);
    assert(count_role_prefix(f, FieldRole::Identifier, 2) == 0);
    assert(count_role_prefix(f, FieldRole::Identifier, 3) == 0);
    assert(count_role_prefix(f, FieldRole::Identifier, 4) == 1);
    assert(count_role_prefix(f, FieldRole::Identifier, 5) == 1);
    assert(count_role_prefix(f, FieldRole::Identifier, 6) == 1);
}

proof fn lemma_single_identifier_of_volume()
    ensures
        count_role(field_table(ObjectLabel::Volume), FieldRole::Identifier) == 1,
{
    let f = field_table(ObjectLabel::Volume);
    assert(count_role_prefix(f, FieldRole::Identifier, 0) == 0);
    assert(count_role_prefix(f, FieldRole::Identifier, 1) == 0);
    assert(count_role_prefix(f, FieldRole::Identifier, 2) == 0);
    assert(count_role_prefix(f, FieldRole::Identifier, 3) == 0);
    assert(count_role_prefix(f, FieldRole::Identifier, 4) == 0);
    assert(count_role_prefix(f, FieldRole::Identifier, 5) == 0);
    assert(count_role_prefix(f, FieldRole::Identifier, 6) == 1);
    assert(count_role_prefix(f, FieldRole::Identifier, 7) == 1);
    assert(count_role_prefix(f, FieldRole::Identifier, 8) == 1);
    assert(count_role_prefix(f, FieldRole::Identifier, 9) == 1);
    assert(count_role_prefix(f, FieldRole::Identifier, 10) == 1);
    assert(count_role_prefix(f, FieldRole::Identifier, 11) == 1);
    assert(count_role_prefix(f, FieldRole::Identifier, 12) == 1);
    assert(count_role_prefix(f, FieldRole::Identifier, 13) == 1);
    assert(count_role_prefix(f, FieldRole::Identifier, 14) == 1);
    assert(count_role_prefix(f, FieldRole::Identifier, 15) == 1);
}

/// Every resource type has exactly one identifier field.
pub proof fn lemma_single_identifier(l: ObjectLabel)
    ensures
        count_role(field_table(l), FieldRole::Identifier) == 1,
{
    match l {
        ObjectLabel::Agent => lemma_single_identifier_of_agent(),
        ObjectLabel::AgentSkill => lemma_single_identifier_of_agent_skill(),
        ObjectLabel::Catalog => lemma_single_identifier_of_catalog(),
        ObjectLabel::Column => lemma_single_identifier_of_column(),
        ObjectLabel::Credential => lemma_single_identifier_of_credential(),
        ObjectLabel::ExternalLocation => lemma_single_identifier_of_external_location(),
        ObjectLabel::Function => lemma_single_identifier_of_function(),
        ObjectLabel::Provider => lemma_single_identifier_of_provider(),
        ObjectLabel::Recipient => lemma_single_identifier_of_recipient(),
        ObjectLabel::Schema => lemma_single_identifier_of_schema(),
        ObjectLabel::Share => lemma_single_identifier_of_share(),
        ObjectLabel::StagingTable => lemma_single_identifier_of_staging_table(),
        ObjectLabel::Table => lemma_single_identifier_of_table(),
        ObjectLabel::TagPolicy => lemma_single_identifier_of_tag_policy(),
        ObjectLabel::Volume => lemma_single_identifier_of_volume(),
    }
}

} // verus!
