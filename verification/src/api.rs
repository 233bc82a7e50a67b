//! The request, response and helper messages of the service's APIs, as plain values.
//! Enumerated fields are held as their integer codes; nested messages whose shape the
//! library does not read are held as their JSON text.

use vstd::prelude::*;

use std::collections::BTreeMap;

use crate::messages::FunctionParameterInfos;
use crate::records::{Agent, AgentSkill, Function, TagPolicy};

verus! {

/// A request to create an agent.
#[derive(Debug, Clone, PartialEq, Eq, Default)]
pub struct CreateAgentRequest {
    pub catalog_name: String,
    pub schema_name: String,
    pub name: String,
    /// An enumeration code.
    pub invocation_protocol: i32,
    pub endpoint: String,
    pub description: Option<String>,
    pub capabilities: Vec<String>,
    /// Held as its JSON text.
    pub input_schema: Option<String>,
    pub comment: Option<String>,
}

/// A request to delete an agent.
#[derive(Debug, Clone, PartialEq, Eq, Default)]
pub struct DeleteAgentRequest {
    pub name: String,
}

/// A request to read an agent.
#[derive(Debug, Clone, PartialEq, Eq, Default)]
pub struct GetAgentRequest {
    pub name: String,
    pub include_browse: Option<bool>,
}

/// A request to list the agents of a schema.
#[derive(Debug, Clone, PartialEq, Eq, Default)]
pub struct ListAgentsRequest {
    pub catalog_name: String,
    pub schema_name: String,
    pub max_results: Option<i32>,
    pub page_token: Option<String>,
    pub include_browse: Option<bool>,
}

/// A page of agents.
#[derive(Debug, Clone, PartialEq, Eq, Default)]
pub struct ListAgentsResponse {
    pub agents: Vec<Agent>,
    pub next_page_token: Option<String>,
}

/// A request to change an agent.
#[derive(Debug, Clone, PartialEq, Eq, Default)]
pub struct UpdateAgentRequest {
    pub name: String,
    pub new_name: Option<String>,
    /// An enumeration code.
    pub invocation_protocol: Option<i32>,
    pub endpoint: Option<String>,
    pub description: Option<String>,
    pub capabilities: Vec<String>,
    /// Held as its JSON text.
    pub input_schema: Option<String>,
    pub comment: Option<String>,
    pub owner: Option<String>,
}

/// A request to create an agent skill.
#[derive(Debug, Clone, PartialEq, Eq, Default)]
pub struct CreateAgentSkillRequest {
    pub catalog_name: String,
    pub schema_name: String,
    pub name: String,
    /// An enumeration code.
    pub agent_skill_type: i32,
    pub storage_location: Option<String>,
    pub description: Option<String>,
    pub license: Option<String>,
    pub allowed_tools: Vec<String>,
    pub metadata: BTreeMap<String, String>,
    pub comment: Option<String>,
}

/// A request to delete an agent skill.
#[derive(Debug, Clone, PartialEq, Eq, Default)]
pub struct DeleteAgentSkillRequest {
    pub name: String,
}

/// A request to read an agent skill.
#[derive(Debug, Clone, PartialEq, Eq, Default)]
pub struct GetAgentSkillRequest {
    pub name: String,
    pub include_browse: Option<bool>,
}

/// A request to list the agent skills of a schema.
#[derive(Debug, Clone, PartialEq, Eq, Default)]
pub struct ListAgentSkillsRequest {
    pub catalog_name: String,
    pub schema_name: String,
    pub max_results: Option<i32>,
    pub page_token: Option<String>,
    pub include_browse: Option<bool>,
}

/// A page of agent skills.
#[derive(Debug, Clone, PartialEq, Eq, Default)]
pub struct ListAgentSkillsResponse {
    pub agent_skills: Vec<AgentSkill>,
    pub next_page_token: Option<String>,
}

/// A request to change an agent skill.
#[derive(Debug, Clone, PartialEq, Eq, Default)]
pub struct UpdateAgentSkillRequest {
    pub name: String,
    pub new_name: Option<String>,
    pub description: Option<String>,
    pub allowed_tools: Vec<String>,
    pub comment: Option<String>,
    pub owner: Option<String>,
}

/// A request to create a function.
#[derive(Debug, Clone, PartialEq, Eq, Default)]
pub struct CreateFunctionRequest {
    pub name: String,
    pub catalog_name: String,
    pub schema_name: String,
    pub data_type: String,
    pub full_data_type: String,
    pub input_params: Option<FunctionParameterInfos>,
    /// An enumeration code.
    pub parameter_style: i32,
    pub is_deterministic: bool,
    /// An enumeration code.
    pub sql_data_access: i32,
    pub is_null_call: bool,
    /// An enumeration code.
    pub security_type: i32,
    /// An enumeration code.
    pub routine_body: i32,
    pub routine_definition: Option<String>,
    pub routine_body_language: Option<String>,
    pub comment: Option<String>,
    pub properties: BTreeMap<String, String>,
}

/// A request to delete a function.
#[derive(Debug, Clone, PartialEq, Eq, Default)]
pub struct DeleteFunctionRequest {
    pub name: String,
    pub force: Option<bool>,
}

/// A request to read a function.
#[derive(Debug, Clone, PartialEq, Eq, Default)]
pub struct GetFunctionRequest {
    pub name: String,
}

/// A request to list the functions of a schema.
#[derive(Debug, Clone, PartialEq, Eq, Default)]
pub struct ListFunctionsRequest {
    pub catalog_name: String,
    pub schema_name: String,
    pub max_results: Option<i32>,
    pub page_token: Option<String>,
    pub include_browse: Option<bool>,
}

/// A page of functions.
#[derive(Debug, Clone, PartialEq, Eq, Default)]
pub struct ListFunctionsResponse {
    pub functions: Vec<Function>,
    pub next_page_token: Option<String>,
}

/// A request to change a function's owner.
#[derive(Debug, Clone, PartialEq, Eq, Default)]
pub struct UpdateFunctionRequest {
    pub name: String,
    pub owner: Option<String>,
}

/// A request to create a staging table.
#[derive(Debug, Clone, PartialEq, Eq, Default)]
pub struct CreateStagingTableRequest {
    pub name: String,
    pub catalog_name: String,
    pub schema_name: String,
}

/// A tag assigned to an entity.
#[derive(Debug, Clone, PartialEq, Eq, Default)]
pub struct EntityTagAssignment {
    pub entity_type: String,
    pub entity_name: String,
    pub tag_key: String,
    pub tag_value: Option<String>,
}

/// A request to assign a tag.
#[derive(Debug, Clone, PartialEq, Eq, Default)]
pub struct CreateEntityTagAssignmentRequest {
    pub tag_assignment: Option<EntityTagAssignment>,
}

/// A request to create a tag policy.
#[derive(Debug, Clone, PartialEq, Eq, Default)]
pub struct CreateTagPolicyRequest {
    pub tag_policy: Option<TagPolicy>,
}

/// A request to remove a tag from an entity.
#[derive(Debug, Clone, PartialEq, Eq, Default)]
pub struct DeleteEntityTagAssignmentRequest {
    pub entity_type: String,
    pub entity_name: String,
    pub tag_key: String,
}

/// A request to delete a tag policy.
#[derive(Debug, Clone, PartialEq, Eq, Default)]
pub struct DeleteTagPolicyRequest {
    pub tag_key: String,
}

/// A request to read a tag of an entity.
#[derive(Debug, Clone, PartialEq, Eq, Default)]
pub struct GetEntityTagAssignmentRequest {
    pub entity_type: String,
    pub entity_name: String,
    pub tag_key: String,
}

/// A request to read a tag policy.
#[derive(Debug, Clone, PartialEq, Eq, Default)]
pub struct GetTagPolicyRequest {
    pub tag_key: String,
}

/// A request to list the tags of an entity.
#[derive(Debug, Clone, PartialEq, Eq, Default)]
pub struct ListEntityTagAssignmentsRequest {
    pub entity_type: String,
    pub entity_name: String,
    pub max_results: Option<i32>,
    pub page_token: Option<String>,
}

/// A page of tag assignments.
#[derive(Debug, Clone, PartialEq, Eq, Default)]
pub struct ListEntityTagAssignmentsResponse {
    pub tag_assignments: Vec<EntityTagAssignment>,
    pub next_page_token: Option<String>,
}

/// A request to list tag policies.
#[derive(Debug, Clone, PartialEq, Eq, Default)]
pub struct ListTagPoliciesRequest {
    pub page_size: Option<i32>,
    pub page_token: Option<String>,
}

/// A page of tag policies.
#[derive(Debug, Clone, PartialEq, Eq, Default)]
pub struct ListTagPoliciesResponse {
    pub tag_policies: Vec<TagPolicy>,
    pub next_page_token: Option<String>,
}

/// A request to change a tag of an entity.
#[derive(Debug, Clone, PartialEq, Eq, Default)]
pub struct UpdateEntityTagAssignmentRequest {
    pub entity_type: String,
    pub entity_name: String,
    pub tag_key: String,
    pub tag_assignment: Option<EntityTagAssignment>,
    /// Held as its JSON text.
    pub update_mask: Option<String>,
}

/// A request to change a tag policy.
#[derive(Debug, Clone, PartialEq, Eq, Default)]
pub struct UpdateTagPolicyRequest {
    pub tag_key: String,
    pub tag_policy: Option<TagPolicy>,
    /// Held as its JSON text.
    pub update_mask: Option<String>,
}

/// A commit of a Delta table.
#[derive(Debug, Clone, PartialEq, Eq, Default)]
pub struct CommitInfo {
    pub version: i64,
    pub timestamp: i64,
    pub file_name: String,
    pub file_size: i64,
    pub file_modification_timestamp: i64,
}

/// Metadata of a Delta table carried with a commit.
#[derive(Debug, Clone, PartialEq, Eq, Default)]
pub struct Metadata {
    pub id: Option<String>,
    pub schema_string: Option<String>,
    pub configuration: BTreeMap<String, String>,
}

/// A request to record a commit.
#[derive(Debug, Clone, PartialEq, Eq, Default)]
pub struct CommitRequest {
    pub table_id: String,
    pub table_uri: String,
    pub commit_info: Option<CommitInfo>,
    pub latest_backfilled_version: Option<i64>,
    pub metadata: Option<Metadata>,
}

/// A request to list the commits of a table.
#[derive(Debug, Clone, PartialEq, Eq, Default)]
pub struct GetCommitsRequest {
    pub table_id: String,
    pub table_uri: String,
    pub start_version: i64,
    pub end_version: Option<i64>,
}

/// The commits of a table.
#[derive(Debug, Clone, PartialEq, Eq, Default)]
pub struct GetCommitsResponse {
    pub commits: Vec<CommitInfo>,
    pub latest_table_version: i64,
}

/// Temporary AWS credentials.
#[derive(Debug, Clone, PartialEq, Eq, Default)]
pub struct AwsTemporaryCredentials {
    pub access_key_id: String,
    pub access_point: String,
    pub secret_access_key: String,
    pub session_token: String,
}

/// An Azure Active Directory token.
#[derive(Debug, Clone, PartialEq, Eq, Default)]
pub struct AzureAad {
    pub aad_token: String,
}

/// An Azure user delegation SAS token.
#[derive(Debug, Clone, PartialEq, Eq, Default)]
pub struct AzureUserDelegationSas {
    pub sas_token: String,
}

/// A GCP OAuth token.
#[derive(Debug, Clone, PartialEq, Eq, Default)]
pub struct GcpOauthToken {
    pub oauth_token: String,
}

/// Temporary Cloudflare R2 credentials.
#[derive(Debug, Clone, PartialEq, Eq, Default)]
pub struct R2TemporaryCredentials {
    pub access_key_id: String,
    pub secret_access_key: String,
    pub session_token: String,
}

/// A request for credentials to a storage path.
#[derive(Debug, Clone, PartialEq, Eq, Default)]
pub struct GenerateTemporaryPathCredentialsRequest {
    pub url: String,
    /// An enumeration code.
    pub operation: i32,
    pub dry_run: Option<bool>,
}

/// A request for credentials to a table.
#[derive(Debug, Clone, PartialEq, Eq, Default)]
pub struct GenerateTemporaryTableCredentialsRequest {
    pub table_id: String,
    /// An enumeration code.
    pub operation: i32,
}

/// The credentials of a temporary credential: one of the forms a cloud provider takes.
#[derive(Debug, Clone, PartialEq, Eq)]
pub enum TemporaryCredentials {
    AzureUserDelegationSas(AzureUserDelegationSas),
    AzureAad(AzureAad),
    AwsTempCredentials(AwsTemporaryCredentials),
    GcpOauthToken(GcpOauthToken),
    R2TempCredentials(R2TemporaryCredentials),
}

/// Temporary credentials for a storage location.
#[derive(Debug, Clone, PartialEq, Eq, Default)]
pub struct TemporaryCredential {
    pub expiration_time: i64,
    pub url: String,
    pub credentials: Option<TemporaryCredentials>,
}

} // verus!
