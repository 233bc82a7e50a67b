//! Models for the Delta REST API (`/delta/v1/...`): tables, commits, credentials and the
//! error envelope.

use vstd::prelude::*;

use std::collections::BTreeMap;

verus! {

/// A JSON value, carried as it is in column metadata.
#[verifier::external_type_specification]
#[verifier::external_body]
pub struct ExJsonValue(serde_json::Value);

/// The type of a Delta table.
#[derive(Debug, Clone, Copy, PartialEq, Eq)]
pub enum DeltaTableType {
    Managed,
    External,
}

/// The permission level for a storage credential.
#[derive(Debug, Clone, Copy, PartialEq, Eq)]
pub enum DeltaCredentialOperation {
    Read,
    ReadWrite,
}

/// Cloud provider-specific credential configuration. Only keys for the relevant cloud
/// provider are populated; the others are `None`.
#[derive(Debug, Clone, Default, PartialEq, Eq)]
pub struct DeltaStorageCredentialConfig {
    pub s3_access_key_id: Option<String>,
    pub s3_secret_access_key: Option<String>,
    pub s3_session_token: Option<String>,
    pub azure_sas_token: Option<String>,
    pub gcs_oauth_token: Option<String>,
}

/// Temporary storage credential with prefix and config.
#[derive(Debug, Clone, PartialEq, Eq)]
pub struct DeltaStorageCredential {
    /// Storage path prefix this credential applies to.
    pub prefix: String,
    pub operation: DeltaCredentialOperation,
    pub config: DeltaStorageCredentialConfig,
    /// Credential expiration time in epoch milliseconds.
    pub expiration_time_ms: i64,
}

/// Response carrying temporary cloud storage credentials.
#[derive(Debug, Clone, PartialEq, Eq)]
pub struct DeltaCredentialsResponse {
    pub storage_credentials: Vec<DeltaStorageCredential>,
}

/// Catalog configuration and supported endpoints.
#[derive(Debug, Clone, PartialEq, Eq)]
pub struct DeltaCatalogConfig {
    /// List of supported endpoints.
    pub endpoints: Vec<String>,
    /// The negotiated protocol version (e.g., "1.0").
    pub protocol_version: String,
}

/// A Delta column data type: a primitive named by a string (`long`, `decimal(10,2)`), or
/// a complex type carrying its own `type` discriminator.
#[derive(Debug, PartialEq)]
pub enum DeltaDataType {
    /// Bare-string primitive type, e.g. `"long"`, `"string"`, `"decimal(10,2)"`.
    Primitive(String),
    Array(Box<DeltaArrayType>),
    /// A map type (named `Map` on the wire).
    MapType(Box<DeltaMapType>),
    Struct(Box<DeltaStructType>),
    /// Object form of decimal; the string form is carried by `Primitive`.
    Decimal(DeltaDecimalType),
}

/// The `type` discriminator constant for an array data type.
#[derive(Debug, Clone, Copy, PartialEq, Eq, Default)]
pub enum ArrayTypeTag {
    #[default]
    Array,
}

/// The `type` discriminator constant for a map data type.
#[derive(Debug, Clone, Copy, PartialEq, Eq, Default)]
pub enum MapTypeTag {
    /// The `map` discriminator.
    #[default]
    MapType,
}

/// The `type` discriminator constant for a decimal data type.
#[derive(Debug, Clone, Copy, PartialEq, Eq, Default)]
pub enum DecimalTypeTag {
    #[default]
    Decimal,
}

#[derive(Debug, PartialEq)]
pub struct DeltaArrayType {
    pub type_tag: ArrayTypeTag,
    pub element_type: DeltaDataType,
    pub contains_null: bool,
}

#[derive(Debug, PartialEq)]
pub struct DeltaMapType {
    pub type_tag: MapTypeTag,
    pub key_type: DeltaDataType,
    pub value_type: DeltaDataType,
    pub value_contains_null: bool,
}

#[derive(Debug, Clone, PartialEq, Eq)]
pub struct DeltaDecimalType {
    pub type_tag: DecimalTypeTag,
    pub precision: i32,
    pub scale: i32,
}

/// A field in a `DeltaStructType`: name, type, nullability, and metadata.
#[derive(Debug, PartialEq)]
pub struct DeltaStructField {
    pub name: String,
    pub data_type: DeltaDataType,
    pub nullable: bool,
    /// Arbitrary column metadata (e.g. `comment`, `delta.columnMapping.id`).
    pub metadata: BTreeMap<String, serde_json::Value>,
}

/// Struct type containing named fields; carries the `type: "struct"` discriminator.
#[derive(Debug, PartialEq)]
pub struct DeltaStructType {
    pub type_tag: StructTypeTag,
    pub fields: Vec<DeltaStructField>,
}

/// The discriminator a struct type carries where its input names none.
pub fn struct_type_tag() -> (r: StructTypeTag)
    ensures
        r == StructTypeTag::Struct,
{
    StructTypeTag::Struct
}

/// The constant `"struct"` discriminator for `DeltaStructType`.
#[derive(Debug, Clone, Copy, PartialEq, Eq, Default)]
pub enum StructTypeTag {
    #[default]
    Struct,
}

/// Delta table protocol specification.
#[derive(Debug, Clone, PartialEq, Eq)]
pub struct DeltaProtocol {
    pub min_reader_version: i32,
    pub min_writer_version: i32,
    pub reader_features: Option<Vec<String>>,
    pub writer_features: Option<Vec<String>>,
}

/// Suggested protocol advertised in the staging response (only feature hints).
#[derive(Debug, Clone, Default, PartialEq, Eq)]
pub struct DeltaSuggestedProtocol {
    pub reader_features: Option<Vec<String>>,
    pub writer_features: Option<Vec<String>>,
}

/// Configuration for clustered tables.
#[derive(Debug, Clone, PartialEq, Eq)]
pub struct DeltaClusteringDomainMetadata {
    /// Clustering column paths, each a path from the root schema to a column.
    pub clustering_columns: Vec<Vec<String>>,
}

/// Configuration for row tracking.
#[derive(Debug, Clone, PartialEq, Eq)]
pub struct DeltaRowTrackingDomainMetadata {
    /// The highest fresh row id assigned so far.
    pub row_id_high_water_mark: i64,
}

/// Domain metadata entries keyed by domain name.
#[derive(Debug, Clone, Default, PartialEq, Eq)]
pub struct DeltaDomainMetadataUpdates {
    pub delta_clustering: Option<DeltaClusteringDomainMetadata>,
    pub delta_row_tracking: Option<DeltaRowTrackingDomainMetadata>,
}

/// Iceberg-specific conversion metadata.
#[derive(Debug, Clone, PartialEq, Eq)]
pub struct DeltaIcebergMetadata {
    pub metadata_location: Option<String>,
    pub converted_delta_version: Option<i64>,
    pub converted_delta_timestamp: Option<i64>,
    pub base_converted_delta_version: Option<i64>,
}

/// UniForm conversion metadata, present only for UniForm (Delta + Iceberg) tables.
#[derive(Debug, Clone, PartialEq, Eq)]
pub struct DeltaUniformMetadata {
    pub iceberg: DeltaIcebergMetadata,
}

/// Delta commit information.
#[derive(Debug, Clone, PartialEq, Eq)]
pub struct DeltaCommit {
    pub version: i64,
    /// In-commit timestamp, in epoch milliseconds.
    pub timestamp: i64,
    /// UUID-based commit file name.
    pub file_name: String,
    pub file_size: i64,
    /// File modification timestamp, in epoch milliseconds.
    pub file_modification_timestamp: i64,
}

/// Request to create a staging table.
#[derive(Debug, Clone, PartialEq, Eq)]
pub struct DeltaCreateStagingTableRequest {
    pub name: String,
}

/// Response from creating a staging table: the catalog-managed contract plus
/// credentials for writing the initial commit.
#[derive(Debug, Clone, PartialEq)]
pub struct DeltaStagingTableResponse {
    pub table_id: String,
    pub table_type: DeltaTableType,
    pub location: String,
    pub storage_credentials: Vec<DeltaStorageCredential>,
    pub required_protocol: DeltaProtocol,
    pub suggested_protocol: Option<DeltaSuggestedProtocol>,
    /// Properties that must be set; `None` values mean any valid value is allowed.
    pub required_properties: BTreeMap<String, Option<String>>,
    /// Properties that should be set whenever possible; `None` values mean the client
    /// generates the value.
    pub suggested_properties: Option<BTreeMap<String, Option<String>>>,
}

/// Request to create a Delta table (managed or external).
#[derive(Debug, PartialEq)]
pub struct DeltaCreateTableRequest {
    pub name: String,
    pub location: String,
    pub table_type: DeltaTableType,
    pub comment: Option<String>,
    pub columns: DeltaStructType,
    pub partition_columns: Option<Vec<String>>,
    pub protocol: DeltaProtocol,
    pub properties: BTreeMap<String, String>,
    pub domain_metadata: Option<DeltaDomainMetadataUpdates>,
    /// Timestamp of version 0, in epoch milliseconds.
    pub last_commit_timestamp_ms: i64,
    pub uniform: Option<DeltaUniformMetadata>,
}

/// Complete table metadata.
#[derive(Debug, PartialEq)]
pub struct DeltaTableMetadata {
    /// Entity tag for optimistic concurrency control.
    pub etag: String,
    pub table_type: DeltaTableType,
    pub table_uuid: String,
    pub location: String,
    pub created_time: i64,
    pub updated_time: i64,
    pub columns: DeltaStructType,
    pub partition_columns: Option<Vec<String>>,
    pub properties: BTreeMap<String, String>,
    /// The version of the last commit that changed table metadata.
    pub last_commit_version: Option<i64>,
    /// Timestamp of the last commit that changed table metadata, in epoch milliseconds.
    pub last_commit_timestamp_ms: Option<i64>,
}

/// Response from loading, creating or updating a table.
#[derive(Debug, PartialEq)]
pub struct DeltaLoadTableResponse {
    pub metadata: DeltaTableMetadata,
    /// All unbackfilled commits.
    pub commits: Option<Vec<DeltaCommit>>,
    pub uniform: Option<DeltaUniformMetadata>,
    /// The latest ratified table version tracked by the server.
    pub latest_table_version: Option<i64>,
}

/// Request to rename a table within the same catalog and schema.
#[derive(Debug, Clone, PartialEq, Eq)]
pub struct DeltaRenameTableRequest {
    pub new_name: String,
}

/// A pre-condition that must hold for an update to apply.
#[derive(Debug, Clone, PartialEq, Eq)]
pub enum DeltaTableRequirement {
    /// The table UUID must match `uuid`.
    AssertTableUuid { uuid: String },
    /// The table etag must match `etag`.
    AssertEtag { etag: String },
}

/// A single update action.
#[derive(Debug, PartialEq)]
pub enum DeltaTableUpdate {
    SetProperties { updates: BTreeMap<String, String> },
    RemoveProperties { removals: Vec<String> },
    SetColumns { columns: DeltaStructType },
    SetTableComment { comment: String },
    AddCommit { commit: DeltaCommit, uniform: Option<DeltaUniformMetadata> },
    SetLatestBackfilledVersion { latest_published_version: i64 },
    SetProtocol { protocol: DeltaProtocol },
    SetDomainMetadata { updates: DeltaDomainMetadataUpdates },
    RemoveDomainMetadata { domains: Vec<String> },
    SetPartitionColumns { partition_columns: Vec<String> },
    UpdateMetadataSnapshotVersion { last_commit_version: i64, last_commit_timestamp_ms: i64 },
}

/// Request to update a table with requirements and updates.
#[derive(Debug, PartialEq)]
pub struct DeltaUpdateTableRequest {
    pub requirements: Vec<DeltaTableRequirement>,
    pub updates: Vec<DeltaTableUpdate>,
}

/// Histogram of file counts and total bytes across size ranges.
#[derive(Debug, Clone, PartialEq, Eq)]
pub struct DeltaFileSizeHistogram {
    pub sorted_bin_boundaries: Vec<i64>,
    pub file_counts: Vec<i64>,
    pub total_bytes: Vec<i64>,
    pub commit_version: Option<i64>,
}

/// Commit report metrics.
#[derive(Debug, Clone, Default, PartialEq, Eq)]
pub struct DeltaCommitReport {
    pub num_files_added: Option<i64>,
    pub num_bytes_added: Option<i64>,
    pub num_files_removed: Option<i64>,
    pub num_bytes_removed: Option<i64>,
    pub num_rows_inserted: Option<i64>,
    pub num_rows_removed: Option<i64>,
    pub num_rows_updated: Option<i64>,
    pub file_size_histogram: Option<DeltaFileSizeHistogram>,
}

/// The metrics being reported.
#[derive(Debug, Clone, Default, PartialEq, Eq)]
pub struct DeltaReport {
    pub commit_report: Option<DeltaCommitReport>,
}

/// Request to report commit metrics for a table.
#[derive(Debug, Clone, PartialEq, Eq)]
pub struct DeltaReportMetricsRequest {
    /// Table UUID; must match the table identified by the path.
    pub table_id: String,
    pub report: Option<DeltaReport>,
}

/// Error type identifier returned in Delta API error responses.
#[derive(Debug, Clone, Copy, PartialEq, Eq)]
pub enum DeltaErrorType {
    BadRequestException,
    InvalidParameterValueException,
    UnsupportedTableFormatException,
    NotAuthorizedException,
    PermissionDeniedException,
    NotFoundException,
    NoSuchCatalogException,
    NoSuchSchemaException,
    NoSuchTableException,
    AlreadyExistsException,
    CommitVersionConflictException,
    UpdateRequirementConflictException,
    ResourceExhaustedException,
    TooManyRequestsException,
    CommitStateUnknownException,
    InternalServerErrorException,
    NotImplementedException,
}

/// The JSON error payload.
#[derive(Debug, Clone)]
pub struct DeltaErrorModel {
    pub message: String,
    pub error_type: DeltaErrorType,
    /// HTTP response code.
    pub code: u16,
}

/// The JSON wrapper for all Delta API error responses.
#[derive(Debug, Clone)]
pub struct DeltaErrorResponse {
    pub error: DeltaErrorModel,
}

} // verus!
