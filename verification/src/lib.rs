use vstd::prelude::*;

pub mod api;
pub mod credentials;
pub mod delta;
pub mod descriptors;
pub mod error;
pub mod ident;
pub mod identifiers;
pub mod labels;
pub mod laws;
pub mod messages;
pub mod name;
pub mod object;
pub mod record_laws;
pub mod records;
pub mod repr;
pub mod resource;
pub mod routes;
pub mod sharing;
pub mod text;

pub use error::Error;
pub use ident::{ResourceExt, ResourceIdent};
pub use labels::ObjectLabel;
pub use name::{resource_name, ResourceName, ResourceRef};
pub use object::{Object, TableSummary, Timestamp};
pub use records::{
    Agent, AgentSkill, Catalog, Column, Credential, ExternalLocation, Function, Provider, Recipient,
    Schema, Share, StagingTable, Table, TagPolicy, Volume,
};
pub use resource::Resource;
