//! Cloud credentials, with the constructors that the Python bindings expose.

use vstd::prelude::*;

verus! {

/// An Azure storage account key.
#[derive(Debug, Clone, PartialEq, Eq)]
pub struct AzureStorageKey {
    pub account_name: String,
    pub account_key: String,
}

impl AzureStorageKey {
    /// A storage key for an account.
    pub fn new(account_name: String, account_key: String) -> (r: AzureStorageKey)
        ensures
            r == (AzureStorageKey { account_name, account_key }),
    {
        AzureStorageKey { account_name, account_key }
    }
}

/// How an Azure service principal authenticates.
#[derive(Debug, Clone, PartialEq, Eq)]
pub enum ServicePrincipalCredential {
    ClientSecret(String),
    FederatedTokenFile(String),
}

/// An Azure service principal.
#[derive(Debug, Clone, PartialEq, Eq)]
pub struct AzureServicePrincipal {
    pub application_id: String,
    pub credential: Option<ServicePrincipalCredential>,
    pub directory_id: String,
}

impl AzureServicePrincipal {
    /// A service principal; a client secret, where given, is preferred over a federated
    /// token file.
    pub fn new(
        application_id: String,
        directory_id: String,
        client_secret: Option<String>,
        federated_token_file: Option<String>,
    ) -> (r: AzureServicePrincipal)
        ensures
            r.application_id == application_id,
            r.directory_id == directory_id,
            r.credential == match (client_secret, federated_token_file) {
                (Some(s), _) => Some(ServicePrincipalCredential::ClientSecret(s)),
                (None, Some(f)) => Some(ServicePrincipalCredential::FederatedTokenFile(f)),
                (None, None) => None,
            },
    {
        let credential = match (client_secret, federated_token_file) {
            (Some(client_secret), _) => Some(ServicePrincipalCredential::ClientSecret(client_secret)),
            (None, Some(file)) => Some(ServicePrincipalCredential::FederatedTokenFile(file)),
            (None, None) => None,
        };
        AzureServicePrincipal { application_id, credential, directory_id }
    }
}

/// How an Azure managed identity is identified.
#[derive(Debug, Clone, PartialEq, Eq)]
pub enum ManagedIdentityIdentifier {
    ApplicationId(String),
    ObjectId(String),
    MsiResourceId(String),
}

/// An Azure managed identity.
#[derive(Debug, Clone, PartialEq, Eq)]
pub struct AzureManagedIdentity {
    pub identifier: Option<ManagedIdentityIdentifier>,
}

impl AzureManagedIdentity {
    /// A managed identity, identified by the first of application id, object id and MSI
    /// resource id that is given.
    pub fn new(
        application_id: Option<String>,
        object_id: Option<String>,
        msi_resource_id: Option<String>,
    ) -> (r: AzureManagedIdentity)
        ensures
            r.identifier == match (application_id, object_id, msi_resource_id) {
                (Some(a), _, _) => Some(ManagedIdentityIdentifier::ApplicationId(a)),
                (None, Some(o), _) => Some(ManagedIdentityIdentifier::ObjectId(o)),
                (None, None, Some(m)) => Some(ManagedIdentityIdentifier::MsiResourceId(m)),
                (None, None, None) => None,
            },
    {
        let identifier = match (application_id, object_id, msi_resource_id) {
            (Some(application_id), _, _) => Some(
                ManagedIdentityIdentifier::ApplicationId(application_id),
            ),
            (_, Some(object_id), _) => Some(ManagedIdentityIdentifier::ObjectId(object_id)),
            (_, _, Some(msi_resource_id)) => Some(
                ManagedIdentityIdentifier::MsiResourceId(msi_resource_id),
            ),
            _ => None,
        };
        AzureManagedIdentity { identifier }
    }
}

/// The secret part of a credential: one of the forms a cloud provider takes. The AWS and
/// GCP forms are held as their JSON text.
#[derive(Debug, Clone, PartialEq, Eq)]
pub enum CredentialPayload {
    AzureServicePrincipal(AzureServicePrincipal),
    AzureManagedIdentity(AzureManagedIdentity),
    AzureStorageKey(AzureStorageKey),
    AwsIamRole(String),
    DatabricksGcpServiceAccount(String),
}

} // verus!
