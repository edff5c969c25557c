//! Exporter configuration and the client settings derived from it.

use vstd::prelude::*;

verus! {

/// Configuration major version used when a configuration names none.
pub fn default_config_version() -> (version: u32)
    ensures
        version == 1,
{
    1
}

/// Number of concurrent uploads used when a configuration names none.
pub fn default_max_concurrent() -> (limit: usize)
    ensures
        limit == 4,
{
    4
}

/// Buffer size used when a configuration names none.
pub fn default_buffer_size() -> (size: usize)
    ensures
        size == 1000,
{
    1000
}

/// How the exporter authenticates, as written in its configuration.
#[derive(Debug, Clone, PartialEq, Eq)]
pub enum AuthConfig {
    /// A PKCS#12 bundle holding certificate and private key.
    Certificate {
        /// Path of the bundle.
        path: String,
        /// Password that decrypts the bundle.
        password: String,
    },
    /// The system-assigned managed identity.
    SystemManagedIdentity {
        /// Resource the token is requested for.
        msi_resource: String,
    },
    /// A user-assigned managed identity, chosen by client id.
    UserManagedIdentity {
        /// Client id of the identity.
        client_id: String,
        /// Resource the token is requested for.
        msi_resource: String,
    },
    /// A federated workload identity.
    WorkloadIdentity {
        /// Resource the token is requested for.
        msi_resource: String,
    },
}

/// Configuration of one exporter node.
#[derive(Debug, Clone, PartialEq, Eq)]
pub struct Config {
    /// URL of the ingestion endpoint.
    pub endpoint: String,
    /// Environment name, such as "production".
    pub environment: String,
    /// Account name.
    pub account: String,
    /// Namespace.
    pub namespace: String,
    /// Region.
    pub region: String,
    /// Configuration major version.
    pub config_major_version: u32,
    /// Tenant name.
    pub tenant: String,
    /// Role name.
    pub role_name: String,
    /// Role instance identifier.
    pub role_instance: String,
    /// Authentication.
    pub auth: AuthConfig,
    /// Maximum number of concurrent uploads.
    pub max_concurrent_uploads: usize,
    /// Number of buffered items that forces a flush.
    pub max_buffer_size: usize,
}

/// How the upload client authenticates.
#[derive(Debug, Clone, PartialEq, Eq)]
pub enum AuthMethod {
    /// A PKCS#12 bundle.
    Certificate {
        /// Path of the bundle.
        path: String,
        /// Password that decrypts the bundle.
        password: String,
    },
    /// The system-assigned managed identity.
    SystemManagedIdentity,
    /// A user-assigned managed identity.
    UserManagedIdentity {
        /// Client id of the identity.
        client_id: String,
    },
    /// A federated workload identity.
    WorkloadIdentity {
        /// Resource the token is requested for.
        resource: String,
    },
}

/// Everything an upload client is created from.
#[derive(Debug, Clone, PartialEq, Eq)]
pub struct ClientSettings {
    /// URL of the ingestion endpoint.
    pub endpoint: String,
    /// Environment name.
    pub environment: String,
    /// Account name.
    pub account: String,
    /// Namespace.
    pub namespace: String,
    /// Region.
    pub region: String,
    /// Configuration major version.
    pub config_major_version: u32,
    /// Authentication method.
    pub auth_method: AuthMethod,
    /// Tenant name.
    pub tenant: String,
    /// Role name.
    pub role_name: String,
    /// Role instance identifier.
    pub role_instance: String,
    /// Resource that managed and workload identities request tokens for.
    pub msi_resource: Option<String>,
}

impl AuthConfig {
    /// The authentication method that a client uses for this configuration.
    pub open spec fn spec_auth_method(self) -> AuthMethod {
        match self {
            AuthConfig::Certificate { path, password } => AuthMethod::Certificate { path, password },
            AuthConfig::SystemManagedIdentity { .. } => AuthMethod::SystemManagedIdentity,
            AuthConfig::UserManagedIdentity { client_id, .. } => AuthMethod::UserManagedIdentity {
                client_id,
            },
            AuthConfig::WorkloadIdentity { msi_resource } => AuthMethod::WorkloadIdentity {
                resource: msi_resource,
            },
        }
    }

    /// The token resource of this configuration: none for a certificate.
    pub open spec fn spec_msi_resource(self) -> Option<String> {
        match self {
            AuthConfig::Certificate { .. } => None,
            AuthConfig::SystemManagedIdentity { msi_resource } => Some(msi_resource),
            AuthConfig::UserManagedIdentity { msi_resource, .. } => Some(msi_resource),
            AuthConfig::WorkloadIdentity { msi_resource } => Some(msi_resource),
        }
    }

    /// Returns the authentication method that a client uses for this configuration.
    pub fn auth_method(&self) -> (method: AuthMethod)
        ensures
            method == self.spec_auth_method(),
    {
        match self {
            AuthConfig::Certificate { path, password } => AuthMethod::Certificate {
                path: path.clone(),
                password: password.clone(),
            },
            AuthConfig::SystemManagedIdentity { .. } => AuthMethod::SystemManagedIdentity,
            AuthConfig::UserManagedIdentity { client_id, .. } => AuthMethod::UserManagedIdentity {
                client_id: client_id.clone(),
            },
            AuthConfig::WorkloadIdentity { msi_resource } => AuthMethod::WorkloadIdentity {
                resource: msi_resource.clone(),
            },
        }
    }

    /// Returns the token resource of this configuration: none for a certificate.
    pub fn msi_resource(&self) -> (resource: Option<String>)
        ensures
            resource == self.spec_msi_resource(),
    {
        match self {
            AuthConfig::Certificate { .. } => None,
            AuthConfig::SystemManagedIdentity { msi_resource } => Some(msi_resource.clone()),
            AuthConfig::UserManagedIdentity { msi_resource, .. } => Some(msi_resource.clone()),
            AuthConfig::WorkloadIdentity { msi_resource } => Some(msi_resource.clone()),
        }
    }
}

impl Config {
    /// The settings of the client that serves this configuration.
    pub open spec fn spec_client_settings(self) -> ClientSettings {
        ClientSettings {
            endpoint: self.endpoint,
            environment: self.environment,
            account: self.account,
            namespace: self.namespace,
            region: self.region,
            config_major_version: self.config_major_version,
            auth_method: self.auth.spec_auth_method(),
            tenant: self.tenant,
            role_name: self.role_name,
            role_instance: self.role_instance,
            msi_resource: self.auth.spec_msi_resource(),
        }
    }

    /// Returns the settings of the client that serves this configuration.
    pub fn client_settings(&self) -> (settings: ClientSettings)
        ensures
            settings == self.spec_client_settings(),
    {
        ClientSettings {
            endpoint: self.endpoint.clone(),
            environment: self.environment.clone(),
            account: self.account.clone(),
            namespace: self.namespace.clone(),
            region: self.region.clone(),
            config_major_version: self.config_major_version,
            auth_method: self.auth.auth_method(),
            tenant: self.tenant.clone(),
            role_name: self.role_name.clone(),
            role_instance: self.role_instance.clone(),
            msi_resource: self.auth.msi_resource(),
        }
    }
}

} // verus!
