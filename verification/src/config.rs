//! Configuration of a run: the target index, the connection parameters and
//! the buffering discipline, validated once at startup.

use vstd::prelude::*;

verus! {

/// Why a configuration was rejected at startup.
#[derive(Debug, Clone, Copy, PartialEq, Eq, Structural)]
pub enum ConfigError {
    /// `buffer_size` must be a positive integer.
    NonPositiveBufferSize,
    /// `cloud_id` is set but `user` and `password` are not both set.
    IncompleteCloudCredentials,
}

/// The validated run configuration. Built once from the configuration
/// document and shared read-only afterwards.
#[derive(Debug, Clone)]
pub struct EsConfig {
    pub url: String,
    pub buffer_size: usize,
    pub index_name: String,
    pub schema_file: String,
    pub id_field_name: String,
    pub cloud_id: Option<String>,
    pub user: Option<String>,
    pub password: Option<String>,
}

/// A basic-auth user/password pair.
#[derive(Debug, Clone)]
pub struct Credentials {
    pub user: String,
    pub password: String,
}

/// How the sink client is to be connected, decided from the configuration:
/// through a cloud id (which always carries credentials), or through a
/// single-node URL with optional basic auth.
#[derive(Debug, Clone)]
pub enum ConnectionPlan {
    Cloud { cloud_id: String, credentials: Credentials },
    SingleNode { url: String, credentials: Option<Credentials> },
}

impl EsConfig {
    /// A configuration is well formed when its buffer size is positive and,
    /// whenever a cloud id is given, both credentials are given with it.
    pub open spec fn wf(&self) -> bool {
        &&& self.buffer_size >= 1
        &&& self.cloud_id is Some ==> (self.user is Some && self.password is Some)
    }

    /// Validates the raw field values read from the configuration document.
    /// Fails exactly when the buffer size is zero, or when a cloud id comes
    /// without both credentials.
    pub fn new(
        url: String,
        buffer_size: usize,
        index_name: String,
        schema_file: String,
        id_field_name: String,
        cloud_id: Option<String>,
        user: Option<String>,
        password: Option<String>,
    ) -> (r: Result<EsConfig, ConfigError>)
        ensures
            match r {
                Ok(c) => {
                    &&& c.wf()
                    &&& c.url == url
                    &&& c.buffer_size == buffer_size
                    &&& c.index_name == index_name
                    &&& c.schema_file == schema_file
                    &&& c.id_field_name == id_field_name
                    &&& c.cloud_id == cloud_id
                    &&& c.user == user
                    &&& c.password == password
                    &&& buffer_size >= 1
                    &&& cloud_id is Some ==> (user is Some && password is Some)
                },
                Err(e) => {
                    &&& (e == ConfigError::NonPositiveBufferSize <==> buffer_size == 0)
                    &&& e == ConfigError::IncompleteCloudCredentials ==> (buffer_size >= 1
                        && cloud_id is Some && !(user is Some && password is Some))
                },
            },
            r is Err <==> (buffer_size == 0 || (cloud_id is Some && !(user is Some
                && password is Some))),
    {
        if buffer_size == 0 {
            return Err(ConfigError::NonPositiveBufferSize);
        }
        if cloud_id.is_some() && !(user.is_some() && password.is_some()) {
            return Err(ConfigError::IncompleteCloudCredentials);
        }
        Ok(EsConfig { url, buffer_size, index_name, schema_file, id_field_name, cloud_id, user, password })
    }
}

} // verus!
