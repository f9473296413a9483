//! Client creation parameters for the object store.
//!
//! `region` and `endpoint` are optional: a missing region falls back to
//! `us-east-1`, and a missing endpoint leaves the store's standard one
//! for the selected region. `force_path_style` is for services that
//! require path-style URLs.

use vstd::prelude::*;

verus! {

/// Client creation parameters.
#[derive(Debug, Clone)]
pub struct S3ClientOptions {
    pub access_key: String,
    pub secret_key: String,
    pub region: Option<String>,
    pub endpoint: Option<String>,
    pub force_path_style: bool,
}

impl Default for S3ClientOptions {
    /// Empty credentials, no region, no endpoint, virtual-hosted
    /// addressing.
    fn default() -> (r: Self)
        ensures
            r.access_key@ == Seq::<char>::empty(),
            r.secret_key@ == Seq::<char>::empty(),
            r.region is None,
            r.endpoint is None,
            !r.force_path_style,
    {
        S3ClientOptions {
            access_key: String::new(),
            secret_key: String::new(),
            region: None,
            endpoint: None,
            force_path_style: false,
        }
    }
}

/// The region requests are addressed to: the configured one, or
/// `us-east-1` when none is configured.
pub open spec fn spec_effective_region(region: Option<String>) -> Seq<char> {
    match region {
        Some(r) => r@,
        None => "us-east-1"@,
    }
}

impl S3ClientOptions {
    /// Sets the access key.
    pub fn with_access_key(self, access_key: String) -> (r: Self)
        ensures
            r == (S3ClientOptions { access_key, ..self }),
    {
        S3ClientOptions { access_key, ..self }
    }

    /// Sets the secret key.
    pub fn with_secret_key(self, secret_key: String) -> (r: Self)
        ensures
            r == (S3ClientOptions { secret_key, ..self }),
    {
        S3ClientOptions { secret_key, ..self }
    }

    /// Sets the region.
    pub fn with_region(self, region: String) -> (r: Self)
        ensures
            r == (S3ClientOptions { region: Some(region), ..self }),
    {
        S3ClientOptions { region: Some(region), ..self }
    }

    /// Sets a custom endpoint URL, for S3-compatible services.
    pub fn with_endpoint(self, endpoint: String) -> (r: Self)
        ensures
            r == (S3ClientOptions { endpoint: Some(endpoint), ..self }),
    {
        S3ClientOptions { endpoint: Some(endpoint), ..self }
    }

    /// Enables or disables path-style addressing, for services that do
    /// not support virtual-hosted-style requests.
    pub fn with_force_path_style(self, force_path_style: bool) -> (r: Self)
        ensures
            r == (S3ClientOptions { force_path_style, ..self }),
    {
        S3ClientOptions { force_path_style, ..self }
    }

    /// The region requests are addressed to: the configured one, or
    /// `us-east-1` when none is configured.
    pub fn effective_region(&self) -> (r: String)
        ensures
            r@ == spec_effective_region(self.region),
    {
        match &self.region {
            Some(r) => r.clone(),
            None => String::from_str("us-east-1"),
        }
    }
}

} // verus!
