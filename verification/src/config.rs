//! The configuration of a distributor client.

use crate::text::opt_chars;
use std::collections::HashMap;
use std::time::Duration;
use vstd::prelude::*;

verus! {

/// The tenant context of `greentic_types`, carried as it is.
#[verifier::external_type_specification]
#[verifier::external_body]
pub struct ExTenantCtx(greentic_types::TenantCtx);

/// `Clone::clone` of `greentic_types::TenantCtx`, which the type derives.
/// Trusted: the copy is the context.
pub assume_specification[ <greentic_types::TenantCtx as Clone>::clone ](
    tenant: &greentic_types::TenantCtx,
) -> (copy: greentic_types::TenantCtx)
    ensures
        copy == *tenant,
;

/// The name of a distributor environment.
#[derive(Clone, Debug, PartialEq, Eq)]
pub struct DistributorEnvironmentId(pub String);

impl DistributorEnvironmentId {
    /// The name as a string slice.
    pub fn as_str(&self) -> (name: &str)
        ensures
            name@ == self.0@,
    {
        self.0.as_str()
    }
}

/// What a distributor client is set up with. The base URL, the token and
/// the headers serve a client that speaks HTTP.
#[derive(Clone, Debug, PartialEq, Eq)]
pub struct DistributorClientConfig {
    pub base_url: Option<String>,
    pub environment_id: DistributorEnvironmentId,
    pub tenant: greentic_types::TenantCtx,
    pub auth_token: Option<String>,
    pub extra_headers: Option<HashMap<String, String>>,
    pub request_timeout: Option<Duration>,
}

impl DistributorClientConfig {
    /// The configuration with `base_url` as its base URL and everything
    /// else as it was.
    pub fn with_base_url(self, base_url: String) -> (out: DistributorClientConfig)
        ensures
            opt_chars(out.base_url) == Some(base_url@),
            out.environment_id == self.environment_id,
            out.tenant == self.tenant,
            out.auth_token == self.auth_token,
            out.extra_headers == self.extra_headers,
            out.request_timeout == self.request_timeout,
    {
        let mut out = self;
        out.base_url = Some(base_url);
        out
    }
}

} // verus!
