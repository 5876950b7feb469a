use vstd::prelude::*;
use vstd::string::StringExecFns;
use crate::error::ConfigError;

verus! {

/// What establishing the TLS-verified channel needs: the endpoint, the
/// domain name the server's certificate must match, and the trust roots
/// used exclusively to verify that certificate chain.
#[derive(Debug, PartialEq)]
pub struct TransportConfig {
    pub endpoint: String,
    pub domain_name: String,
    pub root_certificates: Vec<u8>,
}

impl TransportConfig {
    /// Validates a channel configuration: no piece may be empty. The first
    /// empty piece, in this order, is the fault reported.
    pub fn new(endpoint: String, domain_name: String, root_certificates: Vec<u8>) -> (r: Result<
        TransportConfig,
        ConfigError,
    >)
        ensures
            endpoint@.len() == 0 ==> r == Result::<TransportConfig, ConfigError>::Err(
                ConfigError::EmptyEndpoint,
            ),
            endpoint@.len() > 0 && domain_name@.len() == 0 ==> r == Result::<
                TransportConfig,
                ConfigError,
            >::Err(ConfigError::EmptyDomainName),
            endpoint@.len() > 0 && domain_name@.len() > 0 && root_certificates@.len() == 0 ==> r
                == Result::<TransportConfig, ConfigError>::Err(ConfigError::EmptyTrustRoots),
            endpoint@.len() > 0 && domain_name@.len() > 0 && root_certificates@.len() > 0 ==> r is Ok
                && (r->Ok_0).endpoint@ == endpoint@ && (r->Ok_0).domain_name@ == domain_name@
                && (r->Ok_0).root_certificates@ == root_certificates@,
    {
        if endpoint.as_str().is_empty() {
            Err(ConfigError::EmptyEndpoint)
        } else if domain_name.as_str().is_empty() {
            Err(ConfigError::EmptyDomainName)
        } else if root_certificates.len() == 0 {
            Err(ConfigError::EmptyTrustRoots)
        } else {
            Ok(TransportConfig { endpoint, domain_name, root_certificates })
        }
    }
}

/// The value the authorization metadata entry carries for a bearer token.
pub fn auth_header_value(token: &str) -> (r: String)
    ensures
        r@ == "Bearer "@ + token@,
{
    let mut s = "Bearer ".to_owned();
    s.append(token);
    s
}

/// The single point where a credential enters an outbound call: the
/// request's metadata is handed back with exactly one authorization entry
/// appended, carrying the bearer token — nothing else is read, dropped or
/// changed.
pub fn attach_authorization(metadata: &mut Vec<(String, String)>, token: &str)
    ensures
        final(metadata)@.len() == old(metadata)@.len() + 1,
        forall|i: int| 0 <= i < old(metadata)@.len() ==> final(metadata)@[i] == old(metadata)@[i],
        (final(metadata)@[old(metadata)@.len() as int].0)@ == "authorization"@,
        (final(metadata)@[old(metadata)@.len() as int].1)@ == "Bearer "@ + token@,
{
    let value = auth_header_value(token);
    metadata.push(("authorization".to_owned(), value));
}

} // verus!
