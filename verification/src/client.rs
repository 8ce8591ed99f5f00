//! The HTTP client configuration shared by all modes: a fixed descriptive
//! user-agent, a fixed 15-second request timeout, and an optional upstream
//! proxy that must parse before any network activity happens.

use vstd::prelude::*;
use vstd::string::StringExecFns;
use crate::errors::ConfigError;

verus! {

#[verifier::external_type_specification]
#[verifier::external_body]
pub struct ExProxy(ureq::Proxy);

#[verifier::external_type_specification]
#[verifier::external_body]
pub struct ExUreqError(ureq::Error);

/// Whether a proxy string parses as a proxy address
/// (`<protocol>://<user>:<password>@<host>:port`, all parts but host
/// optional); a function of the string alone.
pub uninterp spec fn proxy_spec_ok(s: Seq<char>) -> bool;

/// Relies on ureq::Proxy::new: it parses the given string into a proxy
/// address, deterministically and from the string alone.
#[verifier::external_body]
fn parse_proxy(s: &str) -> (r: Result<ureq::Proxy, ureq::Error>)
    ensures
        r is Ok <==> proxy_spec_ok(s@),
{
    ureq::Proxy::new(s)
}

/// The fixed descriptive user-agent every request carries.
pub open spec fn user_agent_spec() -> Seq<char> {
    "Mozilla/5.0 (Windows NT 10.0; Win64; x64) AppleWebKit/537.36 (KHTML, like Gecko) Chrome/108.0.0.0 Safari/537.36"@
}

/// The fixed per-request timeout ceiling, in seconds.
pub const REQUEST_TIMEOUT_SECS: u64 = 15;

/// The immutable client configuration each mode passes into its fetches.
pub struct ClientConfig {
    pub user_agent: String,
    pub timeout_secs: u64,
    pub proxy: Option<ureq::Proxy>,
}

/// Builds the configuration, validating the optional proxy string eagerly:
/// an unparsable proxy is a configuration error raised before any network
/// activity.
pub fn build_client_config(proxy: Option<String>) -> (r: Result<ClientConfig, ConfigError>)
    ensures
        match r {
            Ok(cfg) => {
                &&& cfg.user_agent@ == user_agent_spec()
                &&& cfg.timeout_secs == REQUEST_TIMEOUT_SECS
                &&& cfg.proxy is Some <==> proxy is Some
                &&& proxy is Some ==> proxy_spec_ok(proxy->0@)
            },
            Err(e) => {
                &&& e == ConfigError::InvalidProxy
                &&& proxy is Some && !proxy_spec_ok(proxy->0@)
            },
        },
{
    let user_agent = String::from_str(
        "Mozilla/5.0 (Windows NT 10.0; Win64; x64) AppleWebKit/537.36 (KHTML, like Gecko) Chrome/108.0.0.0 Safari/537.36",
    );
    match proxy {
        None => Ok(ClientConfig { user_agent, timeout_secs: REQUEST_TIMEOUT_SECS, proxy: None }),
        Some(p) => match parse_proxy(p.as_str()) {
            Ok(px) => Ok(
                ClientConfig {
                    user_agent,
                    timeout_secs: REQUEST_TIMEOUT_SECS,
                    proxy: Some(px),
                },
            ),
            Err(_) => Err(ConfigError::InvalidProxy),
        },
    }
}

} // verus!
