//! The process configuration: server address, upstream platform endpoints
//! and credentials, enrichment provider endpoints, the credential cache's
//! lifetime, and logging. Values are read from the environment outside the
//! library; only the shape and the environment-to-suffix rule live here.

use vstd::prelude::*;

verus! {

pub struct Config {
    pub host: String,
    pub port: u16,
    pub environment: String,
    pub v8_auth_url: String,
    pub v8_base_url: String,
    pub v8_client_id: String,
    pub v8_username: String,
    pub v8_password: String,
    pub v8_audience: String,
    pub v8_config_id: String,
    pub v8_provider: String,
    pub highconsult_api_url: String,
    pub viacep_api_url: String,
    pub token_cache_ttl_seconds: u64,
    pub rust_log: String,
    pub api_key: Option<String>,
}

/// The variable-name suffix an environment selects: production reads the
/// `_PROD` variables, everything else the `_STAGING` ones.
pub fn env_suffix(environment: &str) -> (r: String)
    ensures
        environment@ == "production"@ ==> r@ == "_PROD"@,
        environment@ != "production"@ ==> r@ == "_STAGING"@,
{
    let e = crate::text_util::str_chars(environment);
    if crate::text_util::chars_eq_str(&e, "production") {
        let v = crate::text_util::str_chars("_PROD");
        crate::text_util::chars_to_string(&v)
    } else {
        let v = crate::text_util::str_chars("_STAGING");
        crate::text_util::chars_to_string(&v)
    }
}

} // verus!
