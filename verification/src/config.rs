//! Service configuration: an API key and the account address it serves.

use vstd::prelude::*;

verus! {

/// The immutable configuration shared by every request.
#[derive(Clone)]
pub struct EtherscanConfig {
    pub api_key: String,
    pub address: String,
}

/// Which required setting was absent at startup.
#[derive(Clone, Copy, PartialEq, Eq, Structural, Debug)]
pub enum ConfigError {
    MissingApiKey,
    MissingAddress,
}

impl ConfigError {
    /// The fatal startup message for the missing setting.
    pub fn message(&self) -> (r: &'static str)
        ensures
            *self == ConfigError::MissingApiKey ==> r@ == "Missing ETHERSCAN_API_KEY in .env"@,
            *self == ConfigError::MissingAddress ==> r@ == "Missing ETH_ADDRESS in .env"@,
    {
        match self {
            ConfigError::MissingApiKey => "Missing ETHERSCAN_API_KEY in .env",
            ConfigError::MissingAddress => "Missing ETH_ADDRESS in .env",
        }
    }
}

/// Builds the configuration from the two environment values, or reports the
/// first one that is absent: the key is checked before the address.
pub fn build_config(api_key: Option<String>, address: Option<String>) -> (r: Result<
    EtherscanConfig,
    ConfigError,
>)
    ensures
        r is Ok <==> (api_key is Some && address is Some),
        r matches Ok(c) ==> (api_key matches Some(k) && c.api_key == k) && (address matches Some(a)
            && c.address == a),
        r matches Err(e) ==> (e == ConfigError::MissingApiKey <==> api_key is None),
{
    match (api_key, address) {
        (Some(k), Some(a)) => Ok(EtherscanConfig { api_key: k, address: a }),
        (None, _) => Err(ConfigError::MissingApiKey),
        (Some(_), None) => Err(ConfigError::MissingAddress),
    }
}

} // verus!
