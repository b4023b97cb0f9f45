//! The chain-specification value: network metadata wrapped around a genesis
//! configuration.
//!
//! A [`ChainSpec`] owns its [`GenesisConfig`] by value; materializing the
//! genesis state through [`ChainSpec::genesis_config`] is side-effect-free
//! and idempotent.  The protocol-properties blob is parsed once and then
//! carried verbatim, opaque to this crate.

use vstd::prelude::*;

use crate::errors::BuildError;
use crate::genesis::GenesisConfig;

verus! {

/// The chain-type tag a specification carries.
#[derive(Clone, Copy, Debug, PartialEq, Eq, Structural)]
pub enum ChainType {
    Development,
    Local,
    Live,
}

/// Metadata attached to, but not part of, the on-chain genesis state: the
/// relay-chain name and the parachain identifier.
#[derive(Debug, PartialEq, Eq)]
pub struct Extensions {
    pub relay_chain: String,
    pub para_id: u32,
}

impl View for Extensions {
    type V = (Seq<char>, u32);

    open spec fn view(&self) -> (Seq<char>, u32) {
        (self.relay_chain@, self.para_id)
    }
}

impl Clone for Extensions {
    /// Cloning extensions keeps the relay-chain name and the identifier.
    fn clone(&self) -> (r: Self)
        ensures
            r@ == self@,
    {
        Extensions { relay_chain: self.relay_chain.clone(), para_id: self.para_id }
    }
}

#[verifier::external_type_specification]
#[verifier::external_body]
#[verifier::reject_recursive_types(K)]
#[verifier::reject_recursive_types(V)]
pub struct ExJsonMap<K, V>(serde_json::Map<K, V>);

#[verifier::external_type_specification]
#[verifier::external_body]
pub struct ExJsonValue(serde_json::Value);

#[verifier::external_type_specification]
#[verifier::external_body]
pub struct ExJsonError(serde_json::Error);

/// Whether a string parses as a JSON object: a function of its characters
/// alone, decided by the external JSON parser.
pub uninterp spec fn json_object_text(s: Seq<char>) -> bool;

/// Relies on `serde_json::from_str::<serde_json::Map<String, serde_json::Value>>`:
/// whether a string parses as a JSON object, and what it parses to, depend on
/// the characters alone.
#[verifier::external_body]
fn parse_json_object(s: &str) -> (r: Result<
    serde_json::Map<String, serde_json::Value>,
    serde_json::Error,
>)
    ensures
        r is Ok <==> json_object_text(s@),
{
    serde_json::from_str(s)
}

/// Parse a protocol-properties blob.
///
/// Succeeds exactly on strings that are valid JSON objects; every other
/// input is rejected as [`BuildError::MalformedProtocolProperties`].
pub fn parse_properties(s: &str) -> (r: Result<
    serde_json::Map<String, serde_json::Value>,
    BuildError,
>)
    ensures
        r is Ok <==> json_object_text(s@),
        r matches Err(e) ==> e == BuildError::MalformedProtocolProperties,
{
    match parse_json_object(s) {
        Ok(m) => Ok(m),
        Err(_) => Err(BuildError::MalformedProtocolProperties),
    }
}

/// The packaged description of the test network: display metadata, boot
/// parameters, the protocol-properties blob, the genesis configuration it
/// exclusively owns, and the relay-chain extensions.
pub struct ChainSpec {
    pub name: String,
    pub id: String,
    pub chain_type: ChainType,
    pub boot_nodes: Vec<String>,
    pub telemetry_endpoints: Option<Vec<String>>,
    pub properties: Option<serde_json::Map<String, serde_json::Value>>,
    pub genesis: GenesisConfig,
    pub extensions: Extensions,
}

impl ChainSpec {
    /// Wrap a genesis configuration together with network metadata into a
    /// chain-specification value.  Every field is carried verbatim.
    pub fn from_genesis(
        name: &str,
        id: &str,
        chain_type: ChainType,
        genesis: GenesisConfig,
        boot_nodes: Vec<String>,
        telemetry_endpoints: Option<Vec<String>>,
        properties: Option<serde_json::Map<String, serde_json::Value>>,
        extensions: Extensions,
    ) -> (r: ChainSpec)
        ensures
            r.name@ == name@,
            r.id@ == id@,
            r.chain_type == chain_type,
            r.genesis == genesis,
            r.boot_nodes == boot_nodes,
            r.telemetry_endpoints == telemetry_endpoints,
            r.properties == properties,
            r.extensions@ == extensions@,
    {
        ChainSpec {
            name: name.to_owned(),
            id: id.to_owned(),
            chain_type,
            boot_nodes,
            telemetry_endpoints,
            properties,
            genesis,
            extensions,
        }
    }

    /// Produce the genesis state this specification owns.
    ///
    /// The configuration is returned by value from the captured state, so
    /// repeated invocation is side-effect-free and always yields the same
    /// genesis output.
    pub fn genesis_config(&self) -> (r: GenesisConfig)
        ensures
            r@ == self.genesis@,
    {
        self.genesis.clone()
    }
}

/// Materializing the genesis state twice from one specification yields
/// identical output: any two values that both carry the genesis state of the
/// same specification are equal.
pub proof fn lemma_genesis_producer_idempotent(g1: GenesisConfig, g2: GenesisConfig, cs: &ChainSpec)
    requires
        g1@ == cs.genesis@,
        g2@ == cs.genesis@,
    ensures
        g1@ == g2@,
{
}

} // verus!
