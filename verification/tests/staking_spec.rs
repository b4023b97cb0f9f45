//! The staking test-network specification, end to end.

use staking_chain_spec::account::AccountId;
use staking_chain_spec::account::SessionKey;
use staking_chain_spec::chain_spec::ChainType;
use staking_chain_spec::chain_spec::parse_properties;
use staking_chain_spec::errors::BuildError;
use staking_chain_spec::staking::staking_spec;
use staking_chain_spec::staking::CHAIN_ID;
use staking_chain_spec::staking::COLLATOR_STAKE;
use staking_chain_spec::staking::ENDOWMENT;
use staking_chain_spec::staking::TOTAL_ISSUANCE;
use staking_chain_spec::staking::UNIT;

#[test]
fn scenario_para_2000() {
    let cs = staking_spec(2000).unwrap();

    assert_eq!(cs.extensions.relay_chain, "alphanet_local");
    assert_eq!(cs.extensions.para_id, 2000);

    assert_eq!(cs.name, "Moonbase Development Testnet");
    assert_eq!(cs.id, "staking");
    assert_eq!(cs.chain_type, ChainType::Local);
    assert!(cs.boot_nodes.is_empty());
    assert!(cs.telemetry_endpoints.is_none());
    assert!(cs.properties.is_some());

    let g = &cs.genesis;
    let alith = AccountId::from_hex("6Be02d1d3665660d22FF9624b7BE0551ee1Ac91b").unwrap();
    let baltathar = AccountId::from_hex("3Cd0A705a2DC65e5b1E1205896BaA2be8A07c6e0").unwrap();
    let faith = AccountId::from_hex("C0F0f4ab324C46e55D02D0033343B4Be8A55532d").unwrap();

    assert_eq!(g.root, alith);

    assert_eq!(g.collators.len(), 2);
    assert_eq!(g.collators[0].account, alith);
    assert_eq!(g.collators[1].account, faith);
    let alice_key = SessionKey::derive("Alice").unwrap();
    let faith_key = SessionKey::derive("Faith").unwrap();
    assert_eq!(g.collators[0].key, alice_key);
    assert_eq!(g.collators[1].key, faith_key);
    assert_eq!(g.collators[0].stake, 1_000 * UNIT);
    assert_eq!(g.collators[1].stake, 1_000 * UNIT);

    assert_eq!(g.council.len(), 3);
    assert_eq!(g.council[0], baltathar);

    assert_eq!(g.technical_committee.len(), 2);
    assert_eq!(g.technical_committee[0], alith);
    assert_eq!(g.technical_committee[1], baltathar);

    let overlap = g
        .technical_committee
        .iter()
        .filter(|m| g.council.contains(*m))
        .count();
    assert_eq!(overlap, 1);

    assert!(g.delegations.is_empty());
    assert_eq!(g.endowed.len(), 4);
    for e in &g.endowed {
        assert_eq!(e.balance, ENDOWMENT);
    }
    assert_eq!(g.total_issuance, 3_000_000 * UNIT);
    assert_eq!(g.para_id, 2000);
    assert_eq!(g.chain_id, 1280);
}

#[test]
fn para_id_passes_through_unchanged() {
    for p in [0u32, 1, 97, 2000, u32::MAX] {
        let cs = staking_spec(p).unwrap();
        assert_eq!(cs.extensions.para_id, p);
        assert_eq!(cs.genesis.para_id, p);
        assert_eq!(cs.genesis.chain_id, CHAIN_ID);
    }
}

#[test]
fn endowments_and_stakes_do_not_exceed_total_issuance() {
    let cs = staking_spec(2000).unwrap();
    let g = &cs.genesis;
    let endowed: u128 = g.endowed.iter().map(|e| e.balance).sum();
    let staked: u128 = g.collators.iter().map(|c| c.stake).sum();
    assert!(endowed + staked <= g.total_issuance);
    assert_eq!(g.total_issuance, TOTAL_ISSUANCE);
    assert_eq!(staked, 2 * COLLATOR_STAKE);
}

#[test]
fn genesis_producer_is_idempotent() {
    let cs = staking_spec(2000).unwrap();
    let first = cs.genesis_config();
    let second = cs.genesis_config();
    assert_eq!(first, second);
}

#[test]
fn properties_blob_parses_and_carries_decimals() {
    let cs = staking_spec(2000).unwrap();
    let props = cs.properties.unwrap();
    assert_eq!(props.len(), 1);
    assert_eq!(props.get("tokenDecimals"), Some(&serde_json::Value::from(18u64)));
}

#[test]
fn malformed_properties_blob_is_rejected() {
    assert!(matches!(
        parse_properties("{\"tokenDecimals\": "),
        Err(BuildError::MalformedProtocolProperties)
    ));
    assert!(matches!(
        parse_properties("not json at all"),
        Err(BuildError::MalformedProtocolProperties)
    ));
    assert!(matches!(parse_properties("[1, 2, 3]"), Err(BuildError::MalformedProtocolProperties)));
    assert!(parse_properties("{\"tokenDecimals\": 18}").is_ok());
}
