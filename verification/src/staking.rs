//! The staking test-network specification: fixed test accounts wired into a
//! reproducible genesis configuration and packaged as a chain specification.

use vstd::prelude::*;

use crate::account::AccountId;
use crate::account::SessionKey;
use crate::account::account_bytes_of;
use crate::account::hex_pair_ok;
use crate::account::session_key_of;
use crate::account::valid_account_hex;
use crate::account::valid_seed;
use crate::chain_spec::ChainSpec;
use crate::chain_spec::ChainType;
use crate::chain_spec::Extensions;
use crate::chain_spec::json_object_text;
use crate::chain_spec::parse_properties;
use crate::errors::BuildError;
use crate::genesis::CollatorEntry;
use crate::genesis::DelegationEntry;
use crate::genesis::EndowedAccount;
use crate::genesis::GenesisConfig;
use crate::genesis::GenesisView;
use crate::genesis::sum_balances;
use crate::genesis::sum_stakes;

verus! {

/// One whole unit of the base currency, at eighteen decimals.
pub const UNIT: u128 = 1_000_000_000_000_000_000;

/// The stake bonded by each collator of the test network.
pub const COLLATOR_STAKE: u128 = 1_000 * UNIT;

/// The balance each endowed test signer is pre-funded with.
pub const ENDOWMENT: u128 = 500_000 * UNIT;

/// The total minted supply the runtime sees at genesis.
pub const TOTAL_ISSUANCE: u128 = 3_000_000 * UNIT;

/// The fixed short protocol (chain) identifier, independent of the
/// parachain identifier.
pub const CHAIN_ID: u64 = 1280;

/// The display name of the test network.
pub open spec fn display_name() -> Seq<char> {
    "Moonbase Development Testnet"@
}

/// The short identifier of the test network.
pub open spec fn short_id() -> Seq<char> {
    "staking"@
}

/// The relay-chain name carried in the extensions.
pub open spec fn relay_chain_name() -> Seq<char> {
    "alphanet_local"@
}

/// The protocol-properties blob: the display decimal precision of the base
/// currency.
pub open spec fn properties_text() -> Seq<char> {
    "{\"tokenDecimals\": 18}"@
}

/// The root authority's address literal.
pub open spec fn alith_hex() -> Seq<char> {
    "6Be02d1d3665660d22FF9624b7BE0551ee1Ac91b"@
}

/// The first council member's address literal.
pub open spec fn baltathar_hex() -> Seq<char> {
    "3Cd0A705a2DC65e5b1E1205896BaA2be8A07c6e0"@
}

/// The second council member's address literal.
pub open spec fn charleth_hex() -> Seq<char> {
    "798d4Ba9baf0064Ec19eB4F0a1a45785ae9D6DFc"@
}

/// The third council member's address literal.
pub open spec fn dorothy_hex() -> Seq<char> {
    "773539d4Ac0e786233D90A233654ccEE26a613D9"@
}

/// The second collator's address literal.
pub open spec fn faith_hex() -> Seq<char> {
    "C0F0f4ab324C46e55D02D0033343B4Be8A55532d"@
}

/// A pre-funded test signer's address literal.
pub open spec fn ethan_hex() -> Seq<char> {
    "Ff64d3F6efE2317EE2807d223a0Bdc4c0c49dfDB"@
}

/// A further pre-funded test signer's address literal.
pub open spec fn gerald_hex() -> Seq<char> {
    "f24FF3a9CF04c71Dbc94D0b566f7A27B94566cac"@
}

/// The seed name of the first collator's session key.
pub open spec fn alice_seed() -> Seq<char> {
    "Alice"@
}

/// The seed name of the second collator's session key.
pub open spec fn faith_seed() -> Seq<char> {
    "Faith"@
}

/// Whether every account literal of the staking fixture is a well-formed
/// address.  All are build-time constants, so a violation is a fixture
/// defect and aborts construction.
pub open spec fn staking_fixture_valid() -> bool {
    &&& valid_account_hex(alith_hex())
    &&& valid_account_hex(baltathar_hex())
    &&& valid_account_hex(charleth_hex())
    &&& valid_account_hex(dorothy_hex())
    &&& valid_account_hex(faith_hex())
    &&& valid_account_hex(ethan_hex())
    &&& valid_account_hex(gerald_hex())
}

/// Every account literal of the staking fixture is a well-formed address:
/// the fixture itself can never be the reason the builder fails.
pub proof fn lemma_staking_fixture_valid()
    ensures
        staking_fixture_valid(),
{
    reveal_strlit("6Be02d1d3665660d22FF9624b7BE0551ee1Ac91b");
    let a = "6Be02d1d3665660d22FF9624b7BE0551ee1Ac91b"@;
    assert forall|j: int| 0 <= j < 20 implies hex_pair_ok(a, j) by {
        assert(a.len() == 40);
    }
    reveal_strlit("3Cd0A705a2DC65e5b1E1205896BaA2be8A07c6e0");
    let b = "3Cd0A705a2DC65e5b1E1205896BaA2be8A07c6e0"@;
    assert forall|j: int| 0 <= j < 20 implies hex_pair_ok(b, j) by {
        assert(b.len() == 40);
    }
    reveal_strlit("798d4Ba9baf0064Ec19eB4F0a1a45785ae9D6DFc");
    let c = "798d4Ba9baf0064Ec19eB4F0a1a45785ae9D6DFc"@;
    assert forall|j: int| 0 <= j < 20 implies hex_pair_ok(c, j) by {
        assert(c.len() == 40);
    }
    reveal_strlit("773539d4Ac0e786233D90A233654ccEE26a613D9");
    let d = "773539d4Ac0e786233D90A233654ccEE26a613D9"@;
    assert forall|j: int| 0 <= j < 20 implies hex_pair_ok(d, j) by {
        assert(d.len() == 40);
    }
    reveal_strlit("C0F0f4ab324C46e55D02D0033343B4Be8A55532d");
    let f = "C0F0f4ab324C46e55D02D0033343B4Be8A55532d"@;
    assert forall|j: int| 0 <= j < 20 implies hex_pair_ok(f, j) by {
        assert(f.len() == 40);
    }
    reveal_strlit("Ff64d3F6efE2317EE2807d223a0Bdc4c0c49dfDB");
    let e = "Ff64d3F6efE2317EE2807d223a0Bdc4c0c49dfDB"@;
    assert forall|j: int| 0 <= j < 20 implies hex_pair_ok(e, j) by {
        assert(e.len() == 40);
    }
    reveal_strlit("f24FF3a9CF04c71Dbc94D0b566f7A27B94566cac");
    let g = "f24FF3a9CF04c71Dbc94D0b566f7A27B94566cac"@;
    assert forall|j: int| 0 <= j < 20 implies hex_pair_ok(g, j) by {
        assert(g.len() == 40);
    }
}

/// The exact genesis state of the staking test network for parachain
/// identifier `para_id`: one root authority, three council members, two
/// technical-committee members (one of whom also sits on the council), two
/// collators bonded at [`COLLATOR_STAKE`], no delegations, and four test
/// signers each endowed with [`ENDOWMENT`].
pub open spec fn staking_genesis_view(para_id: u32) -> GenesisView {
    GenesisView {
        root: account_bytes_of(alith_hex()),
        council: seq![
            account_bytes_of(baltathar_hex()),
            account_bytes_of(charleth_hex()),
            account_bytes_of(dorothy_hex()),
        ],
        technical_committee: seq![
            account_bytes_of(alith_hex()),
            account_bytes_of(baltathar_hex()),
        ],
        collators: seq![
            (account_bytes_of(alith_hex()), session_key_of(alice_seed()), COLLATOR_STAKE),
            (account_bytes_of(faith_hex()), session_key_of(faith_seed()), COLLATOR_STAKE),
        ],
        delegations: seq![],
        endowed: seq![
            (account_bytes_of(alith_hex()), ENDOWMENT),
            (account_bytes_of(faith_hex()), ENDOWMENT),
            (account_bytes_of(ethan_hex()), ENDOWMENT),
            (account_bytes_of(gerald_hex()), ENDOWMENT),
        ],
        total_issuance: TOTAL_ISSUANCE,
        para_id,
        chain_id: CHAIN_ID,
    }
}

/// Build the chain specification of the staking test network for parachain
/// identifier `para_id`.
///
/// The fixture address literals are proved well-formed, so construction
/// succeeds exactly when the properties blob is a valid JSON object; the
/// parachain identifier passes through to the extensions unchanged while
/// the chain identifier stays [`CHAIN_ID`].
pub fn staking_spec(para_id: u32) -> (r: Result<ChainSpec, BuildError>)
    ensures
        r is Ok <==> json_object_text(properties_text()),
        r matches Err(e) ==> e == BuildError::MalformedProtocolProperties,
        r matches Ok(cs) ==> {
            &&& cs.genesis@ == staking_genesis_view(para_id)
            &&& cs.genesis.wf()
            &&& cs.name@ == display_name()
            &&& cs.id@ == short_id()
            &&& cs.chain_type == ChainType::Local
            &&& cs.boot_nodes@.len() == 0
            &&& cs.telemetry_endpoints is None
            &&& cs.properties is Some
            &&& cs.extensions@ == (relay_chain_name(), para_id)
        },
{
    proof {
        lemma_staking_fixture_valid();
    }
    let alith = match AccountId::from_hex("6Be02d1d3665660d22FF9624b7BE0551ee1Ac91b") {
        Ok(a) => a,
        Err(e) => return Err(e),
    };
    let baltathar = match AccountId::from_hex("3Cd0A705a2DC65e5b1E1205896BaA2be8A07c6e0") {
        Ok(a) => a,
        Err(e) => return Err(e),
    };
    let charleth = match AccountId::from_hex("798d4Ba9baf0064Ec19eB4F0a1a45785ae9D6DFc") {
        Ok(a) => a,
        Err(e) => return Err(e),
    };
    let dorothy = match AccountId::from_hex("773539d4Ac0e786233D90A233654ccEE26a613D9") {
        Ok(a) => a,
        Err(e) => return Err(e),
    };
    let faith = match AccountId::from_hex("C0F0f4ab324C46e55D02D0033343B4Be8A55532d") {
        Ok(a) => a,
        Err(e) => return Err(e),
    };
    let ethan = match AccountId::from_hex("Ff64d3F6efE2317EE2807d223a0Bdc4c0c49dfDB") {
        Ok(a) => a,
        Err(e) => return Err(e),
    };
    let gerald = match AccountId::from_hex("f24FF3a9CF04c71Dbc94D0b566f7A27B94566cac") {
        Ok(a) => a,
        Err(e) => return Err(e),
    };
    let alice_key = match SessionKey::derive("Alice") {
        Some(k) => k,
        None => {
            proof {
                reveal_strlit("Alice");
                assert(valid_seed("Alice"@));
            }
            vstd::pervasive::unreached()
        },
    };
    let faith_key = match SessionKey::derive("Faith") {
        Some(k) => k,
        None => {
            proof {
                reveal_strlit("Faith");
                assert(valid_seed("Faith"@));
            }
            vstd::pervasive::unreached()
        },
    };
    let properties = match parse_properties("{\"tokenDecimals\": 18}") {
        Ok(m) => m,
        Err(e) => return Err(e),
    };

    let mut council: Vec<AccountId> = Vec::new();
    council.push(baltathar.clone());
    council.push(charleth);
    council.push(dorothy);

    let mut technical_committee: Vec<AccountId> = Vec::new();
    technical_committee.push(alith.clone());
    technical_committee.push(baltathar);

    let mut collators: Vec<CollatorEntry> = Vec::new();
    collators.push(CollatorEntry::new(alith.clone(), alice_key, COLLATOR_STAKE));
    collators.push(CollatorEntry::new(faith.clone(), faith_key, COLLATOR_STAKE));

    let delegations: Vec<DelegationEntry> = Vec::new();

    let mut endowed: Vec<EndowedAccount> = Vec::new();
    endowed.push(EndowedAccount::new(alith.clone(), ENDOWMENT));
    endowed.push(EndowedAccount::new(faith, ENDOWMENT));
    endowed.push(EndowedAccount::new(ethan, ENDOWMENT));
    endowed.push(EndowedAccount::new(gerald, ENDOWMENT));

    proof {
        let cv = collators@.map_values(|c: CollatorEntry| c@);
        let ev = endowed@.map_values(|e: EndowedAccount| e@);
        lemma_sum_stakes_two(cv);
        lemma_sum_balances_four(ev);
    }

    let genesis = GenesisConfig::new(
        alith,
        council,
        technical_committee,
        collators,
        delegations,
        endowed,
        TOTAL_ISSUANCE,
        para_id,
        CHAIN_ID,
    );
    proof {
        assert(genesis@.council =~= staking_genesis_view(para_id).council);
        assert(genesis@.technical_committee =~= staking_genesis_view(para_id).technical_committee);
        assert(genesis@.collators =~= staking_genesis_view(para_id).collators);
        assert(genesis@.delegations =~= staking_genesis_view(para_id).delegations);
        assert(genesis@.endowed =~= staking_genesis_view(para_id).endowed);
    }

    let extensions = Extensions { relay_chain: String::from_str("alphanet_local"), para_id };
    let boot_nodes: Vec<String> = Vec::new();
    let cs = ChainSpec::from_genesis(
        "Moonbase Development Testnet",
        "staking",
        ChainType::Local,
        genesis,
        boot_nodes,
        None,
        Some(properties),
        extensions,
    );
    Ok(cs)
}

/// Non-exceedance of the staking fixture: the endowed balances together
/// with the bonded stakes never exceed the total-issuance scalar, whatever
/// the parachain identifier.
pub proof fn lemma_staking_non_exceedance(para_id: u32)
    ensures
        sum_balances(staking_genesis_view(para_id).endowed) + sum_stakes(
            staking_genesis_view(para_id).collators,
        ) <= staking_genesis_view(para_id).total_issuance,
{
    let v = staking_genesis_view(para_id);
    lemma_sum_stakes_two(v.collators);
    lemma_sum_balances_four(v.endowed);
}

/// The stake sum of a two-collator list, written out.
proof fn lemma_sum_stakes_two(cs: Seq<(Seq<u8>, Seq<u8>, u128)>)
    requires
        cs.len() == 2,
    ensures
        sum_stakes(cs) == cs[0].2 + cs[1].2,
{
    let t1 = cs.drop_first();
    let t2 = t1.drop_first();
    assert(t2.len() == 0);
    assert(sum_stakes(t2) == 0);
    assert(sum_stakes(t1) == t1[0].2);
}

/// The balance sum of a four-endowment list, written out.
proof fn lemma_sum_balances_four(es: Seq<(Seq<u8>, u128)>)
    requires
        es.len() == 4,
    ensures
        sum_balances(es) == es[0].1 + es[1].1 + es[2].1 + es[3].1,
{
    let t1 = es.drop_first();
    let t2 = t1.drop_first();
    let t3 = t2.drop_first();
    let t4 = t3.drop_first();
    assert(t4.len() == 0);
    assert(sum_balances(t4) == 0);
    assert(sum_balances(t3) == t3[0].1);
    assert(sum_balances(t2) == t2[0].1 + t2[1].1);
    assert(sum_balances(t1) == t1[0].1 + t1[1].1 + t1[2].1);
}

} // verus!
