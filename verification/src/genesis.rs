//! The structured genesis state of the test network.
//!
//! A [`GenesisConfig`] aggregates one root authority, the council and
//! technical-committee member lists, the collator set with bonded stakes,
//! the delegation list, the endowed balances, the total-issuance scalar and
//! the parachain and chain identifiers.  Its invariant is non-exceedance:
//! the endowed balances and bonded stakes together never exceed the
//! total-issuance scalar.

use vstd::prelude::*;

use crate::account::AccountId;
use crate::account::SessionKey;

verus! {

/// A collator: an account bonded with a stake, block-producing under a
/// session key.
#[derive(Debug, PartialEq, Eq)]
pub struct CollatorEntry {
    pub account: AccountId,
    pub key: SessionKey,
    pub stake: u128,
}

impl View for CollatorEntry {
    type V = (Seq<u8>, Seq<u8>, u128);

    open spec fn view(&self) -> (Seq<u8>, Seq<u8>, u128) {
        (self.account@, self.key@, self.stake)
    }
}

impl CollatorEntry {
    /// Address and key are well-formed and the bonded stake is positive.
    pub open spec fn wf(&self) -> bool {
        self.account.wf() && self.key.wf() && self.stake > 0
    }

    /// Pair an account with its session key and a positive bonded stake.
    pub fn new(account: AccountId, key: SessionKey, stake: u128) -> (r: CollatorEntry)
        requires
            account.wf(),
            key.wf(),
            stake > 0,
        ensures
            r.wf(),
            r@ == (account@, key@, stake),
    {
        CollatorEntry { account, key, stake }
    }
}

impl Clone for CollatorEntry {
    /// Cloning a collator entry keeps account, key and stake.
    fn clone(&self) -> (r: Self)
        ensures
            r@ == self@,
    {
        CollatorEntry {
            account: self.account.clone(),
            key: self.key.clone(),
            stake: self.stake,
        }
    }
}

/// A delegation of stake from a delegator account toward a collator.
#[derive(Debug, PartialEq, Eq)]
pub struct DelegationEntry {
    pub delegator: AccountId,
    pub collator: AccountId,
    pub amount: u128,
}

impl View for DelegationEntry {
    type V = (Seq<u8>, Seq<u8>, u128);

    open spec fn view(&self) -> (Seq<u8>, Seq<u8>, u128) {
        (self.delegator@, self.collator@, self.amount)
    }
}

impl DelegationEntry {
    /// Both addresses are well-formed.
    pub open spec fn wf(&self) -> bool {
        self.delegator.wf() && self.collator.wf()
    }
}

impl Clone for DelegationEntry {
    /// Cloning a delegation keeps delegator, collator and amount.
    fn clone(&self) -> (r: Self)
        ensures
            r@ == self@,
    {
        DelegationEntry {
            delegator: self.delegator.clone(),
            collator: self.collator.clone(),
            amount: self.amount,
        }
    }
}

/// An account pre-funded at genesis with a positive balance.
#[derive(Debug, PartialEq, Eq)]
pub struct EndowedAccount {
    pub account: AccountId,
    pub balance: u128,
}

impl View for EndowedAccount {
    type V = (Seq<u8>, u128);

    open spec fn view(&self) -> (Seq<u8>, u128) {
        (self.account@, self.balance)
    }
}

impl EndowedAccount {
    /// The address is well-formed and the balance is positive.
    pub open spec fn wf(&self) -> bool {
        self.account.wf() && self.balance > 0
    }

    /// Endow an account with a positive balance.
    pub fn new(account: AccountId, balance: u128) -> (r: EndowedAccount)
        requires
            account.wf(),
            balance > 0,
        ensures
            r.wf(),
            r@ == (account@, balance),
    {
        EndowedAccount { account, balance }
    }
}

impl Clone for EndowedAccount {
    /// Cloning an endowment keeps account and balance.
    fn clone(&self) -> (r: Self)
        ensures
            r@ == self@,
    {
        EndowedAccount { account: self.account.clone(), balance: self.balance }
    }
}

/// The sum of the bonded stakes of a collator list.
pub open spec fn sum_stakes(cs: Seq<(Seq<u8>, Seq<u8>, u128)>) -> int
    decreases cs.len(),
{
    if cs.len() == 0 {
        0
    } else {
        cs[0].2 + sum_stakes(cs.drop_first())
    }
}

/// The sum of the balances of an endowment list.
pub open spec fn sum_balances(es: Seq<(Seq<u8>, u128)>) -> int
    decreases es.len(),
{
    if es.len() == 0 {
        0
    } else {
        es[0].1 + sum_balances(es.drop_first())
    }
}

/// The mathematical value of a [`GenesisConfig`]: every account as its
/// bytes, every list in its insertion order.
pub ghost struct GenesisView {
    pub root: Seq<u8>,
    pub council: Seq<Seq<u8>>,
    pub technical_committee: Seq<Seq<u8>>,
    pub collators: Seq<(Seq<u8>, Seq<u8>, u128)>,
    pub delegations: Seq<(Seq<u8>, Seq<u8>, u128)>,
    pub endowed: Seq<(Seq<u8>, u128)>,
    pub total_issuance: u128,
    pub para_id: u32,
    pub chain_id: u64,
}

/// The fully-populated genesis state of the test network.
#[derive(Debug, PartialEq, Eq)]
pub struct GenesisConfig {
    pub root: AccountId,
    pub council: Vec<AccountId>,
    pub technical_committee: Vec<AccountId>,
    pub collators: Vec<CollatorEntry>,
    pub delegations: Vec<DelegationEntry>,
    pub endowed: Vec<EndowedAccount>,
    pub total_issuance: u128,
    pub para_id: u32,
    pub chain_id: u64,
}

impl View for GenesisConfig {
    type V = GenesisView;

    open spec fn view(&self) -> GenesisView {
        GenesisView {
            root: self.root@,
            council: self.council@.map_values(|a: AccountId| a@),
            technical_committee: self.technical_committee@.map_values(|a: AccountId| a@),
            collators: self.collators@.map_values(|c: CollatorEntry| c@),
            delegations: self.delegations@.map_values(|d: DelegationEntry| d@),
            endowed: self.endowed@.map_values(|e: EndowedAccount| e@),
            total_issuance: self.total_issuance,
            para_id: self.para_id,
            chain_id: self.chain_id,
        }
    }
}

impl GenesisConfig {
    /// Every member is well-formed and the endowed balances together with
    /// the bonded stakes do not exceed the total-issuance scalar.
    pub open spec fn wf(&self) -> bool {
        &&& self.root.wf()
        &&& forall|i: int|
            0 <= i < self.council@.len() ==> (#[trigger] self.council@[i]).wf()
        &&& forall|i: int|
            0 <= i < self.technical_committee@.len() ==> (
            #[trigger] self.technical_committee@[i]).wf()
        &&& forall|i: int|
            0 <= i < self.collators@.len() ==> (#[trigger] self.collators@[i]).wf()
        &&& forall|i: int|
            0 <= i < self.delegations@.len() ==> (#[trigger] self.delegations@[i]).wf()
        &&& forall|i: int|
            0 <= i < self.endowed@.len() ==> (#[trigger] self.endowed@[i]).wf()
        &&& sum_balances(self@.endowed) + sum_stakes(self@.collators) <= self.total_issuance
    }

    /// Combine resolved accounts into the structured genesis state.
    ///
    /// The caller supplies the total-issuance scalar explicitly; it must not
    /// be exceeded by the endowed balances plus the bonded stakes.  Both
    /// committees may overlap, endowed accounts may repeat role accounts,
    /// and every list keeps its insertion order.
    pub fn new(
        root: AccountId,
        council: Vec<AccountId>,
        technical_committee: Vec<AccountId>,
        collators: Vec<CollatorEntry>,
        delegations: Vec<DelegationEntry>,
        endowed: Vec<EndowedAccount>,
        total_issuance: u128,
        para_id: u32,
        chain_id: u64,
    ) -> (r: GenesisConfig)
        requires
            root.wf(),
            forall|i: int| 0 <= i < council@.len() ==> (#[trigger] council@[i]).wf(),
            forall|i: int|
                0 <= i < technical_committee@.len() ==> (
                #[trigger] technical_committee@[i]).wf(),
            forall|i: int| 0 <= i < collators@.len() ==> (#[trigger] collators@[i]).wf(),
            forall|i: int| 0 <= i < delegations@.len() ==> (#[trigger] delegations@[i]).wf(),
            forall|i: int| 0 <= i < endowed@.len() ==> (#[trigger] endowed@[i]).wf(),
            sum_balances(endowed@.map_values(|e: EndowedAccount| e@)) + sum_stakes(
                collators@.map_values(|c: CollatorEntry| c@),
            ) <= total_issuance,
        ensures
            r.wf(),
            r@ == (GenesisView {
                root: root@,
                council: council@.map_values(|a: AccountId| a@),
                technical_committee: technical_committee@.map_values(|a: AccountId| a@),
                collators: collators@.map_values(|c: CollatorEntry| c@),
                delegations: delegations@.map_values(|d: DelegationEntry| d@),
                endowed: endowed@.map_values(|e: EndowedAccount| e@),
                total_issuance,
                para_id,
                chain_id,
            }),
    {
        GenesisConfig {
            root,
            council,
            technical_committee,
            collators,
            delegations,
            endowed,
            total_issuance,
            para_id,
            chain_id,
        }
    }
}

impl Clone for GenesisConfig {
    /// Cloning a genesis configuration keeps its whole mathematical value.
    fn clone(&self) -> (r: Self)
        ensures
            r@ == self@,
    {
        let r = GenesisConfig {
            root: self.root.clone(),
            council: clone_accounts(&self.council),
            technical_committee: clone_accounts(&self.technical_committee),
            collators: clone_collators(&self.collators),
            delegations: clone_delegations(&self.delegations),
            endowed: clone_endowed(&self.endowed),
            total_issuance: self.total_issuance,
            para_id: self.para_id,
            chain_id: self.chain_id,
        };
        proof {
            assert(r@.council =~= self@.council);
            assert(r@.technical_committee =~= self@.technical_committee);
            assert(r@.collators =~= self@.collators);
            assert(r@.delegations =~= self@.delegations);
            assert(r@.endowed =~= self@.endowed);
        }
        r
    }
}

/// Clone an account list, keeping the bytes of each entry.
fn clone_accounts(v: &Vec<AccountId>) -> (r: Vec<AccountId>)
    ensures
        r@.map_values(|a: AccountId| a@) == v@.map_values(|a: AccountId| a@),
{
    let mut r: Vec<AccountId> = Vec::new();
    let mut i: usize = 0;
    while i < v.len()
        invariant
            i <= v@.len(),
            r@.len() == i,
            forall|k: int| 0 <= k < i ==> (#[trigger] r@[k])@ == v@[k]@,
        decreases v@.len() - i,
    {
        r.push(v[i].clone());
        i += 1;
    }
    proof {
        assert(r@.map_values(|a: AccountId| a@) =~= v@.map_values(|a: AccountId| a@));
    }
    r
}

/// Clone a collator list, keeping the value of each entry.
fn clone_collators(v: &Vec<CollatorEntry>) -> (r: Vec<CollatorEntry>)
    ensures
        r@.map_values(|c: CollatorEntry| c@) == v@.map_values(|c: CollatorEntry| c@),
{
    let mut r: Vec<CollatorEntry> = Vec::new();
    let mut i: usize = 0;
    while i < v.len()
        invariant
            i <= v@.len(),
            r@.len() == i,
            forall|k: int| 0 <= k < i ==> (#[trigger] r@[k])@ == v@[k]@,
        decreases v@.len() - i,
    {
        r.push(v[i].clone());
        i += 1;
    }
    proof {
        assert(r@.map_values(|c: CollatorEntry| c@) =~= v@.map_values(|c: CollatorEntry| c@));
    }
    r
}

/// Clone a delegation list, keeping the value of each entry.
fn clone_delegations(v: &Vec<DelegationEntry>) -> (r: Vec<DelegationEntry>)
    ensures
        r@.map_values(|d: DelegationEntry| d@) == v@.map_values(|d: DelegationEntry| d@),
{
    let mut r: Vec<DelegationEntry> = Vec::new();
    let mut i: usize = 0;
    while i < v.len()
        invariant
            i <= v@.len(),
            r@.len() == i,
            forall|k: int| 0 <= k < i ==> (#[trigger] r@[k])@ == v@[k]@,
        decreases v@.len() - i,
    {
        r.push(v[i].clone());
        i += 1;
    }
    proof {
        assert(r@.map_values(|d: DelegationEntry| d@) =~= v@.map_values(|d: DelegationEntry| d@));
    }
    r
}

/// Clone an endowment list, keeping the value of each entry.
fn clone_endowed(v: &Vec<EndowedAccount>) -> (r: Vec<EndowedAccount>)
    ensures
        r@.map_values(|e: EndowedAccount| e@) == v@.map_values(|e: EndowedAccount| e@),
{
    let mut r: Vec<EndowedAccount> = Vec::new();
    let mut i: usize = 0;
    while i < v.len()
        invariant
            i <= v@.len(),
            r@.len() == i,
            forall|k: int| 0 <= k < i ==> (#[trigger] r@[k])@ == v@[k]@,
        decreases v@.len() - i,
    {
        r.push(v[i].clone());
        i += 1;
    }
    proof {
        assert(r@.map_values(|e: EndowedAccount| e@) =~= v@.map_values(|e: EndowedAccount| e@));
    }
    r
}

} // verus!
