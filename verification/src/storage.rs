//! The storage entries that are read, and what can go wrong with one.

use crate::decode_error::DecodeError;
use crate::primitives::AccountId;
use crate::scale::encode_account;
use vstd::prelude::*;

verus! {

/// One key of an entry of a storage map.
#[derive(Debug, Clone, PartialEq, Eq)]
pub enum KeyPart {
    U32(u32),
    U64(u64),
    /// The encoded key.
    Bytes(Vec<u8>),
}

/// What a key part says.
pub enum KeyPartView {
    U32(u32),
    U64(u64),
    Bytes(Seq<u8>),
}

impl View for KeyPart {
    type V = KeyPartView;

    open spec fn view(&self) -> KeyPartView {
        match *self {
            KeyPart::U32(n) => KeyPartView::U32(n),
            KeyPart::U64(n) => KeyPartView::U64(n),
            KeyPart::Bytes(b) => KeyPartView::Bytes(b@),
        }
    }
}

/// Where an entry stands in the chain's storage.
#[derive(Debug, Clone, PartialEq, Eq)]
pub struct StorageKey {
    pub pallet: &'static str,
    pub entry: &'static str,
    pub keys: Vec<KeyPart>,
}

/// What a storage key says.
pub struct StorageKeyView {
    pub pallet: Seq<char>,
    pub entry: Seq<char>,
    pub keys: Seq<KeyPartView>,
}

impl View for StorageKey {
    type V = StorageKeyView;

    open spec fn view(&self) -> StorageKeyView {
        StorageKeyView {
            pallet: self.pallet@,
            entry: self.entry@,
            keys: Seq::new(self.keys@.len(), |i: int| self.keys@[i]@),
        }
    }
}

/// The key of the entry `entry` of the pallet `pallet` under `keys`.
pub open spec fn key_of(pallet: &str, entry: &str, keys: Seq<KeyPartView>) -> StorageKeyView {
    StorageKeyView { pallet: pallet@, entry: entry@, keys }
}

/// The key of the phase that the election is in.
pub fn phase_key() -> (r: StorageKey)
    ensures
        r@ == key_of("MultiBlockElection", "CurrentPhase", seq![]),
{
    let r = StorageKey { pallet: "MultiBlockElection", entry: "CurrentPhase", keys: Vec::new() };
    assert(r@.keys =~= seq![]);
    r
}

/// The key of the number of the election's round.
pub fn round_key() -> (r: StorageKey)
    ensures
        r@ == key_of("MultiBlockElection", "Round", seq![]),
{
    let r = StorageKey { pallet: "MultiBlockElection", entry: "Round", keys: Vec::new() };
    assert(r@.keys =~= seq![]);
    r
}

/// The key of the number of winners that a round is to elect.
pub fn desired_targets_key(round: u32) -> (r: StorageKey)
    ensures
        r@ == key_of("MultiBlockElection", "DesiredTargets", seq![KeyPartView::U32(round)]),
{
    let r = StorageKey {
        pallet: "MultiBlockElection",
        entry: "DesiredTargets",
        keys: vec![KeyPart::U32(round)],
    };
    assert(r@.keys =~= seq![KeyPartView::U32(round)]);
    r
}

/// The key of the number of the block.
pub fn block_number_key() -> (r: StorageKey)
    ensures
        r@ == key_of("System", "Number", seq![]),
{
    let r = StorageKey { pallet: "System", entry: "Number", keys: Vec::new() };
    assert(r@.keys =~= seq![]);
    r
}

/// The key of the least bond of a nominator.
pub fn min_nominator_bond_key() -> (r: StorageKey)
    ensures
        r@ == key_of("Staking", "MinNominatorBond", seq![]),
{
    let r = StorageKey { pallet: "Staking", entry: "MinNominatorBond", keys: Vec::new() };
    assert(r@.keys =~= seq![]);
    r
}

/// The key of the least bond of a validator.
pub fn min_validator_bond_key() -> (r: StorageKey)
    ensures
        r@ == key_of("Staking", "MinValidatorBond", seq![]),
{
    let r = StorageKey { pallet: "Staking", entry: "MinValidatorBond", keys: Vec::new() };
    assert(r@.keys =~= seq![]);
    r
}

/// The key of a page of the voters of a round.
pub fn paged_voter_snapshot_key(round: u32, page: u32) -> (r: StorageKey)
    ensures
        r@ == key_of(
            "MultiBlockElection",
            "PagedVoterSnapshot",
            seq![KeyPartView::U32(round), KeyPartView::U32(page)],
        ),
{
    let r = StorageKey {
        pallet: "MultiBlockElection",
        entry: "PagedVoterSnapshot",
        keys: vec![KeyPart::U32(round), KeyPart::U32(page)],
    };
    assert(r@.keys =~= seq![KeyPartView::U32(round), KeyPartView::U32(page)]);
    r
}

/// The key of a page of the targets of a round.
pub fn paged_target_snapshot_key(round: u32, page: u32) -> (r: StorageKey)
    ensures
        r@ == key_of(
            "MultiBlockElection",
            "PagedTargetSnapshot",
            seq![KeyPartView::U32(round), KeyPartView::U32(page)],
        ),
{
    let r = StorageKey {
        pallet: "MultiBlockElection",
        entry: "PagedTargetSnapshot",
        keys: vec![KeyPart::U32(round), KeyPart::U32(page)],
    };
    assert(r@.keys =~= seq![KeyPartView::U32(round), KeyPartView::U32(page)]);
    r
}

/// The key of the preferences of a validator.
pub fn validator_prefs_key(validator: AccountId) -> (r: StorageKey)
    ensures
        r@ == key_of("Staking", "Validators", seq![KeyPartView::Bytes(validator@)]),
{
    let r = StorageKey {
        pallet: "Staking",
        entry: "Validators",
        keys: vec![KeyPart::Bytes(encode_account(&validator))],
    };
    assert(r@.keys =~= seq![KeyPartView::Bytes(validator@)]);
    r
}

/// The key of the nominations of a nominator.
pub fn nominator_key(nominator: AccountId) -> (r: StorageKey)
    ensures
        r@ == key_of("Staking", "Nominators", seq![KeyPartView::Bytes(nominator@)]),
{
    let r = StorageKey {
        pallet: "Staking",
        entry: "Nominators",
        keys: vec![KeyPart::Bytes(encode_account(&nominator))],
    };
    assert(r@.keys =~= seq![KeyPartView::Bytes(nominator@)]);
    r
}

/// The key of the controller of a stash.
pub fn controller_key(stash: AccountId) -> (r: StorageKey)
    ensures
        r@ == key_of("Staking", "Bonded", seq![KeyPartView::Bytes(stash@)]),
{
    let r = StorageKey {
        pallet: "Staking",
        entry: "Bonded",
        keys: vec![KeyPart::Bytes(encode_account(&stash))],
    };
    assert(r@.keys =~= seq![KeyPartView::Bytes(stash@)]);
    r
}

/// The key of the staking ledger of an account.
pub fn ledger_key(account: AccountId) -> (r: StorageKey)
    ensures
        r@ == key_of("Staking", "Ledger", seq![KeyPartView::Bytes(account@)]),
{
    let r = StorageKey {
        pallet: "Staking",
        entry: "Ledger",
        keys: vec![KeyPart::Bytes(encode_account(&account))],
    };
    assert(r@.keys =~= seq![KeyPartView::Bytes(account@)]);
    r
}

/// The key of a bag of the voter list, by its upper threshold.
pub fn list_bags_key(index: u64) -> (r: StorageKey)
    ensures
        r@ == key_of("VoterList", "ListBags", seq![KeyPartView::U64(index)]),
{
    let r = StorageKey {
        pallet: "VoterList",
        entry: "ListBags",
        keys: vec![KeyPart::U64(index)],
    };
    assert(r@.keys =~= seq![KeyPartView::U64(index)]);
    r
}

/// The key of the node of an account in the voter list.
pub fn list_nodes_key(account: AccountId) -> (r: StorageKey)
    ensures
        r@ == key_of("VoterList", "ListNodes", seq![KeyPartView::Bytes(account@)]),
{
    let r = StorageKey {
        pallet: "VoterList",
        entry: "ListNodes",
        keys: vec![KeyPart::Bytes(encode_account(&account))],
    };
    assert(r@.keys =~= seq![KeyPartView::Bytes(account@)]);
    r
}

/// Two pages of one snapshot share a key only where they are the same page of the same round.
pub proof fn law_page_keys_are_distinct(
    pallet: &str,
    entry: &str,
    round: u32,
    page: u32,
    other_round: u32,
    other_page: u32,
)
    requires
        key_of(pallet, entry, seq![KeyPartView::U32(round), KeyPartView::U32(page)]) == key_of(
            pallet,
            entry,
            seq![KeyPartView::U32(other_round), KeyPartView::U32(other_page)],
        ),
    ensures
        round == other_round,
        page == other_page,
{
    let keys = seq![KeyPartView::U32(round), KeyPartView::U32(page)];
    let others = seq![KeyPartView::U32(other_round), KeyPartView::U32(other_page)];
    assert(keys[0] == others[0] && keys[1] == others[1]);
}

/// Two entries of one map share a key only where they are of the same account.
pub proof fn law_account_keys_are_distinct(
    pallet: &str,
    entry: &str,
    account: Seq<u8>,
    other: Seq<u8>,
)
    requires
        key_of(pallet, entry, seq![KeyPartView::Bytes(account)]) == key_of(
            pallet,
            entry,
            seq![KeyPartView::Bytes(other)],
        ),
    ensures
        account == other,
{
    let keys = seq![KeyPartView::Bytes(account)];
    let others = seq![KeyPartView::Bytes(other)];
    assert(keys[0] == others[0]);
}

/// An entry that the chain is expected to hold.
#[derive(Debug, Clone, Copy, PartialEq, Eq, Structural)]
pub enum StorageItem {
    DesiredTargets,
    BlockNumber,
    MinNominatorBond,
    MinValidatorBond,
    VoterSnapshot,
    TargetSnapshot,
    ValidatorPrefs,
}

impl StorageItem {
    /// That the entry is missing, in words.
    pub open spec fn spec_missing(self) -> Seq<char> {
        match self {
            StorageItem::DesiredTargets => "DesiredTargets not found"@,
            StorageItem::BlockNumber => "Block number not found"@,
            StorageItem::MinNominatorBond => "MinNominatorBond not found"@,
            StorageItem::MinValidatorBond => "MinValidatorBond not found"@,
            StorageItem::VoterSnapshot => "Voter snapshot not found"@,
            StorageItem::TargetSnapshot => "Target snapshot not found"@,
            StorageItem::ValidatorPrefs => "ValidatorPrefs not found"@,
        }
    }

    /// That the entry is missing, in words.
    fn missing(&self) -> (r: &'static str)
        ensures
            r@ == self.spec_missing(),
    {
        match *self {
            StorageItem::DesiredTargets => "DesiredTargets not found",
            StorageItem::BlockNumber => "Block number not found",
            StorageItem::MinNominatorBond => "MinNominatorBond not found",
            StorageItem::MinValidatorBond => "MinValidatorBond not found",
            StorageItem::VoterSnapshot => "Voter snapshot not found",
            StorageItem::TargetSnapshot => "Target snapshot not found",
            StorageItem::ValidatorPrefs => "ValidatorPrefs not found",
        }
    }
}

/// Why the reply to a storage request gives no value.
#[derive(Debug, Clone, Copy, PartialEq, Eq, Structural)]
pub enum StorageError {
    /// The chain holds no such entry.
    NotFound(StorageItem),
    /// The bytes of the entry are not those of a value of its type.
    Decode(DecodeError),
}

impl StorageError {
    /// The error in words.
    pub open spec fn spec_message(self) -> Seq<char> {
        match self {
            StorageError::NotFound(item) => item.spec_missing(),
            StorageError::Decode(e) => e.spec_message(),
        }
    }

    /// The error in words.
    pub fn message(&self) -> (r: String)
        ensures
            r@ == self.spec_message(),
    {
        match *self {
            StorageError::NotFound(item) => item.missing().to_owned(),
            StorageError::Decode(e) => e.message(),
        }
    }
}

} // verus!
