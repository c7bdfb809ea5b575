use offline_election::multi_block_state_client::{
    fetch_paged_target_snapshot, fetch_paged_voter_snapshot, get_block_number,
    get_controller_from_stash, get_desired_targets, get_min_nominator_bond, get_min_validator_bond,
    get_nominator, get_phase, get_round, get_validator_prefs, ledger, list_bags, list_nodes,
    ElectionSnapshotPage, ListBag, ListNode, Phase, TargetSnapshotPage, VoterSnapshotPage,
};
use offline_election::miner_config::{
    initialize_runtime_constants, ElectionState, MaxVotesPerVoter, RuntimeConfig,
    TargetSnapshotPerBlock, VoterSnapshotPerBlock,
};
use offline_election::primitives::{AccountId, Balance};
use offline_election::staking::{UnlockChunk, ValidatorPrefs};
use offline_election::storage::{
    block_number_key, controller_key, desired_targets_key, ledger_key, list_bags_key,
    list_nodes_key, min_nominator_bond_key, min_validator_bond_key, nominator_key,
    paged_target_snapshot_key, paged_voter_snapshot_key, phase_key, round_key,
    validator_prefs_key, KeyPart, StorageError, StorageItem, StorageKey,
};
use frame_support::pallet_prelude::ConstU32;
use frame_support::BoundedVec;
use offline_election::decode_error::{DecodeError, Fault, Part};
use parity_scale_codec::{Compact, Decode, Encode};
use sp_core::crypto::AccountId32;
use sp_runtime::Perbill;

fn key(pallet: &'static str, entry: &'static str, keys: Vec<KeyPart>) -> StorageKey {
    StorageKey { pallet, entry, keys }
}

fn bare(fault: Fault) -> StorageError {
    StorageError::Decode(DecodeError { field: None, inner: None, fault })
}

fn within(field: Part, fault: Fault) -> StorageError {
    StorageError::Decode(DecodeError { field: Some(field), inner: None, fault })
}

#[test]
fn test_get_phase() {
    assert_eq!(phase_key(), key("MultiBlockElection", "CurrentPhase", vec![]));
    let value = Phase::Signed(10).encode();
    assert_eq!(get_phase(&value).unwrap(), Phase::Signed(10));
}

#[test]
fn test_get_round() {
    assert_eq!(round_key(), key("MultiBlockElection", "Round", vec![]));
    let value = 10u32.encode();
    assert_eq!(get_round(&value).unwrap(), 10);
}

#[test]
fn test_get_desired_targets() {
    let round = 10;
    assert_eq!(
        desired_targets_key(round),
        key("MultiBlockElection", "DesiredTargets", vec![KeyPart::U32(10)])
    );
    let value = 10u32.encode();
    assert_eq!(get_desired_targets(Some(&value)).unwrap(), 10);
}

#[test]
fn test_get_block_number() {
    assert_eq!(block_number_key(), key("System", "Number", vec![]));
    let value = 10u32.encode();
    assert_eq!(get_block_number(Some(&value)).unwrap(), 10);
}

#[test]
fn test_get_min_nominator_bond() {
    assert_eq!(min_nominator_bond_key(), key("Staking", "MinNominatorBond", vec![]));
    let value = 10u128.encode();
    assert_eq!(get_min_nominator_bond(Some(&value)).unwrap(), 10);
}

#[test]
fn test_get_min_validator_bond() {
    assert_eq!(min_validator_bond_key(), key("Staking", "MinValidatorBond", vec![]));
    let value = 10u128.encode();
    assert_eq!(get_min_validator_bond(Some(&value)).unwrap(), 10);
}

#[test]
fn test_fetch_paged_voter_snapshot() {
    let round = 10;
    let page = 1;
    assert_eq!(
        paged_voter_snapshot_key(round, page),
        key("MultiBlockElection", "PagedVoterSnapshot", vec![KeyPart::U32(10), KeyPart::U32(1)])
    );
    let mut config = RuntimeConfig::new();
    initialize_runtime_constants(&mut config);
    let empty: VoterSnapshotPage = Vec::new();
    let value = empty.encode();
    let voter_snapshot = fetch_paged_voter_snapshot(
        Some(&value),
        VoterSnapshotPerBlock::get(&config),
        MaxVotesPerVoter::get(&ElectionState::new()),
    );
    assert_eq!(voter_snapshot.unwrap(), VoterSnapshotPage::new());
}

#[test]
fn test_fetch_paged_target_snapshot() {
    let round = 10;
    let page = 1;
    assert_eq!(
        paged_target_snapshot_key(round, page),
        key("MultiBlockElection", "PagedTargetSnapshot", vec![KeyPart::U32(10), KeyPart::U32(1)])
    );
    let mut config = RuntimeConfig::new();
    initialize_runtime_constants(&mut config);
    let empty: TargetSnapshotPage = Vec::new();
    let value = empty.encode();
    let target_snapshot =
        fetch_paged_target_snapshot(Some(&value), TargetSnapshotPerBlock::get(&config));
    assert_eq!(target_snapshot.unwrap(), TargetSnapshotPage::new());
}

#[test]
fn test_get_validator_prefs() {
    let validator: AccountId = [0; 32];
    assert_eq!(
        validator_prefs_key(validator),
        key("Staking", "Validators", vec![KeyPart::Bytes(validator.encode())])
    );
    let value =
        pallet_staking::ValidatorPrefs { commission: Perbill::from_parts(10), blocked: false }
            .encode();
    assert_eq!(
        get_validator_prefs(Some(&value)).unwrap(),
        ValidatorPrefs { commission: 10, blocked: false }
    );
}

#[test]
fn test_get_nominator() {
    let nominator: AccountId = [0; 32];
    assert_eq!(
        nominator_key(nominator),
        key("Staking", "Nominators", vec![KeyPart::Bytes(nominator.encode())])
    );
    let targets: Vec<AccountId> = vec![[0; 32]];
    let value = (targets, 10u32, false).encode();
    let nominator = get_nominator(Some(&value)).unwrap().unwrap();
    assert_eq!(nominator.targets, vec![[0; 32]]);
    assert_eq!(nominator._submitted_in, 10);
    assert_eq!(nominator.suppressed, false);
}

#[test]
fn test_get_controller_from_stash() {
    let stash: AccountId = [0; 32];
    assert_eq!(
        controller_key(stash),
        key("Staking", "Bonded", vec![KeyPart::Bytes(stash.encode())])
    );
    let controller: AccountId = [0; 32];
    let value = controller.encode();
    assert_eq!(get_controller_from_stash(Some(&value)).unwrap().unwrap(), [0; 32]);
}

#[test]
fn test_ledger() {
    let account: AccountId = [0; 32];
    assert_eq!(
        ledger_key(account),
        key("Staking", "Ledger", vec![KeyPart::Bytes(account.encode())])
    );
    let stash: AccountId = [0; 32];
    let unlocking: Vec<(Compact<Balance>, Compact<u32>)> = Vec::new();
    let value = (stash, Compact(10u128), Compact(10u128), unlocking).encode();
    let ledger = ledger(Some(&value)).unwrap().unwrap();
    assert_eq!(ledger.stash, [0; 32]);
    assert_eq!(ledger.total, 10);
    assert_eq!(ledger.active, 10);
    let unlocking: Vec<UnlockChunk> = Vec::new();
    assert_eq!(ledger.unlocking, unlocking);
}

#[test]
fn test_list_bags() {
    let index: u64 = 1000;
    assert_eq!(list_bags_key(index), key("VoterList", "ListBags", vec![KeyPart::U64(1000)]));
    let value = ListBag { head: Some([1; 32]), tail: Some([2; 32]) }.encode();
    let bag = list_bags(Some(&value)).unwrap().unwrap();
    assert_eq!(bag.head, Some([1; 32]));
    assert_eq!(bag.tail, Some([2; 32]));
}

#[test]
fn test_list_nodes() {
    let account: AccountId = [0; 32];
    assert_eq!(
        list_nodes_key(account),
        key("VoterList", "ListNodes", vec![KeyPart::Bytes(account.encode())])
    );
    let value =
        ListNode { id: [0; 32], prev: Some([1; 32]), next: Some([2; 32]) }.encode();
    let node = list_nodes(Some(&value)).unwrap().unwrap();
    assert_eq!(node.id, [0; 32]);
    assert_eq!(node.prev, Some([1; 32]));
    assert_eq!(node.next, Some([2; 32]));
}

const PHASES: [Phase; 8] = [
    Phase::Off,
    Phase::Signed(1),
    Phase::SignedValidation(256),
    Phase::Unsigned(u32::MAX),
    Phase::Snapshot(0),
    Phase::Done,
    Phase::Export(3),
    Phase::Emergency,
];

#[test]
fn every_phase_reads_back() {
    for (index, phase) in PHASES.iter().enumerate() {
        let bytes = phase.encode();
        assert_eq!(bytes[0] as usize, index);
        assert_eq!(Phase::decode(&bytes), Ok(*phase));
        // What stands behind the phase does not matter.
        let mut longer = bytes.clone();
        longer.push(7);
        assert_eq!(get_phase(&longer), Ok(*phase));
        // A byte less is a byte short.
        assert!(matches!(
            get_phase(&bytes[..bytes.len() - 1]),
            Err(StorageError::Decode(e)) if e.fault == Fault::NotEnoughData && e.field.is_some()
        ));
    }
}

#[test]
fn phase_layout_is_index_and_number() {
    assert_eq!(Phase::Off.encode(), vec![0]);
    assert_eq!(Phase::Signed(10).encode(), vec![1, 10, 0, 0, 0]);
    assert_eq!(Phase::Export(0x01020304).encode(), vec![6, 4, 3, 2, 1]);
    assert_eq!(Phase::Emergency.encode(), vec![7]);
}

#[test]
fn phase_beyond_the_last_is_rejected() {
    assert_eq!(get_phase(&[8, 0, 0, 0, 0]), Err(bare(Fault::UnknownPhase)));
    assert_eq!(get_phase(&[8]), Err(bare(Fault::UnknownPhase)));
    assert_eq!(get_phase(&[]), Err(within(Part::PhaseIndex, Fault::NotEnoughData)));
}

#[test]
fn snapshots_are_available_between_their_creation_and_the_export() {
    let available: Vec<bool> = PHASES.iter().map(|p| p.has_snapshot()).collect();
    assert_eq!(available, vec![false, true, true, true, false, true, true, false]);
}

#[test]
fn missing_entries_are_reported() {
    let missing = |item| StorageError::NotFound(item);
    assert_eq!(get_desired_targets(None), Err(missing(StorageItem::DesiredTargets)));
    assert_eq!(get_block_number(None), Err(missing(StorageItem::BlockNumber)));
    assert_eq!(get_min_nominator_bond(None), Err(missing(StorageItem::MinNominatorBond)));
    assert_eq!(get_min_validator_bond(None), Err(missing(StorageItem::MinValidatorBond)));
    assert_eq!(fetch_paged_voter_snapshot(None, 2, 16), Err(missing(StorageItem::VoterSnapshot)));
    assert_eq!(fetch_paged_target_snapshot(None, 2), Err(missing(StorageItem::TargetSnapshot)));
    assert_eq!(get_validator_prefs(None), Err(missing(StorageItem::ValidatorPrefs)));
}

#[test]
fn absent_accounts_are_no_error() {
    assert!(get_nominator(None).unwrap().is_none());
    assert!(get_controller_from_stash(None).unwrap().is_none());
    assert!(ledger(None).unwrap().is_none());
    assert!(list_bags(None).unwrap().is_none());
    assert!(list_nodes(None).unwrap().is_none());
}

#[test]
fn short_entries_do_not_decode() {
    let short: Option<&[u8]> = Some(&[1, 0, 0]);
    let missing = bare(Fault::NotEnoughData);
    assert_eq!(get_round(&[1, 0, 0]), Err(missing));
    assert_eq!(get_desired_targets(short), Err(missing));
    assert_eq!(get_block_number(short), Err(missing));
    assert_eq!(get_min_nominator_bond(short), Err(missing));
    assert_eq!(get_min_validator_bond(short), Err(missing));
    assert_eq!(
        get_validator_prefs(Some(&[40])),
        Err(within(Part::PrefsBlocked, Fault::NotEnoughData))
    );
    assert_eq!(get_controller_from_stash(short), Err(bare(Fault::ShortAccount)));
    assert_eq!(
        get_nominator(Some(&[4, 0])).err(),
        Some(within(Part::NominationsTargets, Fault::ShortAccount))
    );
    assert_eq!(ledger(short).err(), Some(within(Part::LedgerStash, Fault::ShortAccount)));
    assert_eq!(
        list_bags(short).err(),
        Some(within(Part::BagHead, Fault::ShortOptionalAccount))
    );
    assert_eq!(list_nodes(short).err(), Some(within(Part::NodeId, Fault::ShortAccount)));
    assert_eq!(fetch_paged_voter_snapshot(Some(&[4]), 2, 16), Err(bare(Fault::ShortAccount)));
    assert_eq!(fetch_paged_target_snapshot(Some(&[4]), 2), Err(bare(Fault::ShortAccount)));
}

#[test]
fn errors_in_words() {
    let not_found = |item| StorageError::NotFound(item).message();
    assert_eq!(not_found(StorageItem::DesiredTargets), "DesiredTargets not found");
    assert_eq!(not_found(StorageItem::BlockNumber), "Block number not found");
    assert_eq!(not_found(StorageItem::MinNominatorBond), "MinNominatorBond not found");
    assert_eq!(not_found(StorageItem::MinValidatorBond), "MinValidatorBond not found");
    assert_eq!(not_found(StorageItem::VoterSnapshot), "Voter snapshot not found");
    assert_eq!(not_found(StorageItem::TargetSnapshot), "Target snapshot not found");
    assert_eq!(not_found(StorageItem::ValidatorPrefs), "ValidatorPrefs not found");
    assert_eq!(bare(Fault::NotEnoughData).message(), "Not enough data to fill buffer");
}

#[test]
fn numbers_are_little_endian() {
    assert_eq!(get_round(&[1, 2, 3, 4]), Ok(0x04030201));
    let bond: [u8; 16] = [0, 0, 0, 0, 0, 0, 0, 0, 1, 0, 0, 0, 0, 0, 0, 0];
    assert_eq!(get_min_nominator_bond(Some(&bond)), Ok(1u128 << 64));
    assert_eq!(get_min_validator_bond(Some(&u128::MAX.encode())), Ok(u128::MAX));
}

#[test]
fn voter_pages_read_back() {
    let page: VoterSnapshotPage = vec![
        ([1; 32], u64::MAX, vec![[2; 32], [3; 32]]),
        ([4; 32], 0, vec![]),
    ];
    let bytes = page.encode();
    assert_eq!(fetch_paged_voter_snapshot(Some(&bytes), 2, 2), Ok(page));
}

#[test]
fn voter_pages_keep_their_bounds() {
    let page: VoterSnapshotPage = vec![
        ([1; 32], 5, vec![[2; 32], [3; 32]]),
        ([4; 32], 6, vec![[2; 32]]),
    ];
    let bytes = page.encode();
    assert!(fetch_paged_voter_snapshot(Some(&bytes), 2, 2).is_ok());
    assert_eq!(fetch_paged_voter_snapshot(Some(&bytes), 1, 2), Err(bare(Fault::TooLong)));
    assert_eq!(fetch_paged_voter_snapshot(Some(&bytes), 2, 1), Err(bare(Fault::TooLong)));
}

#[test]
fn target_pages_read_back_within_their_bound() {
    let page: TargetSnapshotPage = vec![[1; 32], [2; 32], [3; 32]];
    let bytes = page.encode();
    assert_eq!(fetch_paged_target_snapshot(Some(&bytes), 3), Ok(page.clone()));
    assert_eq!(fetch_paged_target_snapshot(Some(&bytes), 2), Err(bare(Fault::TooLong)));
    let snapshot = ElectionSnapshotPage { voters: vec![], targets: page };
    assert_eq!(snapshot.targets.len(), 3);
}

#[test]
fn commission_is_cut_off_at_the_whole() {
    let value = (Compact(2_000_000_000u32), true).encode();
    assert_eq!(
        get_validator_prefs(Some(&value)),
        Ok(ValidatorPrefs { commission: 1_000_000_000, blocked: true })
    );
    let value = (Compact(1_000_000_000u32), 2u8).encode();
    assert_eq!(
        get_validator_prefs(Some(&value)),
        Err(within(Part::PrefsBlocked, Fault::InvalidBool))
    );
}

#[test]
fn compact_numbers_of_every_length_read_back() {
    for total in [0u128, 63, 64, 16_383, 16_384, (1 << 30) - 1, 1 << 30, 1 << 64, u128::MAX] {
        let chunks = vec![(Compact(total), Compact(7u32)), (Compact(1u128), Compact(u32::MAX))];
        let value = ([9u8; 32], Compact(total), Compact(total / 2), chunks).encode();
        let ledger = ledger(Some(&value)).unwrap().unwrap();
        assert_eq!(ledger.stash, [9; 32]);
        assert_eq!(ledger.total, total);
        assert_eq!(ledger.active, total / 2);
        assert_eq!(
            ledger.unlocking,
            vec![
                UnlockChunk { value: total, era: 7 },
                UnlockChunk { value: 1, era: u32::MAX },
            ]
        );
    }
}

#[test]
fn compact_numbers_in_a_longer_form_are_rejected() {
    // 1 in the form of two bytes.
    assert_eq!(
        get_validator_prefs(Some(&[5, 0, 0])),
        Err(within(Part::PrefsCommission, Fault::CompactU32))
    );
    assert_eq!(
        get_validator_prefs(Some(&[4, 0])),
        Ok(ValidatorPrefs { commission: 1, blocked: false })
    );
}

#[test]
fn what_the_pallet_stores_behind_the_ledger_is_passed_over() {
    let unlocking: Vec<(Compact<Balance>, Compact<u32>)> = Vec::new();
    let claimed: Vec<u32> = vec![1, 2, 3];
    let value = ([1u8; 32], Compact(5u128), Compact(4u128), unlocking, claimed).encode();
    let ledger = ledger(Some(&value)).unwrap().unwrap();
    assert_eq!((ledger.total, ledger.active), (5, 4));
}

#[test]
fn nominations_read_back() {
    let targets: Vec<AccountId> = vec![[1; 32], [2; 32]];
    let value = (targets.clone(), 77u32, true).encode();
    let nominations = get_nominator(Some(&value)).unwrap().unwrap();
    assert_eq!(nominations.targets, targets);
    assert_eq!(nominations._submitted_in, 77);
    assert!(nominations.suppressed);
    // Neither true nor false.
    let value = (targets, 77u32, 2u8).encode();
    assert_eq!(
        get_nominator(Some(&value)).err(),
        Some(within(Part::NominationsSuppressed, Fault::InvalidBool))
    );
}

#[test]
fn list_entries_read_back_with_absent_neighbours() {
    let bytes = ListBag { head: None, tail: Some([2; 32]) }.encode();
    assert_eq!(bytes.len(), 34);
    let bag = ListBag::decode(&bytes).unwrap();
    assert_eq!((bag.head, bag.tail), (None, Some([2; 32])));

    let bytes = ListNode { id: [5; 32], prev: None, next: None }.encode();
    assert_eq!(bytes.len(), 34);
    let node = ListNode::decode(&bytes).unwrap();
    assert_eq!((node.id, node.prev, node.next), ([5; 32], None, None));

    // The first byte of an account that may be absent is 0 or 1.
    assert_eq!(list_bags(Some(&[2, 0])).err(), Some(within(Part::BagHead, Fault::OptionByte)));
}

#[test]
fn pages_and_accounts_have_keys_of_their_own() {
    assert_ne!(paged_voter_snapshot_key(1, 2), paged_voter_snapshot_key(2, 1));
    assert_ne!(paged_target_snapshot_key(1, 2), paged_voter_snapshot_key(1, 2));
    assert_ne!(ledger_key([1; 32]), ledger_key([2; 32]));
    assert_ne!(nominator_key([1; 32]), validator_prefs_key([1; 32]));
}

/// Byte sequences that are cut short, overlong or otherwise broken in many places.
fn samples() -> Vec<Vec<u8>> {
    let mut all: Vec<Vec<u8>> = Vec::new();
    for first in 0..=255u8 {
        for len in [0usize, 1, 2, 3, 4, 5, 8, 9, 16, 17, 20, 33, 34, 42, 66, 70, 110] {
            for fill in [0u8, 1, 4, 0xff] {
                let mut bytes = vec![fill; len];
                if len > 0 {
                    bytes[0] = first;
                }
                all.push(bytes);
            }
        }
    }
    for bytes in [
        vec![([1u8; 32], 5u64, vec![[2u8; 32]]), ([3; 32], 6, vec![[4; 32], [5; 32], [6; 32]])]
            .encode(),
        vec![[1u8; 32]; 4].encode(),
    ] {
        for len in 0..=bytes.len() {
            all.push(bytes[..len].to_vec());
        }
    }
    all
}

fn text<T, E: std::fmt::Display>(r: Result<T, E>) -> Option<String> {
    r.err().map(|e| e.to_string())
}

fn message<T>(r: Result<T, StorageError>) -> Option<String> {
    r.err().map(|e| e.message())
}

#[test]
fn errors_are_those_of_the_codec() {
    type Votes = BoundedVec<AccountId32, ConstU32<2>>;
    type Voters = BoundedVec<(AccountId32, u64, Votes), ConstU32<2>>;
    type Targets = BoundedVec<AccountId32, ConstU32<3>>;
    for bytes in samples() {
        let b = &bytes[..];
        assert_eq!(message(get_round(b)), text(u32::decode(&mut &b[..])));
        assert_eq!(message(get_min_nominator_bond(Some(b))), text(u128::decode(&mut &b[..])));
        assert_eq!(
            message(get_controller_from_stash(Some(b))),
            text(AccountId32::decode(&mut &b[..]))
        );
        assert_eq!(
            message(fetch_paged_voter_snapshot(Some(b), 2, 2)),
            text(Voters::decode(&mut &b[..]))
        );
        assert_eq!(
            message(fetch_paged_target_snapshot(Some(b), 3)),
            text(Targets::decode(&mut &b[..]))
        );
        assert_eq!(
            message(get_validator_prefs(Some(b))),
            text(pallet_staking::ValidatorPrefs::decode(&mut &b[..]))
        );
    }
}

/// What the codec says of the first field of a value that does not read.
fn in_field<T>(r: Result<T, parity_scale_codec::Error>, field: &'static str) -> Option<String> {
    r.err().map(|e| e.chain(format!("Could not decode `{}`", field)).to_string())
}

#[test]
fn errors_in_fields_are_those_of_the_codec() {
    for bytes in samples() {
        let b = &bytes[..];
        let mut rest = b;
        let head = Option::<AccountId32>::decode(&mut rest);
        let expected = match head {
            Err(e) => in_field::<()>(Err(e), "ListBag::head"),
            Ok(_) => in_field(Option::<AccountId32>::decode(&mut rest), "ListBag::tail"),
        };
        assert_eq!(message(list_bags(Some(b))), expected);

        let mut rest = b;
        let targets = Vec::<AccountId32>::decode(&mut rest);
        let expected = match targets {
            Err(e) => in_field::<()>(Err(e), "NominationsLight::targets"),
            Ok(_) => match u32::decode(&mut rest) {
                Err(e) => in_field::<()>(Err(e), "NominationsLight::_submitted_in"),
                Ok(_) => in_field(bool::decode(&mut rest), "NominationsLight::suppressed"),
            },
        };
        assert_eq!(message(get_nominator(Some(b))), expected);

        // The total of a ledger, behind its stash.
        let mut value = vec![7u8; 32];
        value.extend_from_slice(b);
        let mut rest = b;
        if let Err(e) = Compact::<u128>::decode(&mut rest) {
            let expected = in_field::<()>(Err(e), "StakingLedger::total");
            assert_eq!(message(ledger(Some(&value))), expected);
        }

        // A chunk that is on its way out.
        let mut value = ([7u8; 32], Compact(5u128), Compact(4u128), Compact(1u32)).encode();
        value.extend_from_slice(b);
        let mut rest = b;
        let expected = match Compact::<u128>::decode(&mut rest) {
            Err(e) => Some(e.chain("Could not decode `UnlockChunk::value`")),
            Ok(_) => Compact::<u32>::decode(&mut rest)
                .err()
                .map(|e| e.chain("Could not decode `UnlockChunk::era`")),
        };
        let expected =
            expected.map(|e| e.chain("Could not decode `StakingLedger::unlocking`").to_string());
        assert_eq!(message(ledger(Some(&value))), expected);
    }
}

#[test]
fn errors_are_nested() {
    assert_eq!(
        get_phase(&[1, 2]).unwrap_err().message(),
        "Could not decode `Phase::Signed.0`:\n\tNot enough data to fill buffer\n"
    );
    assert_eq!(
        get_phase(&[]).unwrap_err().message(),
        "Could not decode `Phase`, failed to read variant byte:\n\tNot enough data to fill buffer\n"
    );
    assert_eq!(
        get_phase(&[9]).unwrap_err().message(),
        "Could not decode `Phase`, variant doesn't exist"
    );
    assert_eq!(
        list_bags(Some(&[1])).unwrap_err().message(),
        "Could not decode `ListBag::head`:\n\tCould not decode `Option::Some(T)`:\n\t\t\
         Could not decode `AccountId32.0`:\n\t\t\tNot enough data to fill buffer\n"
    );
    let mut node = vec![0u8; 33];
    assert_eq!(
        list_nodes(Some(&node)).unwrap_err().message(),
        "Could not decode `ListNode::next`:\n\tCould not decode variant byte for `Option`:\n\t\t\
         Not enough data to fill buffer\n"
    );
    node[32] = 3;
    assert_eq!(
        list_nodes(Some(&node)).unwrap_err().message(),
        "Could not decode `ListNode::prev`:\n\tunexpected first byte decoding Option\n"
    );
    let names = ["Signed", "SignedValidation", "Unsigned", "Snapshot", "Export"];
    for (index, name) in [1u8, 2, 3, 4, 6].into_iter().zip(names) {
        assert_eq!(
            get_phase(&[index]).unwrap_err().message(),
            format!("Could not decode `Phase::{}.0`:\n\tNot enough data to fill buffer\n", name)
        );
    }
}
