use offline_election::block_details::{BlockDetails, DetailsError};
use offline_election::miner_config::{
    set_runtime_constants, with_election_config, ElectionState, MinerConstants, RuntimeConfig,
};
use offline_election::models::{Algorithm, Chain};
use offline_election::multi_block_state_client::{Phase, TargetSnapshotPage, VoterSnapshotPage};
use offline_election::snapshot::{read_snapshot, NoSnapshot, SnapshotFetch, SnapshotStep};
use offline_election::storage::{
    paged_target_snapshot_key, paged_voter_snapshot_key, StorageError, StorageItem,
};
use parity_scale_codec::Encode;

type Reply = Result<Option<Vec<u8>>, &'static str>;

fn config() -> RuntimeConfig {
    let mut config = RuntimeConfig::new();
    set_runtime_constants(
        &mut config,
        MinerConstants {
            pages: 2,
            max_winners_per_page: 1,
            max_backers_per_winner: 1,
            voter_snapshot_per_block: 2,
            target_snapshot_per_block: 3,
            max_length: 10,
        },
    );
    config
}

fn details(phase: Phase, n_pages: u32) -> BlockDetails<()> {
    BlockDetails {
        storage: (),
        phase,
        n_pages,
        round: 7,
        desired_targets: 1,
        _block_number: 1,
        block_hash: None,
    }
}

fn start(n_pages: u32) -> SnapshotFetch {
    read_snapshot(&details(Phase::Signed(1), n_pages)).ok().unwrap()
}

fn next(fetch: SnapshotFetch, page: &VoterSnapshotPage) -> SnapshotFetch {
    match fetch.on_reply(&config(), &ElectionState::new(), Reply::Ok(Some(page.encode()))) {
        Ok(SnapshotStep::Fetch(fetch)) => fetch,
        _ => panic!("another page is wanted"),
    }
}

fn failure(fetch: SnapshotFetch, reply: Reply) -> DetailsError<&'static str> {
    match fetch.on_reply(&config(), &ElectionState::new(), reply) {
        Err(e) => e,
        Ok(_) => panic!("the page should not read"),
    }
}

#[test]
fn a_snapshot_holds_its_pages_in_order() {
    let first: VoterSnapshotPage = vec![([1; 32], 5, vec![[9; 32]]), ([2; 32], 6, vec![])];
    let second: VoterSnapshotPage = vec![([3; 32], 7, vec![[8; 32], [9; 32]])];
    let targets: TargetSnapshotPage = vec![[8; 32], [9; 32]];
    let fetch = start(2);
    assert_eq!(fetch.request(), paged_voter_snapshot_key(7, 0));
    let fetch = next(fetch, &first);
    assert_eq!(fetch.request(), paged_voter_snapshot_key(7, 1));
    let fetch = next(fetch, &second);
    assert_eq!(fetch.request(), paged_target_snapshot_key(7, 1));
    match fetch.on_reply(&config(), &ElectionState::new(), Reply::Ok(Some(targets.encode()))) {
        Ok(SnapshotStep::Done(snapshot)) => {
            assert_eq!(snapshot.voters, vec![first, second]);
            assert_eq!(snapshot.targets, targets);
        },
        _ => panic!("the snapshot is complete"),
    }
}

#[test]
fn without_pages_only_the_targets_are_read() {
    assert_eq!(start(0).request(), paged_target_snapshot_key(7, 0));
}

#[test]
fn phases_without_a_snapshot_are_refused() {
    for phase in [Phase::Off, Phase::Snapshot(1), Phase::Emergency] {
        assert_eq!(read_snapshot(&details(phase, 2)).err(), Some(NoSnapshot { phase }));
    }
    for phase in [Phase::Done, Phase::SignedValidation(0), Phase::Unsigned(2), Phase::Export(0)] {
        assert!(read_snapshot(&details(phase, 2)).is_ok());
    }
}

#[test]
fn a_page_that_cannot_be_had_ends_the_snapshot() {
    let empty: VoterSnapshotPage = vec![];
    assert!(matches!(failure(start(1), Err("gone")), DetailsError::Request("gone")));
    assert!(matches!(
        failure(start(1), Ok(None)),
        DetailsError::Reply(StorageError::NotFound(StorageItem::VoterSnapshot))
    ));
    assert!(matches!(
        failure(start(1), Ok(Some(vec![4]))),
        DetailsError::Reply(StorageError::Decode(_))
    ));
    assert!(matches!(
        failure(next(start(1), &empty), Ok(None)),
        DetailsError::Reply(StorageError::NotFound(StorageItem::TargetSnapshot))
    ));
    assert!(matches!(
        failure(next(start(1), &empty), Ok(Some(vec![4]))),
        DetailsError::Reply(StorageError::Decode(_))
    ));
}

#[test]
fn pages_keep_to_the_limits_of_the_chain_and_of_the_settings() {
    let empty: VoterSnapshotPage = vec![];
    let three: VoterSnapshotPage =
        vec![([1; 32], 1, vec![]), ([2; 32], 1, vec![]), ([3; 32], 1, vec![])];
    assert!(matches!(
        failure(start(1), Ok(Some(three.encode()))),
        DetailsError::Reply(StorageError::Decode(_))
    ));
    let four: TargetSnapshotPage = vec![[1; 32]; 4];
    assert!(matches!(
        failure(next(start(1), &empty), Ok(Some(four.encode()))),
        DetailsError::Reply(StorageError::Decode(_))
    ));
    let votes: VoterSnapshotPage = vec![([1; 32], 1, vec![[8; 32], [9; 32]])];
    let state = ElectionState::new();
    let tight = with_election_config(&state, Chain::Kusama, Algorithm::SeqPhragmen, 0, Some(1));
    let reply = || Reply::Ok(Some(votes.encode()));
    assert!(start(1).on_reply(&config(), &state, reply()).is_ok());
    assert!(start(1).on_reply(&config(), &tight, reply()).is_err());
}
