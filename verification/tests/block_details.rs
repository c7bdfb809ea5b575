use offline_election::block_details::{get_block_details, DetailsError, StorageAt};
use offline_election::miner_config::{set_runtime_constants, MinerConstants, RuntimeConfig};
use offline_election::multi_block_state_client::Phase;
use offline_election::storage::{KeyPart, StorageError, StorageItem};

type Reply<T> = Result<T, &'static str>;

fn config() -> RuntimeConfig {
    let mut config = RuntimeConfig::new();
    set_runtime_constants(
        &mut config,
        MinerConstants {
            pages: 4,
            max_winners_per_page: 1,
            max_backers_per_winner: 1,
            voter_snapshot_per_block: 2,
            target_snapshot_per_block: 2,
            max_length: 10,
        },
    );
    config
}

fn number(n: u32) -> Vec<u8> {
    n.to_le_bytes().to_vec()
}

#[test]
fn details_hold_what_the_chain_replied() {
    let storage = get_block_details(Some([7; 32]));
    assert!(matches!(storage.request(), StorageAt::Block(hash) if hash == [7; 32]));
    let phase = storage.on_reply(Reply::Ok("state")).unwrap();
    let key = phase.request();
    assert_eq!((key.pallet, key.entry), ("MultiBlockElection", "CurrentPhase"));
    let round = phase.on_reply(Reply::Ok(Phase::Unsigned(9).encode())).unwrap();
    let key = round.request();
    assert_eq!((key.pallet, key.entry), ("MultiBlockElection", "Round"));
    let desired = round.on_reply(Reply::Ok(number(3))).unwrap();
    let key = desired.request();
    assert_eq!((key.pallet, key.entry), ("MultiBlockElection", "DesiredTargets"));
    assert_eq!(key.keys, vec![KeyPart::U32(3)]);
    let block_number = desired.on_reply(&config(), Reply::Ok(Some(number(297))));
    let key = block_number.request();
    assert_eq!((key.pallet, key.entry), ("System", "Number"));
    let details = block_number.on_reply(Reply::Ok(Some(number(1000)))).unwrap();
    assert_eq!(details.storage, "state");
    assert_eq!(details.phase, Phase::Unsigned(9));
    assert_eq!(details.n_pages, 4);
    assert_eq!(details.round, 3);
    assert_eq!(details.desired_targets, 297);
    assert_eq!(details._block_number, 1000);
    assert_eq!(details.block_hash, Some([7; 32]));
}

#[test]
fn without_a_hash_the_latest_block_is_read() {
    assert!(matches!(get_block_details(None).request(), StorageAt::Latest));
}

fn with_desired_targets(reply: Reply<Option<Vec<u8>>>) -> u32 {
    let phase = get_block_details(None).on_reply(Reply::Ok(())).unwrap();
    let round = phase.on_reply(Reply::Ok(Phase::Off.encode())).unwrap();
    let desired = round.on_reply(Reply::Ok(number(0))).unwrap();
    let block_number = desired.on_reply(&config(), reply);
    block_number.on_reply(Reply::Ok(Some(number(0)))).unwrap().desired_targets
}

#[test]
fn desired_targets_default_to_600() {
    assert_eq!(with_desired_targets(Ok(Some(number(0)))), 0);
    assert_eq!(with_desired_targets(Ok(None)), 600);
    assert_eq!(with_desired_targets(Ok(Some(vec![1, 2]))), 600);
    assert_eq!(with_desired_targets(Err("connection lost")), 600);
}

#[test]
fn other_failures_end_the_details() {
    let storage = get_block_details(None);
    assert!(matches!(
        storage.on_reply(Result::<(), &str>::Err("no storage")),
        Err(DetailsError::Request("no storage"))
    ));
    let phase = storage.on_reply(Reply::Ok(())).unwrap();
    assert!(matches!(
        phase.clone().on_reply(Reply::Err("no phase")),
        Err(DetailsError::Request("no phase"))
    ));
    assert!(matches!(
        phase.clone().on_reply(Reply::Ok(vec![200])),
        Err(DetailsError::Reply(StorageError::Decode(_)))
    ));
    let round = phase.on_reply(Reply::Ok(Phase::Done.encode())).unwrap();
    assert!(matches!(
        round.clone().on_reply(Reply::Err("no round")),
        Err(DetailsError::Request("no round"))
    ));
    assert!(matches!(
        round.clone().on_reply(Reply::Ok(vec![])),
        Err(DetailsError::Reply(StorageError::Decode(_)))
    ));
    let desired = round.on_reply(Reply::Ok(number(1))).unwrap();
    let block_number = desired.on_reply(&config(), Reply::Ok(None));
    assert!(matches!(
        block_number.clone().on_reply(Reply::Err("no number")),
        Err(DetailsError::Request("no number"))
    ));
    assert!(matches!(
        block_number.clone().on_reply(Reply::Ok(None)),
        Err(DetailsError::Reply(StorageError::NotFound(StorageItem::BlockNumber)))
    ));
    assert!(matches!(
        block_number.on_reply(Reply::Ok(Some(vec![1]))),
        Err(DetailsError::Reply(StorageError::Decode(_)))
    ));
}
