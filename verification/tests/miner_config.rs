use offline_election::miner_config::{
    get_current_algorithm, get_runtime_constants, initialize_runtime_constants, report,
    set_election_config, set_runtime_constants, solve_by, solve_on, with_election_config,
    BalancingConfig, BalancingIterations, BlockLength, ChainConstant, ConstantReplies,
    ConstantReply, ConstantsFetch, ConstantsStep, DynamicSolver, ElectionResult, ElectionState,
    MaxBackersPerWinner, MaxLength, MaxVotesPerVoter, MaxWinnersPerPage, MinerConstants, Pages,
    PerDispatchClass, RuntimeConfig, SolverError, TargetSnapshotPerBlock, VoterSnapshotPerBlock,
    Weight,
};
use offline_election::miner_config::{kusama, polkadot, substrate};
use offline_election::models::{Algorithm, Chain};
use offline_election::multi_block_state_client::VoterData;
use offline_election::primitives::AccountId;

fn length(normal: u32, operational: u32, mandatory: u32) -> BlockLength {
    BlockLength { max: PerDispatchClass { normal, operational, mandatory } }
}

#[test]
fn block_length_is_the_sum_over_the_classes() {
    assert_eq!(length(1, 2, 3).total(), 6);
    assert_eq!(length(0, 0, 0).total(), 0);
    assert_eq!(length(u32::MAX, 1, 0).total(), u32::MAX);
    assert_eq!(length(u32::MAX, u32::MAX, u32::MAX).total(), u32::MAX);
    assert_eq!(length(u32::MAX - 3, 1, 1).total(), u32::MAX - 1);
}

#[test]
fn block_length_reads_three_numbers() {
    assert_eq!(
        BlockLength::decode(&[1, 0, 0, 0, 0, 1, 0, 0, 3, 0, 0, 1]),
        Ok(length(1, 256, 0x01000003))
    );
    assert_eq!(BlockLength::decode(&[0; 13]), Ok(length(0, 0, 0)));
    for (len, class) in [(0, "normal"), (3, "normal"), (4, "operational"), (11, "mandatory")] {
        assert_eq!(
            BlockLength::decode(&vec![0; len]).unwrap_err().message(),
            format!(
                "Could not decode `BlockLength::max`:\n\tCould not decode \
                 `PerDispatchClass::{}`:\n\t\tNot enough data to fill buffer\n",
                class
            )
        );
    }
}

const NO_REPLIES: ConstantReplies = ConstantReplies {
    max_winners_per_page: None,
    max_backers_per_winner: None,
    voter_snapshot_per_block: None,
    target_snapshot_per_block: None,
    block_length: None,
};

#[test]
fn constants_have_defaults() {
    assert_eq!(
        MinerConstants::from_replies(32, NO_REPLIES),
        MinerConstants {
            pages: 32,
            max_winners_per_page: 256,
            max_backers_per_winner: u32::MAX,
            voter_snapshot_per_block: 100,
            target_snapshot_per_block: 100,
            max_length: 4,
        }
    );
}

fn max_length(total: u32) -> u32 {
    let replies = ConstantReplies { block_length: Some(length(total, 0, 0)), ..NO_REPLIES };
    MinerConstants::from_replies(1, replies).max_length
}

#[test]
fn a_solution_may_fill_three_quarters_of_a_block() {
    assert_eq!(max_length(0), 0);
    assert_eq!(max_length(1), 1);
    // One and a half and four and a half are rounded down.
    assert_eq!(max_length(2), 1);
    assert_eq!(max_length(3), 2);
    assert_eq!(max_length(4), 3);
    assert_eq!(max_length(6), 4);
    assert_eq!(max_length(5 * 1024 * 1024), 3932160);
    assert_eq!(max_length(u32::MAX), 3221225471);
}

type Step = ConstantsStep<&'static str>;

fn fetch(step: Step, wanted: ChainConstant) -> ConstantsFetch {
    match step {
        ConstantsStep::Fetch(next) => {
            assert_eq!(next.wanted, wanted);
            next
        },
        other => panic!("{:?}", other),
    }
}

#[test]
fn constants_are_fetched_one_by_one() {
    let s = ConstantsFetch::start();
    assert_eq!((s.wanted.pallet(), s.wanted.name()), ("MultiBlockElection", "Pages"));
    let s = fetch(s.on_reply(ConstantReply::Number(32)), ChainConstant::MaxWinnersPerPage);
    assert_eq!(
        (s.wanted.pallet(), s.wanted.name()),
        ("MultiBlockElectionVerifier", "MaxWinnersPerPage")
    );
    let s = fetch(s.on_reply(ConstantReply::Number(10)), ChainConstant::MaxBackersPerWinner);
    assert_eq!(
        (s.wanted.pallet(), s.wanted.name()),
        ("MultiBlockElectionVerifier", "MaxBackersPerWinner")
    );
    let s = fetch(s.on_reply(ConstantReply::Failed("gone")), ChainConstant::VoterSnapshotPerBlock);
    assert_eq!(
        (s.wanted.pallet(), s.wanted.name()),
        ("MultiBlockElection", "VoterSnapshotPerBlock")
    );
    let s = fetch(s.on_reply(ConstantReply::Number(30)), ChainConstant::TargetSnapshotPerBlock);
    assert_eq!(
        (s.wanted.pallet(), s.wanted.name()),
        ("MultiBlockElection", "TargetSnapshotPerBlock")
    );
    let s = fetch(s.on_reply(ConstantReply::Failed("gone")), ChainConstant::BlockLength);
    assert_eq!((s.wanted.pallet(), s.wanted.name()), ("System", "BlockLength"));
    let step: Step = s.on_reply(ConstantReply::Length(length(40, 40, 20)));
    let expected = MinerConstants {
        pages: 32,
        max_winners_per_page: 10,
        max_backers_per_winner: u32::MAX,
        voter_snapshot_per_block: 30,
        target_snapshot_per_block: 100,
        max_length: 75,
    };
    assert!(matches!(step, ConstantsStep::Done(constants) if constants == expected));
    let step: Step = s.on_reply(ConstantReply::Failed("gone"));
    assert!(matches!(step, ConstantsStep::Done(constants) if constants.max_length == 4));
}

#[test]
fn there_are_no_constants_without_the_pages() {
    let step: Step = ConstantsFetch::start().on_reply(ConstantReply::Failed("gone"));
    assert!(matches!(step, ConstantsStep::Failed("gone")));
}

const CONSTANTS: MinerConstants = MinerConstants {
    pages: 32,
    max_winners_per_page: 33,
    max_backers_per_winner: 34,
    voter_snapshot_per_block: 35,
    target_snapshot_per_block: 36,
    max_length: 37,
};

#[test]
fn constants_are_read_as_they_were_set() {
    let mut config = RuntimeConfig::new();
    assert!(!config.is_set());
    set_runtime_constants(&mut config, CONSTANTS);
    assert!(config.is_set());
    assert_eq!(*get_runtime_constants(&config), CONSTANTS);
    assert_eq!(Pages::get(&config), 32);
    assert_eq!(MaxWinnersPerPage::get(&config), 33);
    assert_eq!(MaxBackersPerWinner::get(&config), 34);
    assert_eq!(VoterSnapshotPerBlock::get(&config), 35);
    assert_eq!(TargetSnapshotPerBlock::get(&config), 36);
    assert_eq!(MaxLength::get(&config), 37);
}

#[test]
fn initialising_keeps_constants_that_are_set() {
    let mut config = RuntimeConfig::new();
    initialize_runtime_constants(&mut config);
    let stand_in = MinerConstants {
        pages: 1,
        max_winners_per_page: 1,
        max_backers_per_winner: 1,
        voter_snapshot_per_block: 2,
        target_snapshot_per_block: 2,
        max_length: 100000000,
    };
    assert_eq!(*get_runtime_constants(&config), stand_in);
    initialize_runtime_constants(&mut config);
    assert_eq!(*get_runtime_constants(&config), stand_in);

    let mut config = RuntimeConfig::new();
    set_runtime_constants(&mut config, CONSTANTS);
    initialize_runtime_constants(&mut config);
    assert_eq!(*get_runtime_constants(&config), CONSTANTS);
}

#[test]
fn settings_at_the_start() {
    let state = ElectionState::new();
    assert_eq!(get_current_algorithm(&state), Algorithm::SeqPhragmen);
    assert_eq!(BalancingIterations::get(&state), None);
    assert_eq!(MaxVotesPerVoter::get(&state), 16);
}

#[test]
fn votes_default_to_those_of_the_chain() {
    for (chain, votes) in [(Chain::Polkadot, 16), (Chain::Kusama, 24), (Chain::Substrate, 16)] {
        let mut state = ElectionState::new();
        set_election_config(&mut state, chain, Algorithm::Phragmms, 3, None);
        assert_eq!(MaxVotesPerVoter::get(&state), votes);
        assert_eq!(get_current_algorithm(&state), Algorithm::Phragmms);
        assert_eq!(
            BalancingIterations::get(&state),
            Some(BalancingConfig { iterations: 3, tolerance: 0 })
        );
        let scoped = with_election_config(&state, chain, Algorithm::SeqPhragmen, 0, None);
        assert_eq!(MaxVotesPerVoter::get(&scoped), votes);
        set_election_config(&mut state, chain, Algorithm::Phragmms, 3, Some(5));
        assert_eq!(MaxVotesPerVoter::get(&state), 5);
    }
}

#[test]
fn settings_of_a_task_are_its_own() {
    let mut state = ElectionState::new();
    set_election_config(&mut state, Chain::Polkadot, Algorithm::SeqPhragmen, 1, Some(1));
    let mut mine = with_election_config(&state, Chain::Kusama, Algorithm::Phragmms, 2, Some(2));
    let theirs = with_election_config(&state, Chain::Kusama, Algorithm::SeqPhragmen, 9, Some(3));
    set_election_config(&mut mine, Chain::Polkadot, Algorithm::SeqPhragmen, 7, Some(7));
    assert_eq!(get_current_algorithm(&mine), Algorithm::Phragmms);
    assert_eq!(MaxVotesPerVoter::get(&mine), 2);
    assert_eq!(
        BalancingIterations::get(&mine),
        Some(BalancingConfig { iterations: 2, tolerance: 0 })
    );
    assert_eq!(MaxVotesPerVoter::get(&theirs), 3);
    assert_eq!(MaxVotesPerVoter::get(&state), 1);
    let inner = with_election_config(&mine, Chain::Kusama, Algorithm::SeqPhragmen, 0, None);
    assert_eq!(get_current_algorithm(&inner), Algorithm::SeqPhragmen);
    assert_eq!(BalancingIterations::get(&inner), None);
}

fn account(n: u8) -> AccountId {
    [n; 32]
}

fn targets() -> Vec<AccountId> {
    vec![account(1), account(2), account(3)]
}

fn voters() -> Vec<VoterData> {
    vec![
        (account(10), 10, vec![account(1), account(2)]),
        (account(20), 20, vec![account(1), account(3)]),
        (account(30), 30, vec![account(2), account(3)]),
    ]
}

const WHOLE: u32 = 1_000_000_000;

fn sorted(mut winners: Vec<(AccountId, u128)>) -> Vec<(AccountId, u128)> {
    winners.sort();
    winners
}

#[test]
fn sequential_phragmen_solves_an_election() {
    let r = solve_by(Algorithm::SeqPhragmen, 2, targets(), voters(), None).unwrap();
    assert_eq!(sorted(r.winners), vec![(account(2), 25), (account(3), 35)]);
    assert_eq!(
        r.assignments,
        vec![
            (account(10), vec![(account(2), WHOLE)]),
            (account(20), vec![(account(3), WHOLE)]),
            (account(30), vec![(account(2), WHOLE / 2), (account(3), WHOLE / 2)]),
        ]
    );
}

#[test]
fn balancing_evens_out_the_winners() {
    let balancing = Some(BalancingConfig { iterations: 4, tolerance: 0 });
    let r = solve_by(Algorithm::SeqPhragmen, 2, targets(), voters(), balancing).unwrap();
    assert_eq!(sorted(r.winners), vec![(account(2), 30), (account(3), 30)]);
    assert_eq!(
        r.assignments[2],
        (account(30), vec![(account(2), 666666666), (account(3), 333333334)])
    );
}

#[test]
fn phragmms_solves_an_election() {
    let balancing = Some(BalancingConfig { iterations: 2, tolerance: 0 });
    let r = solve_by(Algorithm::Phragmms, 2, targets(), voters(), balancing).unwrap();
    assert_eq!(r.winners, vec![(account(3), 30), (account(2), 30)]);
    assert_eq!(
        r.assignments,
        vec![
            (account(10), vec![(account(2), WHOLE)]),
            (account(20), vec![(account(3), WHOLE)]),
            (account(30), vec![(account(2), 666666666), (account(3), 333333334)]),
        ]
    );
}

fn told(r: Result<ElectionResult, SolverError>) -> (Vec<(AccountId, u128)>, usize) {
    let r = r.unwrap();
    (r.winners, r.assignments.len())
}

/// Voters along a line of candidates, which the two algorithms do not treat alike.
fn line() -> (Vec<AccountId>, Vec<VoterData>) {
    let candidates = vec![11, 21, 31, 41, 51, 61, 71];
    let votes: Vec<(u8, u64, Vec<u8>)> = vec![
        (2, 2000, vec![11]),
        (4, 1000, vec![11, 21]),
        (6, 1000, vec![21, 31]),
        (8, 1000, vec![31, 41]),
        (110, 1000, vec![41, 51]),
        (120, 1000, vec![51, 61]),
        (130, 1000, vec![61, 71]),
    ];
    (
        candidates.into_iter().map(account).collect(),
        votes
            .into_iter()
            .map(|(who, stake, of)| (account(who), stake, of.into_iter().map(account).collect()))
            .collect(),
    )
}

#[test]
fn the_selected_algorithm_counts_on_every_chain() {
    let mut state = ElectionState::new();
    let (t, v) = line();
    let seq = told(solve_by(Algorithm::SeqPhragmen, 4, t.clone(), v.clone(), None));
    let mms = told(solve_by(Algorithm::Phragmms, 4, t.clone(), v.clone(), None));
    assert_ne!(seq, mms);
    for (algorithm, expected) in [(Algorithm::SeqPhragmen, &seq), (Algorithm::Phragmms, &mms)] {
        set_election_config(&mut state, Chain::Polkadot, algorithm, 0, None);
        assert_eq!(&told(DynamicSolver::solve(&state, 4, t.clone(), v.clone())), expected);
        let r = polkadot::MinerConfig::solve(&state, 4, t.clone(), v.clone());
        assert_eq!(&told(r), expected);
        let r = kusama::MinerConfig::solve(&state, 4, t.clone(), v.clone());
        assert_eq!(&told(r), expected);
        let r = substrate::MinerConfig::solve(&state, 4, t.clone(), v.clone());
        assert_eq!(&told(r), expected);
        for chain in [Chain::Polkadot, Chain::Kusama, Chain::Substrate] {
            let r = solve_on(chain, &state, 4, t.clone(), v.clone());
            assert_eq!(&told(r), expected);
        }
    }
}

#[test]
fn the_solver_goes_by_the_iterations_that_are_set() {
    let mut state = ElectionState::new();
    set_election_config(&mut state, Chain::Kusama, Algorithm::SeqPhragmen, 4, None);
    let r = solve_on(Chain::Kusama, &state, 2, targets(), voters()).unwrap();
    assert_eq!(sorted(r.winners), vec![(account(2), 30), (account(3), 30)]);
}

#[test]
fn elections_without_candidates_or_seats_have_no_winners() {
    for algorithm in [Algorithm::SeqPhragmen, Algorithm::Phragmms] {
        let r = solve_by(algorithm, 2, vec![], voters(), None).unwrap();
        assert!(r.winners.is_empty());
        let r = solve_by(algorithm, 0, targets(), voters(), None).unwrap();
        assert!(r.winners.is_empty());
    }
}

#[test]
fn a_failed_solver_is_reported() {
    assert_eq!(report(None).err(), Some(SolverError::ArithmeticError));
    let result = ElectionResult { winners: vec![(account(1), 5)], assignments: vec![] };
    assert_eq!(report(Some(result)).unwrap().winners, vec![(account(1), 5)]);
}

#[test]
fn the_weight_is_that_of_the_selected_algorithm() {
    let phragmen = Weight { ref_time: 1, proof_size: 2 };
    let phragmms = Weight { ref_time: 3, proof_size: 4 };
    let mut state = ElectionState::new();
    assert_eq!(DynamicSolver::weight(&state, phragmen, phragmms), phragmen);
    set_election_config(&mut state, Chain::Polkadot, Algorithm::Phragmms, 0, None);
    assert_eq!(DynamicSolver::weight(&state, phragmen, phragmms), phragmms);
}
