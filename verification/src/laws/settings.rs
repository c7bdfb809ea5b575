//! What the constants, the settings and the solver of an election amount to.

use crate::miner_config;
use crate::miner_config::{
    BalancingConfig, BalancingIterations, BlockLength, ChainConstant, ConstantReplies,
    ConstantReply, ConstantsFetch, ConstantsStep, ElectionConfig, ElectionResult, ElectionState,
    MinerConstants, SolverError,
};
use crate::models::{Algorithm, Chain};
use vstd::prelude::*;

verus! {

/// The length of a block is the sum over its classes as long as that is a `u32`, and the greatest
/// `u32` beyond.
pub proof fn law_total_is_the_sum(length: BlockLength)
    ensures
        length.max.normal + length.max.operational + length.max.mandatory <= 0xffff_ffff
            ==> length.spec_total() == length.max.normal + length.max.operational
            + length.max.mandatory,
        length.max.normal + length.max.operational + length.max.mandatory > 0xffff_ffff
            ==> length.spec_total() == 0xffff_ffff,
{
}

/// A percentage is off by no more than half, and where it is just half, it is below.
pub proof fn law_percentage_is_nearest(percent: int, n: int)
    ensures
        -50 < percent * n - 100 * miner_config::percentage(percent, n) <= 50,
{
}

/// Each constant is what the chain replied, whatever that is. Only where the chain did not reply
/// does the default stand.
pub proof fn law_replies_are_taken_as_they_are(
    pages: u32,
    replies: ConstantReplies,
    n: u32,
    length: BlockLength,
)
    ensures
        ({
            let c = MinerConstants::spec_from_replies(pages, replies);
            let sum = length.max.normal + length.max.operational + length.max.mandatory;
            let total = if sum <= 0xffff_ffff {
                sum
            } else {
                0xffff_ffff
            };
            &&& c.pages == pages
            &&& replies.max_winners_per_page == Some(n) ==> c.max_winners_per_page == n
            &&& replies.max_winners_per_page is None ==> c.max_winners_per_page == 256
            &&& replies.max_backers_per_winner == Some(n) ==> c.max_backers_per_winner == n
            &&& replies.max_backers_per_winner is None ==> c.max_backers_per_winner == 0xffff_ffff
            &&& replies.voter_snapshot_per_block == Some(n) ==> c.voter_snapshot_per_block == n
            &&& replies.voter_snapshot_per_block is None ==> c.voter_snapshot_per_block == 100
            &&& replies.target_snapshot_per_block == Some(n) ==> c.target_snapshot_per_block == n
            &&& replies.target_snapshot_per_block is None ==> c.target_snapshot_per_block == 100
            &&& replies.block_length == Some(length) ==> -50 < 75 * total - 100 * c.max_length <= 50
            &&& replies.block_length is None ==> c.max_length == 4
        }),
{
}

/// One constant does not depend on the replies for the others.
pub proof fn law_replies_do_not_mix(pages: u32, a: ConstantReplies, b: ConstantReplies)
    ensures
        ({
            let x = MinerConstants::spec_from_replies(pages, a);
            let y = MinerConstants::spec_from_replies(pages, b);
            &&& a.max_winners_per_page == b.max_winners_per_page ==> x.max_winners_per_page
                == y.max_winners_per_page
            &&& a.max_backers_per_winner == b.max_backers_per_winner ==> x.max_backers_per_winner
                == y.max_backers_per_winner
            &&& a.voter_snapshot_per_block == b.voter_snapshot_per_block
                ==> x.voter_snapshot_per_block == y.voter_snapshot_per_block
            &&& a.target_snapshot_per_block == b.target_snapshot_per_block
                ==> x.target_snapshot_per_block == y.target_snapshot_per_block
            &&& a.block_length == b.block_length ==> x.max_length == y.max_length
        }),
{
}

/// A whole run of fetching, where the chain replies to every request: every constant is what was
/// replied to the request for it.
pub proof fn law_fetched_constants<E>(
    pages: u32,
    winners: u32,
    backers: u32,
    voters: u32,
    targets: u32,
    length: BlockLength,
)
    ensures
        ({
            let s0 = ConstantsFetch::spec_start();
            let s1 = s0.spec_on_reply(ConstantReply::<E>::Number(pages));
            let s2 = s1->Fetch_0.spec_on_reply(ConstantReply::<E>::Number(winners));
            let s3 = s2->Fetch_0.spec_on_reply(ConstantReply::<E>::Number(backers));
            let s4 = s3->Fetch_0.spec_on_reply(ConstantReply::<E>::Number(voters));
            let s5 = s4->Fetch_0.spec_on_reply(ConstantReply::<E>::Number(targets));
            let s6 = s5->Fetch_0.spec_on_reply(ConstantReply::<E>::Length(length));
            let sum = length.max.normal + length.max.operational + length.max.mandatory;
            let total = if sum <= 0xffff_ffff {
                sum
            } else {
                0xffff_ffff
            };
            &&& s1 is Fetch && s2 is Fetch && s3 is Fetch && s4 is Fetch && s5 is Fetch
            &&& s6 is Done
            &&& s6->Done_0.pages == pages
            &&& s6->Done_0.max_winners_per_page == winners
            &&& s6->Done_0.max_backers_per_winner == backers
            &&& s6->Done_0.voter_snapshot_per_block == voters
            &&& s6->Done_0.target_snapshot_per_block == targets
            &&& -50 < 75 * total - 100 * s6->Done_0.max_length <= 50
        }),
{
}

/// A whole run of fetching, where only the number of pages can be had: every other constant has
/// its default.
pub proof fn law_defaults_without_replies<E>(pages: u32, error: E)
    ensures
        ({
            let s0 = ConstantsFetch::spec_start();
            let s1 = s0.spec_on_reply(ConstantReply::<E>::Number(pages));
            let s2 = s1->Fetch_0.spec_on_reply(ConstantReply::Failed(error));
            let s3 = s2->Fetch_0.spec_on_reply(ConstantReply::Failed(error));
            let s4 = s3->Fetch_0.spec_on_reply(ConstantReply::Failed(error));
            let s5 = s4->Fetch_0.spec_on_reply(ConstantReply::Failed(error));
            let s6 = s5->Fetch_0.spec_on_reply(ConstantReply::Failed(error));
            &&& s1 is Fetch && s2 is Fetch && s3 is Fetch && s4 is Fetch && s5 is Fetch
            &&& s6 is Done
            &&& s6->Done_0.pages == pages
            &&& s6->Done_0.max_winners_per_page == 256
            &&& s6->Done_0.max_backers_per_winner == 0xffff_ffff
            &&& s6->Done_0.voter_snapshot_per_block == 100
            &&& s6->Done_0.target_snapshot_per_block == 100
            &&& s6->Done_0.max_length == 4
        }),
{
}

/// Each reply fills the constant that was wanted and leaves all others as they were, whatever has
/// been fetched so far; the constants are wanted in one fixed order.
pub proof fn law_a_reply_fills_one_constant<E>(fetch: ConstantsFetch, n: u32, error: E)
    ensures
        ({
            let got = fetch.spec_on_reply(ConstantReply::<E>::Number(n));
            let failed = fetch.spec_on_reply(ConstantReply::Failed(error));
            let g = got->Fetch_0;
            let f = failed->Fetch_0;
            let r = fetch.replies;
            &&& fetch.wanted == ChainConstant::Pages ==> got is Fetch && failed
                == ConstantsStep::<E>::Failed(error) && g.pages == n && g.replies == r && g.wanted
                == ChainConstant::MaxWinnersPerPage
            &&& fetch.wanted == ChainConstant::MaxWinnersPerPage ==> {
                &&& got is Fetch && g.pages == fetch.pages && g.wanted
                    == ChainConstant::MaxBackersPerWinner
                &&& g.replies == (ConstantReplies { max_winners_per_page: Some(n), ..r })
                &&& failed is Fetch && f.pages == fetch.pages && f.wanted == g.wanted
                &&& f.replies == (ConstantReplies { max_winners_per_page: None, ..r })
            }
            &&& fetch.wanted == ChainConstant::MaxBackersPerWinner ==> {
                &&& got is Fetch && g.pages == fetch.pages && g.wanted
                    == ChainConstant::VoterSnapshotPerBlock
                &&& g.replies == (ConstantReplies { max_backers_per_winner: Some(n), ..r })
                &&& failed is Fetch && f.pages == fetch.pages && f.wanted == g.wanted
                &&& f.replies == (ConstantReplies { max_backers_per_winner: None, ..r })
            }
            &&& fetch.wanted == ChainConstant::VoterSnapshotPerBlock ==> {
                &&& got is Fetch && g.pages == fetch.pages && g.wanted
                    == ChainConstant::TargetSnapshotPerBlock
                &&& g.replies == (ConstantReplies { voter_snapshot_per_block: Some(n), ..r })
                &&& failed is Fetch && f.pages == fetch.pages && f.wanted == g.wanted
                &&& f.replies == (ConstantReplies { voter_snapshot_per_block: None, ..r })
            }
            &&& fetch.wanted == ChainConstant::TargetSnapshotPerBlock ==> {
                &&& got is Fetch && g.pages == fetch.pages && g.wanted == ChainConstant::BlockLength
                &&& g.replies == (ConstantReplies { target_snapshot_per_block: Some(n), ..r })
                &&& failed is Fetch && f.pages == fetch.pages && f.wanted == g.wanted
                &&& f.replies == (ConstantReplies { target_snapshot_per_block: None, ..r })
            }
        }),
{
}

/// The last reply completes the constants: those fetched before it stay as they were replied.
pub proof fn law_the_last_reply_completes<E>(fetch: ConstantsFetch, length: BlockLength, error: E)
    requires
        fetch.wanted == ChainConstant::BlockLength,
    ensures
        fetch.spec_on_reply(ConstantReply::<E>::Length(length)) == ConstantsStep::<E>::Done(
            MinerConstants::spec_from_replies(
                fetch.pages,
                ConstantReplies { block_length: Some(length), ..fetch.replies },
            ),
        ),
        fetch.spec_on_reply(ConstantReply::Failed(error)) == ConstantsStep::<E>::Done(
            MinerConstants::spec_from_replies(
                fetch.pages,
                ConstantReplies { block_length: None, ..fetch.replies },
            ),
        ),
{
}

/// Where the constants are asked for.
pub proof fn law_constants_have_their_names()
    ensures
        ChainConstant::Pages.spec_pallet() == "MultiBlockElection"@,
        ChainConstant::Pages.spec_name() == "Pages"@,
        ChainConstant::MaxWinnersPerPage.spec_pallet() == "MultiBlockElectionVerifier"@,
        ChainConstant::MaxWinnersPerPage.spec_name() == "MaxWinnersPerPage"@,
        ChainConstant::MaxBackersPerWinner.spec_pallet() == "MultiBlockElectionVerifier"@,
        ChainConstant::MaxBackersPerWinner.spec_name() == "MaxBackersPerWinner"@,
        ChainConstant::VoterSnapshotPerBlock.spec_pallet() == "MultiBlockElection"@,
        ChainConstant::VoterSnapshotPerBlock.spec_name() == "VoterSnapshotPerBlock"@,
        ChainConstant::TargetSnapshotPerBlock.spec_pallet() == "MultiBlockElection"@,
        ChainConstant::TargetSnapshotPerBlock.spec_name() == "TargetSnapshotPerBlock"@,
        ChainConstant::BlockLength.spec_pallet() == "System"@,
        ChainConstant::BlockLength.spec_name() == "BlockLength"@,
{
}

/// Initialising sets the constants that stand in only where none are set.
pub proof fn law_initialized_constants(constants: MinerConstants)
    ensures
        miner_config::initialized(Some(constants)) == Some(constants),
        miner_config::initialized(None) == Some(
            MinerConstants {
                pages: 1,
                max_winners_per_page: 1,
                max_backers_per_winner: 1,
                voter_snapshot_per_block: 2,
                target_snapshot_per_block: 2,
                max_length: 100_000_000,
            },
        ),
{
}

/// Settings are what is asked for. Where no number of votes is, it is 24 on Kusama and 16
/// elsewhere.
pub proof fn law_settings_are_what_is_asked_for(
    chain: Chain,
    algorithm: Algorithm,
    iterations: usize,
    votes: u32,
)
    ensures
        ElectionConfig::spec_new(chain, algorithm, iterations, Some(votes)) == (ElectionConfig {
            algorithm,
            iterations,
            max_votes_per_voter: votes,
        }),
        ElectionConfig::spec_new(chain, algorithm, iterations, None) == (ElectionConfig {
            algorithm,
            iterations,
            max_votes_per_voter: if chain == Chain::Kusama {
                24
            } else {
                16
            },
        }),
{
}

/// The settings that hold are those of the task, if it has any, and else those for all. Setting
/// the one leaves the other alone.
pub proof fn law_settings_that_hold(
    mine: ElectionConfig,
    others: ElectionConfig,
    state: ElectionState,
)
    ensures
        (ElectionState { scoped: Some(mine), fallback: others }).spec_current() == mine,
        (ElectionState { scoped: None, fallback: others }).spec_current() == others,
        state.spec_with_fallback(others).fallback == others,
        state.spec_with_fallback(others).scoped == state.scoped,
        state.spec_with_scope(mine).scoped == Some(mine),
        state.spec_with_scope(mine).fallback == state.fallback,
{
}

/// As many balancing iterations are made as are asked for, however many, down to any difference;
/// with none there is no balancing.
pub proof fn law_balancing_is_what_is_asked_for(config: ElectionConfig)
    ensures
        config.iterations > 0 ==> BalancingIterations::spec_get(config) == Some(
            BalancingConfig { iterations: config.iterations, tolerance: 0 },
        ),
        config.iterations == 0 ==> BalancingIterations::spec_get(config) is None,
{
}

/// An election is solved for just the seats, targets, voters and balancing that are given, by the
/// algorithm that is given.
pub proof fn law_elections_are_solved_as_given(
    to_elect: usize,
    targets: Seq<Seq<u8>>,
    voters: Seq<(Seq<u8>, u64, Seq<Seq<u8>>)>,
    iterations: usize,
    tolerance: u128,
)
    ensures
        miner_config::outcome_of(Algorithm::SeqPhragmen, to_elect, targets, voters, None)
            == miner_config::seq_phragmen_outcome(to_elect, targets, voters, None),
        miner_config::outcome_of(Algorithm::Phragmms, to_elect, targets, voters, None)
            == miner_config::phragmms_outcome(to_elect, targets, voters, None),
        miner_config::outcome_of(
            Algorithm::SeqPhragmen,
            to_elect,
            targets,
            voters,
            Some(BalancingConfig { iterations, tolerance }),
        ) == miner_config::seq_phragmen_outcome(
            to_elect,
            targets,
            voters,
            Some((iterations, tolerance)),
        ),
        miner_config::outcome_of(
            Algorithm::Phragmms,
            to_elect,
            targets,
            voters,
            Some(BalancingConfig { iterations, tolerance }),
        ) == miner_config::phragmms_outcome(
            to_elect,
            targets,
            voters,
            Some((iterations, tolerance)),
        ),
        miner_config::balancing_numbers(None) is None,
        miner_config::balancing_numbers(Some(BalancingConfig { iterations, tolerance })) == Some(
            (iterations, tolerance),
        ),
{
}

/// What is reported is the outcome itself: its winners and its assignments, or that there is none.
pub proof fn law_outcomes_are_reported_whole(
    r: Result<ElectionResult, SolverError>,
    outcome: (Seq<(Seq<u8>, u128)>, Seq<(Seq<u8>, Seq<(Seq<u8>, u32)>)>),
)
    ensures
        miner_config::reports(r, Some(outcome)) <==> r is Ok && r->Ok_0@ == outcome,
        miner_config::reports(r, None) <==> r == Err::<ElectionResult, SolverError>(
            SolverError::ArithmeticError,
        ),
{
}

/// A result says its winners with the stake behind each, and its assignments with the shares of
/// each, one by one and in order.
pub proof fn law_results_say_their_fields(r: ElectionResult, i: int, j: int)
    ensures
        r@.0.len() == r.winners@.len(),
        0 <= i < r.winners@.len() ==> r@.0[i] == (r.winners@[i].0@, r.winners@[i].1),
        r@.1.len() == r.assignments@.len(),
        0 <= i < r.assignments@.len() ==> {
            let a = r.assignments@[i];
            &&& r@.1[i].0 == a.0@
            &&& r@.1[i].1.len() == a.1@.len()
            &&& 0 <= j < a.1@.len() ==> r@.1[i].1[j] == (a.1@[j].0@, a.1@[j].1)
        },
{
}

} // verus!
