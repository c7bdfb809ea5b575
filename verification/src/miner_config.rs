//! The settings of an election: the chain's constants, the algorithm, and the solver.

use crate::decode_error;
use crate::decode_error::{DecodeError, Fault, Part};
use crate::models::{Algorithm, Chain};
use crate::multi_block_state_client;
use crate::multi_block_state_client::VoterData;
use crate::primitives::AccountId;
use crate::scale;
use sp_runtime::{Perbill, Percent};
use vstd::prelude::*;

pub mod kusama;
pub mod polkadot;
pub mod substrate;

verus! {

/// The constants of a chain that its elections go by.
#[derive(Debug, Clone, Copy, PartialEq, Eq, Structural)]
pub struct MinerConstants {
    pub pages: u32,
    pub max_winners_per_page: u32,
    pub max_backers_per_winner: u32,
    pub voter_snapshot_per_block: u32,
    pub target_snapshot_per_block: u32,
    pub max_length: u32,
}

/// A limit on the length of each class of the transactions of a block.
#[derive(Debug, Clone, Copy, PartialEq, Eq, Structural)]
pub struct PerDispatchClass {
    pub normal: u32,
    pub operational: u32,
    pub mandatory: u32,
}

/// The limits on the length of a block.
#[derive(Debug, Clone, Copy, PartialEq, Eq, Structural)]
pub struct BlockLength {
    pub max: PerDispatchClass,
}

impl BlockLength {
    /// The sum over the classes, cut off at the greatest `u32`.
    pub open spec fn spec_total(self) -> u32 {
        let sum = self.max.normal + self.max.operational + self.max.mandatory;
        if sum > u32::MAX {
            u32::MAX
        } else {
            sum as u32
        }
    }

    /// The sum over the classes, cut off at the greatest `u32`.
    pub fn total(&self) -> (r: u32)
        ensures
            r == self.spec_total(),
    {
        let mut total: u32 = 0;
        total = total.saturating_add(self.max.normal);
        total = total.saturating_add(self.max.operational);
        total = total.saturating_add(self.max.mandatory);
        total
    }
}

/// Reads the limits on the length of a block: one number for each class.
pub open spec fn parse_block_length(b: Seq<u8>) -> Option<BlockLength> {
    if b.len() >= 12 {
        Some(
            BlockLength {
                max: PerDispatchClass {
                    normal: scale::le(b.subrange(0, 4)) as u32,
                    operational: scale::le(b.subrange(4, 8)) as u32,
                    mandatory: scale::le(b.subrange(8, 12)) as u32,
                },
            },
        )
    } else {
        None
    }
}

/// Why bytes are no limits on the length of a block: the first class whose number is cut short.
pub open spec fn block_length_error(b: Seq<u8>) -> DecodeError {
    decode_error::deep_within(
        Part::BlockLengthMax,
        if b.len() < 4 {
            Part::ClassNormal
        } else if b.len() < 8 {
            Part::ClassOperational
        } else {
            Part::ClassMandatory
        },
        Fault::NotEnoughData,
    )
}

impl BlockLength {
    /// Reads the limits from their encoding.
    pub fn decode(bytes: &[u8]) -> (r: Result<BlockLength, DecodeError>)
        ensures
            r == match parse_block_length(bytes@) {
                Some(v) => Ok::<BlockLength, DecodeError>(v),
                None => Err(block_length_error(bytes@)),
            },
    {
        let mut error = DecodeError {
            field: Some(Part::BlockLengthMax),
            inner: Some(Part::ClassNormal),
            fault: Fault::NotEnoughData,
        };
        let (normal, b1) = match scale::decode_u32(bytes) {
            Some(x) => x,
            None => return Err(error),
        };
        error.inner = Some(Part::ClassOperational);
        let (operational, b2) = match scale::decode_u32(b1) {
            Some(x) => x,
            None => return Err(error),
        };
        error.inner = Some(Part::ClassMandatory);
        match scale::decode_u32(b2) {
            Some((mandatory, _)) => {
                proof {
                    assert(bytes@.take(4) =~= bytes@.subrange(0, 4));
                    assert(b1@.take(4) =~= bytes@.subrange(4, 8));
                    assert(b2@.take(4) =~= bytes@.subrange(8, 12));
                }
                Ok(BlockLength { max: PerDispatchClass { normal, operational, mandatory } })
            },
            None => Err(error),
        }
    }
}

/// A constant that is asked of the chain.
#[derive(Debug, Clone, Copy, PartialEq, Eq, Structural)]
pub enum ChainConstant {
    Pages,
    MaxWinnersPerPage,
    MaxBackersPerWinner,
    VoterSnapshotPerBlock,
    TargetSnapshotPerBlock,
    BlockLength,
}

impl ChainConstant {
    /// The pallet that defines the constant.
    pub open spec fn spec_pallet(self) -> Seq<char> {
        match self {
            ChainConstant::Pages | ChainConstant::VoterSnapshotPerBlock
            | ChainConstant::TargetSnapshotPerBlock => "MultiBlockElection"@,
            ChainConstant::MaxWinnersPerPage
            | ChainConstant::MaxBackersPerWinner => "MultiBlockElectionVerifier"@,
            ChainConstant::BlockLength => "System"@,
        }
    }

    /// The name of the constant in its pallet.
    pub open spec fn spec_name(self) -> Seq<char> {
        match self {
            ChainConstant::Pages => "Pages"@,
            ChainConstant::MaxWinnersPerPage => "MaxWinnersPerPage"@,
            ChainConstant::MaxBackersPerWinner => "MaxBackersPerWinner"@,
            ChainConstant::VoterSnapshotPerBlock => "VoterSnapshotPerBlock"@,
            ChainConstant::TargetSnapshotPerBlock => "TargetSnapshotPerBlock"@,
            ChainConstant::BlockLength => "BlockLength"@,
        }
    }

    /// The pallet that defines the constant.
    pub fn pallet(&self) -> (r: &'static str)
        ensures
            r@ == self.spec_pallet(),
    {
        match *self {
            ChainConstant::Pages | ChainConstant::VoterSnapshotPerBlock
            | ChainConstant::TargetSnapshotPerBlock => "MultiBlockElection",
            ChainConstant::MaxWinnersPerPage
            | ChainConstant::MaxBackersPerWinner => "MultiBlockElectionVerifier",
            ChainConstant::BlockLength => "System",
        }
    }

    /// The name of the constant in its pallet.
    pub fn name(&self) -> (r: &'static str)
        ensures
            r@ == self.spec_name(),
    {
        match *self {
            ChainConstant::Pages => "Pages",
            ChainConstant::MaxWinnersPerPage => "MaxWinnersPerPage",
            ChainConstant::MaxBackersPerWinner => "MaxBackersPerWinner",
            ChainConstant::VoterSnapshotPerBlock => "VoterSnapshotPerBlock",
            ChainConstant::TargetSnapshotPerBlock => "TargetSnapshotPerBlock",
            ChainConstant::BlockLength => "BlockLength",
        }
    }
}

/// What the chain replied to the requests for the constants that have a default. `None` is a
/// request that failed.
#[derive(Debug, Clone, Copy, PartialEq, Eq, Structural)]
pub struct ConstantReplies {
    pub max_winners_per_page: Option<u32>,
    pub max_backers_per_winner: Option<u32>,
    pub voter_snapshot_per_block: Option<u32>,
    pub target_snapshot_per_block: Option<u32>,
    pub block_length: Option<BlockLength>,
}

/// The part of `percent` in a hundred of `n`, rounded to the nearest number, a half down.
pub open spec fn percentage(percent: int, n: int) -> int {
    (percent * n + 49) / 100
}

/// `Percent::from_percent` of `sp_runtime` and the product with a `u32`: the part of `percent` in
/// a hundred of `n`, rounded to the nearest number, a half down.
#[verifier::external_body]
fn percent_of(percent: u8, n: u32) -> (r: u32)
    requires
        percent <= 100,
    ensures
        r == percentage(percent as int, n as int),
{
    Percent::from_percent(percent) * n
}

impl MinerConstants {
    /// The constants that go by the number of pages and the replies for the rest: what failed is
    /// replaced by its default, and a page may take up three quarters of a block.
    pub open spec fn spec_from_replies(pages: u32, replies: ConstantReplies) -> MinerConstants {
        let block_length = match replies.block_length {
            Some(b) => b,
            None => BlockLength {
                max: PerDispatchClass { normal: 1, operational: 2, mandatory: 3 },
            },
        };
        MinerConstants {
            pages,
            max_winners_per_page: match replies.max_winners_per_page {
                Some(n) => n,
                None => 256,
            },
            max_backers_per_winner: match replies.max_backers_per_winner {
                Some(n) => n,
                None => u32::MAX,
            },
            voter_snapshot_per_block: match replies.voter_snapshot_per_block {
                Some(n) => n,
                None => 100,
            },
            target_snapshot_per_block: match replies.target_snapshot_per_block {
                Some(n) => n,
                None => 100,
            },
            max_length: percentage(75, block_length.spec_total() as int) as u32,
        }
    }

    /// The constants that go by the number of pages and the replies for the rest.
    pub fn from_replies(pages: u32, replies: ConstantReplies) -> (r: MinerConstants)
        ensures
            r == MinerConstants::spec_from_replies(pages, replies),
    {
        let block_length = replies.block_length.unwrap_or(
            BlockLength { max: PerDispatchClass { normal: 1, operational: 2, mandatory: 3 } },
        );
        MinerConstants {
            pages,
            max_winners_per_page: replies.max_winners_per_page.unwrap_or(256),
            max_backers_per_winner: replies.max_backers_per_winner.unwrap_or(u32::MAX),
            voter_snapshot_per_block: replies.voter_snapshot_per_block.unwrap_or(100),
            target_snapshot_per_block: replies.target_snapshot_per_block.unwrap_or(100),
            max_length: percent_of(75, block_length.total()),
        }
    }
}

/// A solution may fill no more than the block: its greatest length is three quarters of the sum
/// over the classes, to the nearest byte.
pub proof fn law_max_length_within_block(pages: u32, replies: ConstantReplies, length: BlockLength)
    requires
        replies.block_length == Some(length),
    ensures
        ({
            let max = MinerConstants::spec_from_replies(pages, replies).max_length;
            &&& max <= length.spec_total()
            &&& -2 <= 4 * max - 3 * length.spec_total() <= 2
        }),
{
}

/// The reply to the request for a constant.
#[derive(Debug, Clone, Copy)]
pub enum ConstantReply<E> {
    Number(u32),
    Length(BlockLength),
    Failed(E),
}

/// Constants that are being fetched: the one that is wanted next, and the replies so far.
#[derive(Debug, Clone, Copy, PartialEq, Eq, Structural)]
pub struct ConstantsFetch {
    pub wanted: ChainConstant,
    pub pages: u32,
    pub replies: ConstantReplies,
}

/// What a reply leads to.
#[derive(Debug, Clone, Copy)]
pub enum ConstantsStep<E> {
    /// The next constant is wanted.
    Fetch(ConstantsFetch),
    /// All constants are there.
    Done(MinerConstants),
    /// The constants cannot be had.
    Failed(E),
}

/// Whether a reply is of the type of the constant that was asked for.
pub open spec fn reply_fits<E>(wanted: ChainConstant, reply: ConstantReply<E>) -> bool {
    match reply {
        ConstantReply::Number(_) => wanted != ChainConstant::BlockLength,
        ConstantReply::Length(_) => wanted == ChainConstant::BlockLength,
        ConstantReply::Failed(_) => true,
    }
}

/// The number in a reply.
pub open spec fn reply_number<E>(reply: ConstantReply<E>) -> Option<u32> {
    match reply {
        ConstantReply::Number(n) => Some(n),
        _ => None,
    }
}

/// The limits in a reply.
pub open spec fn reply_length<E>(reply: ConstantReply<E>) -> Option<BlockLength> {
    match reply {
        ConstantReply::Length(l) => Some(l),
        _ => None,
    }
}

impl ConstantsFetch {
    /// Nothing fetched yet.
    pub open spec fn spec_start() -> ConstantsFetch {
        ConstantsFetch {
            wanted: ChainConstant::Pages,
            pages: 0,
            replies: ConstantReplies {
                max_winners_per_page: None,
                max_backers_per_winner: None,
                voter_snapshot_per_block: None,
                target_snapshot_per_block: None,
                block_length: None,
            },
        }
    }

    /// Nothing fetched yet: the number of pages comes first.
    pub fn start() -> (r: ConstantsFetch)
        ensures
            r == ConstantsFetch::spec_start(),
    {
        ConstantsFetch {
            wanted: ChainConstant::Pages,
            pages: 0,
            replies: ConstantReplies {
                max_winners_per_page: None,
                max_backers_per_winner: None,
                voter_snapshot_per_block: None,
                target_snapshot_per_block: None,
                block_length: None,
            },
        }
    }

    /// What a reply leads to. There is no election without the number of pages; any other
    /// constant that fails is left to its default.
    pub open spec fn spec_on_reply<E>(self, reply: ConstantReply<E>) -> ConstantsStep<E> {
        match self.wanted {
            ChainConstant::Pages => match reply {
                ConstantReply::Failed(e) => ConstantsStep::Failed(e),
                _ => ConstantsStep::Fetch(
                    ConstantsFetch {
                        wanted: ChainConstant::MaxWinnersPerPage,
                        pages: reply_number(reply)->0,
                        ..self
                    },
                ),
            },
            ChainConstant::MaxWinnersPerPage => ConstantsStep::Fetch(
                ConstantsFetch {
                    wanted: ChainConstant::MaxBackersPerWinner,
                    replies: ConstantReplies {
                        max_winners_per_page: reply_number(reply),
                        ..self.replies
                    },
                    ..self
                },
            ),
            ChainConstant::MaxBackersPerWinner => ConstantsStep::Fetch(
                ConstantsFetch {
                    wanted: ChainConstant::VoterSnapshotPerBlock,
                    replies: ConstantReplies {
                        max_backers_per_winner: reply_number(reply),
                        ..self.replies
                    },
                    ..self
                },
            ),
            ChainConstant::VoterSnapshotPerBlock => ConstantsStep::Fetch(
                ConstantsFetch {
                    wanted: ChainConstant::TargetSnapshotPerBlock,
                    replies: ConstantReplies {
                        voter_snapshot_per_block: reply_number(reply),
                        ..self.replies
                    },
                    ..self
                },
            ),
            ChainConstant::TargetSnapshotPerBlock => ConstantsStep::Fetch(
                ConstantsFetch {
                    wanted: ChainConstant::BlockLength,
                    replies: ConstantReplies {
                        target_snapshot_per_block: reply_number(reply),
                        ..self.replies
                    },
                    ..self
                },
            ),
            ChainConstant::BlockLength => ConstantsStep::Done(
                MinerConstants::spec_from_replies(
                    self.pages,
                    ConstantReplies { block_length: reply_length(reply), ..self.replies },
                ),
            ),
        }
    }

    /// Takes the reply to the request for the constant that is wanted.
    pub fn on_reply<E>(self, reply: ConstantReply<E>) -> (r: ConstantsStep<E>)
        requires
            reply_fits(self.wanted, reply),
        ensures
            r == self.spec_on_reply(reply),
    {
        let mut next = self;
        let (number, length): (Option<u32>, Option<BlockLength>) = match reply {
            ConstantReply::Number(n) => (Some(n), None),
            ConstantReply::Length(l) => (None, Some(l)),
            ConstantReply::Failed(e) => {
                if let ChainConstant::Pages = self.wanted {
                    return ConstantsStep::Failed(e);
                }
                (None, None)
            },
        };
        match self.wanted {
            ChainConstant::Pages => {
                next.wanted = ChainConstant::MaxWinnersPerPage;
                if let Some(pages) = number {
                    next.pages = pages;
                }
            },
            ChainConstant::MaxWinnersPerPage => {
                next.wanted = ChainConstant::MaxBackersPerWinner;
                next.replies.max_winners_per_page = number;
            },
            ChainConstant::MaxBackersPerWinner => {
                next.wanted = ChainConstant::VoterSnapshotPerBlock;
                next.replies.max_backers_per_winner = number;
            },
            ChainConstant::VoterSnapshotPerBlock => {
                next.wanted = ChainConstant::TargetSnapshotPerBlock;
                next.replies.voter_snapshot_per_block = number;
            },
            ChainConstant::TargetSnapshotPerBlock => {
                next.wanted = ChainConstant::BlockLength;
                next.replies.target_snapshot_per_block = number;
            },
            ChainConstant::BlockLength => {
                next.replies.block_length = length;
                return ConstantsStep::Done(MinerConstants::from_replies(next.pages, next.replies));
            },
        }
        ConstantsStep::Fetch(next)
    }
}

/// Fetching ends with the first reply where the number of pages cannot be had.
pub proof fn law_no_constants_without_pages<E>(error: E)
    ensures
        ConstantsFetch::spec_start().spec_on_reply(ConstantReply::Failed(error))
            == ConstantsStep::<E>::Failed(error),
{
}

/// Once the number of pages is there, fetching ends after one reply to each of the other requests,
/// whatever they are, with the constants that go by those replies.
pub proof fn law_constants_follow_from_replies<E>(
    pages: u32,
    max_winners_per_page: ConstantReply<E>,
    max_backers_per_winner: ConstantReply<E>,
    voter_snapshot_per_block: ConstantReply<E>,
    target_snapshot_per_block: ConstantReply<E>,
    block_length: ConstantReply<E>,
)
    requires
        reply_fits(ChainConstant::MaxWinnersPerPage, max_winners_per_page),
        reply_fits(ChainConstant::MaxBackersPerWinner, max_backers_per_winner),
        reply_fits(ChainConstant::VoterSnapshotPerBlock, voter_snapshot_per_block),
        reply_fits(ChainConstant::TargetSnapshotPerBlock, target_snapshot_per_block),
        reply_fits(ChainConstant::BlockLength, block_length),
    ensures
        ({
            let s0 = ConstantsFetch::spec_start().spec_on_reply(ConstantReply::<E>::Number(pages));
            let s1 = s0->Fetch_0.spec_on_reply(max_winners_per_page);
            let s2 = s1->Fetch_0.spec_on_reply(max_backers_per_winner);
            let s3 = s2->Fetch_0.spec_on_reply(voter_snapshot_per_block);
            let s4 = s3->Fetch_0.spec_on_reply(target_snapshot_per_block);
            &&& s0 is Fetch && s1 is Fetch && s2 is Fetch && s3 is Fetch && s4 is Fetch
            &&& s0->Fetch_0.wanted == ChainConstant::MaxWinnersPerPage
            &&& s1->Fetch_0.wanted == ChainConstant::MaxBackersPerWinner
            &&& s2->Fetch_0.wanted == ChainConstant::VoterSnapshotPerBlock
            &&& s3->Fetch_0.wanted == ChainConstant::TargetSnapshotPerBlock
            &&& s4->Fetch_0.wanted == ChainConstant::BlockLength
            &&& s4->Fetch_0.spec_on_reply(block_length) == ConstantsStep::<E>::Done(
                MinerConstants::spec_from_replies(
                    pages,
                    ConstantReplies {
                        max_winners_per_page: reply_number(max_winners_per_page),
                        max_backers_per_winner: reply_number(max_backers_per_winner),
                        voter_snapshot_per_block: reply_number(voter_snapshot_per_block),
                        target_snapshot_per_block: reply_number(target_snapshot_per_block),
                        block_length: reply_length(block_length),
                    },
                ),
            )
        }),
{
}

/// Holds the constants of the chain, which are set once.
pub struct RuntimeConfig {
    constants: Option<MinerConstants>,
}

impl View for RuntimeConfig {
    type V = Option<MinerConstants>;

    closed spec fn view(&self) -> Option<MinerConstants> {
        self.constants
    }
}

impl RuntimeConfig {
    /// No constants set yet.
    pub fn new() -> (r: RuntimeConfig)
        ensures
            r@ is None,
    {
        RuntimeConfig { constants: None }
    }

    /// Whether the constants are set.
    pub fn is_set(&self) -> (r: bool)
        ensures
            r == self@ is Some,
    {
        self.constants.is_some()
    }
}

/// Sets the constants of the chain. They must not be set yet.
pub fn set_runtime_constants(config: &mut RuntimeConfig, constants: MinerConstants)
    requires
        old(config)@ is None,
    ensures
        final(config)@ == Some(constants),
{
    config.constants = Some(constants);
}

/// The constants that stand in for those of a chain where there is none.
pub open spec fn stand_in_constants() -> MinerConstants {
    MinerConstants {
        pages: 1,
        max_winners_per_page: 1,
        max_backers_per_winner: 1,
        voter_snapshot_per_block: 2,
        target_snapshot_per_block: 2,
        max_length: 100000000,
    }
}

/// The constants once there are some: those that are set already, or those that stand in.
pub open spec fn initialized(constants: Option<MinerConstants>) -> Option<MinerConstants> {
    match constants {
        Some(constants) => Some(constants),
        None => Some(stand_in_constants()),
    }
}

/// Sets constants that can be worked with where there is no chain. Constants that are already set
/// are left alone.
pub fn initialize_runtime_constants(config: &mut RuntimeConfig)
    ensures
        final(config)@ == initialized(old(config)@),
{
    if !config.is_set() {
        set_runtime_constants(
            config,
            MinerConstants {
                pages: 1,
                max_winners_per_page: 1,
                max_backers_per_winner: 1,
                voter_snapshot_per_block: 2,
                target_snapshot_per_block: 2,
                max_length: 100000000,
            },
        );
    }
}

/// Initialising never replaces constants: it keeps those of a chain, and doing it again changes
/// nothing.
pub proof fn law_initialize_keeps_constants(
    constants: Option<MinerConstants>,
    chain: MinerConstants,
)
    ensures
        initialized(Some(chain)) == Some(chain),
        initialized(initialized(constants)) == initialized(constants),
{
}

/// The constants of the chain. They must be set.
pub fn get_runtime_constants(config: &RuntimeConfig) -> (r: &MinerConstants)
    requires
        config@ is Some,
    ensures
        config@ == Some(*r),
{
    config.constants.as_ref().expect(
        "Runtime constants not set - call set_runtime_constants first",
    )
}

/// How an election is to be solved.
#[derive(Debug, Clone, Copy, PartialEq, Eq, Structural)]
pub struct ElectionConfig {
    pub algorithm: Algorithm,
    /// The number of balancing iterations.
    pub iterations: usize,
    pub max_votes_per_voter: u32,
}

/// How many votes a voter of the chain has.
pub open spec fn chain_max_votes(chain: Chain) -> u32 {
    match chain {
        Chain::Polkadot => 16,
        Chain::Kusama => 24,
        Chain::Substrate => 16,
    }
}

impl ElectionConfig {
    /// The settings as asked for, with the votes of the chain where no number is given.
    pub open spec fn spec_new(
        chain: Chain,
        algorithm: Algorithm,
        iterations: usize,
        max_votes_per_voter: Option<u32>,
    ) -> ElectionConfig {
        ElectionConfig {
            algorithm,
            iterations,
            max_votes_per_voter: match max_votes_per_voter {
                Some(n) => n,
                None => chain_max_votes(chain),
            },
        }
    }

    /// The settings as asked for, with the votes of the chain where no number is given.
    pub fn new(
        chain: Chain,
        algorithm: Algorithm,
        iterations: usize,
        max_votes_per_voter: Option<u32>,
    ) -> (r: ElectionConfig)
        ensures
            r == ElectionConfig::spec_new(chain, algorithm, iterations, max_votes_per_voter),
    {
        let max_votes_per_voter: u32 = if let Some(n) = max_votes_per_voter {
            n
        } else {
            match chain {
                Chain::Polkadot => 16,
                Chain::Kusama => 24,
                Chain::Substrate => 16,
            }
        };
        ElectionConfig { algorithm, iterations, max_votes_per_voter }
    }
}

/// The settings that a task sees: its own, if it runs under any, and those for all tasks without.
#[derive(Debug, Clone, Copy, PartialEq, Eq, Structural)]
pub struct ElectionState {
    pub scoped: Option<ElectionConfig>,
    pub fallback: ElectionConfig,
}

impl ElectionState {
    /// The settings that hold.
    pub open spec fn spec_current(self) -> ElectionConfig {
        match self.scoped {
            Some(config) => config,
            None => self.fallback,
        }
    }

    /// What is seen once `config` is set for all tasks.
    pub open spec fn spec_with_fallback(self, config: ElectionConfig) -> ElectionState {
        ElectionState { fallback: config, ..self }
    }

    /// What a task sees that runs under `config`.
    pub open spec fn spec_with_scope(self, config: ElectionConfig) -> ElectionState {
        ElectionState { scoped: Some(config), ..self }
    }

    /// The settings at the start: sequential Phragmen without balancing, sixteen votes per voter.
    pub fn new() -> (r: ElectionState)
        ensures
            r.scoped is None,
            r.fallback == (ElectionConfig {
                algorithm: Algorithm::SeqPhragmen,
                iterations: 0,
                max_votes_per_voter: 16,
            }),
    {
        ElectionState {
            scoped: None,
            fallback: ElectionConfig {
                algorithm: Algorithm::SeqPhragmen,
                iterations: 0,
                max_votes_per_voter: 16,
            },
        }
    }

    /// The settings that hold.
    pub fn current(&self) -> (r: ElectionConfig)
        ensures
            r == self.spec_current(),
    {
        match self.scoped {
            Some(config) => config,
            None => self.fallback,
        }
    }
}

/// Sets the settings for all tasks that have none of their own.
pub fn set_election_config(
    state: &mut ElectionState,
    chain: Chain,
    algorithm: Algorithm,
    iterations: usize,
    max_votes_per_voter: Option<u32>,
)
    ensures
        *final(state) == old(state).spec_with_fallback(
            ElectionConfig::spec_new(chain, algorithm, iterations, max_votes_per_voter),
        ),
{
    state.fallback = ElectionConfig::new(chain, algorithm, iterations, max_votes_per_voter);
}

/// What a task sees that runs under settings of its own.
pub fn with_election_config(
    state: &ElectionState,
    chain: Chain,
    algorithm: Algorithm,
    iterations: usize,
    max_votes_per_voter: Option<u32>,
) -> (r: ElectionState)
    ensures
        r == state.spec_with_scope(
            ElectionConfig::spec_new(chain, algorithm, iterations, max_votes_per_voter),
        ),
{
    ElectionState {
        scoped: Some(ElectionConfig::new(chain, algorithm, iterations, max_votes_per_voter)),
        fallback: state.fallback,
    }
}

/// The algorithm that is selected.
pub fn get_current_algorithm(state: &ElectionState) -> (r: Algorithm)
    ensures
        r == state.spec_current().algorithm,
{
    state.current().algorithm
}

/// A task that runs under settings of its own sees them: neither what is set for all tasks, before
/// or after, nor the settings that another task runs under, nor those of a task around it, reach
/// it.
pub proof fn law_scoped_settings_are_isolated(
    state: ElectionState,
    mine: ElectionConfig,
    theirs: ElectionConfig,
    fallback: ElectionConfig,
)
    ensures
        state.spec_with_scope(mine).spec_current() == mine,
        state.spec_with_fallback(fallback).spec_with_scope(mine).spec_current() == mine,
        state.spec_with_scope(mine).spec_with_fallback(fallback).spec_current() == mine,
        state.spec_with_scope(theirs).spec_current() == theirs,
        state.spec_with_scope(theirs).spec_with_scope(mine).spec_current() == mine,
{
}

/// A task without settings of its own sees what was set last for all.
pub proof fn law_fallback_settings_hold_without_scope(
    state: ElectionState,
    first: ElectionConfig,
    last: ElectionConfig,
)
    requires
        state.scoped is None,
    ensures
        state.spec_with_fallback(first).spec_with_fallback(last).spec_current() == last,
{
}

/// The number of pages of an election.
pub struct Pages;

impl Pages {
    /// The number of pages of an election.
    pub fn get(config: &RuntimeConfig) -> (r: u32)
        requires
            config@ is Some,
        ensures
            r == config@->0.pages,
    {
        get_runtime_constants(config).pages
    }
}

/// The most winners on a page.
pub struct MaxWinnersPerPage;

impl MaxWinnersPerPage {
    /// The most winners on a page.
    pub fn get(config: &RuntimeConfig) -> (r: u32)
        requires
            config@ is Some,
        ensures
            r == config@->0.max_winners_per_page,
    {
        get_runtime_constants(config).max_winners_per_page
    }
}

/// The most backers of a winner.
pub struct MaxBackersPerWinner;

impl MaxBackersPerWinner {
    /// The most backers of a winner.
    pub fn get(config: &RuntimeConfig) -> (r: u32)
        requires
            config@ is Some,
        ensures
            r == config@->0.max_backers_per_winner,
    {
        get_runtime_constants(config).max_backers_per_winner
    }
}

/// The most voters on a page of the snapshot.
pub struct VoterSnapshotPerBlock;

impl VoterSnapshotPerBlock {
    /// The most voters on a page of the snapshot.
    pub fn get(config: &RuntimeConfig) -> (r: u32)
        requires
            config@ is Some,
        ensures
            r == config@->0.voter_snapshot_per_block,
    {
        get_runtime_constants(config).voter_snapshot_per_block
    }
}

/// The most targets on a page of the snapshot.
pub struct TargetSnapshotPerBlock;

impl TargetSnapshotPerBlock {
    /// The most targets on a page of the snapshot.
    pub fn get(config: &RuntimeConfig) -> (r: u32)
        requires
            config@ is Some,
        ensures
            r == config@->0.target_snapshot_per_block,
    {
        get_runtime_constants(config).target_snapshot_per_block
    }
}

/// The greatest length of a solution.
pub struct MaxLength;

impl MaxLength {
    /// The greatest length of a solution.
    pub fn get(config: &RuntimeConfig) -> (r: u32)
        requires
            config@ is Some,
        ensures
            r == config@->0.max_length,
    {
        get_runtime_constants(config).max_length
    }
}

/// The most votes of a voter.
pub struct MaxVotesPerVoter;

impl MaxVotesPerVoter {
    /// The most votes of a voter.
    pub fn get(state: &ElectionState) -> (r: u32)
        ensures
            r == state.spec_current().max_votes_per_voter,
    {
        state.current().max_votes_per_voter
    }
}

/// How the outcome of an election is balanced.
#[derive(Debug, Clone, Copy, PartialEq, Eq, Structural)]
pub struct BalancingConfig {
    pub iterations: usize,
    pub tolerance: u128,
}

/// The balancing that is asked for.
pub struct BalancingIterations;

impl BalancingIterations {
    /// The balancing that settings ask for: none where there are no iterations.
    pub open spec fn spec_get(config: ElectionConfig) -> Option<BalancingConfig> {
        if config.iterations > 0 {
            Some(BalancingConfig { iterations: config.iterations, tolerance: 0 })
        } else {
            None
        }
    }

    /// The balancing that is asked for: none where there are no iterations.
    pub fn get(state: &ElectionState) -> (r: Option<BalancingConfig>)
        ensures
            r == BalancingIterations::spec_get(state.spec_current()),
    {
        let iterations: usize = state.current().iterations;
        if iterations > 0 {
            Some(BalancingConfig { iterations, tolerance: 0 })
        } else {
            None
        }
    }
}

/// A voter and how its stake is shared out over the winners that it backs, in parts per billion.
pub type Assignment = (AccountId, Vec<(AccountId, u32)>);

/// The outcome of an election: the winners with the stake behind each, and what each voter gives.
#[derive(Debug, Clone)]
pub struct ElectionResult {
    pub winners: Vec<(AccountId, u128)>,
    pub assignments: Vec<Assignment>,
}

/// What an outcome says: its winners and its assignments.
pub type ElectionView = (Seq<(Seq<u8>, u128)>, Seq<(Seq<u8>, Seq<(Seq<u8>, u32)>)>);

/// What an assignment says.
pub open spec fn assignment(a: Assignment) -> (Seq<u8>, Seq<(Seq<u8>, u32)>) {
    (a.0@, Seq::new(a.1@.len(), |i: int| (a.1@[i].0@, a.1@[i].1)))
}

impl View for ElectionResult {
    type V = ElectionView;

    open spec fn view(&self) -> ElectionView {
        (
            Seq::new(self.winners@.len(), |i: int| (self.winners@[i].0@, self.winners@[i].1)),
            Seq::new(self.assignments@.len(), |i: int| assignment(self.assignments@[i])),
        )
    }
}

/// Why an election has no outcome: the shares of a voter cannot be made to add up.
#[derive(Debug, Clone, Copy, PartialEq, Eq, Structural)]
pub enum SolverError {
    ArithmeticError,
}

/// The balancing as plain numbers: the iterations and the tolerance.
pub open spec fn balancing_numbers(b: Option<BalancingConfig>) -> Option<(usize, u128)> {
    match b {
        Some(b) => Some((b.iterations, b.tolerance)),
        None => None,
    }
}

/// What `sp_npos_elections::seq_phragmen` returns: the winners with their backing, and for each
/// voter its shares in parts per billion; `None` where it fails.
pub uninterp spec fn seq_phragmen_outcome(
    to_elect: usize,
    targets: Seq<Seq<u8>>,
    voters: Seq<(Seq<u8>, u64, Seq<Seq<u8>>)>,
    balancing: Option<(usize, u128)>,
) -> Option<(Seq<(Seq<u8>, u128)>, Seq<(Seq<u8>, Seq<(Seq<u8>, u32)>)>)>;

/// What `sp_npos_elections::phragmms` returns: the winners with their backing, and for each voter
/// its shares in parts per billion; `None` where it fails.
pub uninterp spec fn phragmms_outcome(
    to_elect: usize,
    targets: Seq<Seq<u8>>,
    voters: Seq<(Seq<u8>, u64, Seq<Seq<u8>>)>,
    balancing: Option<(usize, u128)>,
) -> Option<(Seq<(Seq<u8>, u128)>, Seq<(Seq<u8>, Seq<(Seq<u8>, u32)>)>)>;

/// `sp_npos_elections::seq_phragmen` at an accuracy of one part per billion: its result is
/// [`seq_phragmen_outcome`] of the arguments. What that is for given arguments is not said.
#[verifier::external_body]
fn seq_phragmen(
    to_elect: usize,
    targets: Vec<AccountId>,
    voters: Vec<VoterData>,
    balancing: Option<BalancingConfig>,
) -> (r: Option<ElectionResult>)
    ensures
        match r {
            Some(x) => seq_phragmen_outcome(
                to_elect,
                scale::accounts(targets@),
                multi_block_state_client::voters(voters@),
                balancing_numbers(balancing),
            ) == Some(x@),
            None => seq_phragmen_outcome(
                to_elect,
                scale::accounts(targets@),
                multi_block_state_client::voters(voters@),
                balancing_numbers(balancing),
            ) is None,
        },
{
    let balancing = balancing.map(|b| sp_npos_elections::BalancingConfig {
        iterations: b.iterations,
        tolerance: b.tolerance,
    });
    let r: Result<sp_npos_elections::ElectionResult<_, Perbill>, _> =
        sp_npos_elections::seq_phragmen(to_elect, targets, voters, balancing);
    r.ok().map(|r| ElectionResult {
        winners: r.winners,
        assignments: r.assignments.into_iter().map(|a| {
            (a.who, a.distribution.into_iter().map(|(t, share)| (t, share.deconstruct())).collect())
        }).collect(),
    })
}

/// `sp_npos_elections::phragmms` at an accuracy of one part per billion: its result is
/// [`phragmms_outcome`] of the arguments. What that is for given arguments is not said.
#[verifier::external_body]
fn phragmms(
    to_elect: usize,
    targets: Vec<AccountId>,
    voters: Vec<VoterData>,
    balancing: Option<BalancingConfig>,
) -> (r: Option<ElectionResult>)
    ensures
        match r {
            Some(x) => phragmms_outcome(
                to_elect,
                scale::accounts(targets@),
                multi_block_state_client::voters(voters@),
                balancing_numbers(balancing),
            ) == Some(x@),
            None => phragmms_outcome(
                to_elect,
                scale::accounts(targets@),
                multi_block_state_client::voters(voters@),
                balancing_numbers(balancing),
            ) is None,
        },
{
    let balancing = balancing.map(|b| sp_npos_elections::BalancingConfig {
        iterations: b.iterations,
        tolerance: b.tolerance,
    });
    let r: Result<sp_npos_elections::ElectionResult<_, Perbill>, _> =
        sp_npos_elections::phragmms(to_elect, targets, voters, balancing);
    r.ok().map(|r| ElectionResult {
        winners: r.winners,
        assignments: r.assignments.into_iter().map(|a| {
            (a.who, a.distribution.into_iter().map(|(t, share)| (t, share.deconstruct())).collect())
        }).collect(),
    })
}

/// The outcome of an election by `algorithm`.
pub open spec fn outcome_of(
    algorithm: Algorithm,
    to_elect: usize,
    targets: Seq<Seq<u8>>,
    voters: Seq<(Seq<u8>, u64, Seq<Seq<u8>>)>,
    balancing: Option<BalancingConfig>,
) -> Option<ElectionView> {
    match algorithm {
        Algorithm::SeqPhragmen => seq_phragmen_outcome(
            to_elect,
            targets,
            voters,
            balancing_numbers(balancing),
        ),
        Algorithm::Phragmms => phragmms_outcome(
            to_elect,
            targets,
            voters,
            balancing_numbers(balancing),
        ),
    }
}

/// Whether `r` reports `outcome`: its winners and assignments, or that there is none.
pub open spec fn reports(
    r: Result<ElectionResult, SolverError>,
    outcome: Option<ElectionView>,
) -> bool {
    match outcome {
        Some(x) => r is Ok && r->Ok_0@ == x,
        None => r == Err::<ElectionResult, SolverError>(SolverError::ArithmeticError),
    }
}

/// Reports what a solver returned. A solver has one way to fail.
pub fn report(outcome: Option<ElectionResult>) -> (r: Result<ElectionResult, SolverError>)
    ensures
        r == match outcome {
            Some(x) => Ok::<ElectionResult, SolverError>(x),
            None => Err(SolverError::ArithmeticError),
        },
{
    match outcome {
        Some(x) => Ok(x),
        None => Err(SolverError::ArithmeticError),
    }
}

/// Solves an election by `algorithm`.
pub fn solve_by(
    algorithm: Algorithm,
    to_elect: usize,
    targets: Vec<AccountId>,
    voters: Vec<VoterData>,
    balancing: Option<BalancingConfig>,
) -> (r: Result<ElectionResult, SolverError>)
    ensures
        reports(
            r,
            outcome_of(
                algorithm,
                to_elect,
                scale::accounts(targets@),
                multi_block_state_client::voters(voters@),
                balancing,
            ),
        ),
        algorithm == Algorithm::SeqPhragmen ==> match seq_phragmen_outcome(
            to_elect,
            scale::accounts(targets@),
            multi_block_state_client::voters(voters@),
            match balancing {
                Some(b) => Some((b.iterations, b.tolerance)),
                None => None,
            },
        ) {
            Some(x) => r is Ok && r->Ok_0@ == x,
            None => r is Err && r->Err_0 == SolverError::ArithmeticError,
        },
        algorithm == Algorithm::Phragmms ==> match phragmms_outcome(
            to_elect,
            scale::accounts(targets@),
            multi_block_state_client::voters(voters@),
            match balancing {
                Some(b) => Some((b.iterations, b.tolerance)),
                None => None,
            },
        ) {
            Some(x) => r is Ok && r->Ok_0@ == x,
            None => r is Err && r->Err_0 == SolverError::ArithmeticError,
        },
{
    match algorithm {
        Algorithm::SeqPhragmen => report(seq_phragmen(to_elect, targets, voters, balancing)),
        Algorithm::Phragmms => report(phragmms(to_elect, targets, voters, balancing)),
    }
}

/// What solving an election costs.
#[derive(Debug, Clone, Copy, PartialEq, Eq, Structural)]
pub struct Weight {
    pub ref_time: u64,
    pub proof_size: u64,
}

/// The solver that goes by the algorithm that is selected.
#[derive(Debug, Clone)]
pub struct DynamicSolver;

impl DynamicSolver {
    /// Solves an election by the algorithm that is selected, with the balancing that is asked for.
    pub fn solve(
        state: &ElectionState,
        to_elect: usize,
        targets: Vec<AccountId>,
        voters: Vec<VoterData>,
    ) -> (r: Result<ElectionResult, SolverError>)
        ensures
            reports(
                r,
                outcome_of(
                    state.spec_current().algorithm,
                    to_elect,
                    scale::accounts(targets@),
                    multi_block_state_client::voters(voters@),
                    BalancingIterations::spec_get(state.spec_current()),
                ),
            ),
            state.spec_current().algorithm == Algorithm::SeqPhragmen ==> match seq_phragmen_outcome(
                to_elect,
                scale::accounts(targets@),
                multi_block_state_client::voters(voters@),
                if state.spec_current().iterations > 0 {
                    Some((state.spec_current().iterations, 0))
                } else {
                    None
                },
            ) {
                Some(x) => r is Ok && r->Ok_0@ == x,
                None => r is Err && r->Err_0 == SolverError::ArithmeticError,
            },
            state.spec_current().algorithm == Algorithm::Phragmms ==> match phragmms_outcome(
                to_elect,
                scale::accounts(targets@),
                multi_block_state_client::voters(voters@),
                if state.spec_current().iterations > 0 {
                    Some((state.spec_current().iterations, 0))
                } else {
                    None
                },
            ) {
                Some(x) => r is Ok && r->Ok_0@ == x,
                None => r is Err && r->Err_0 == SolverError::ArithmeticError,
            },
    {
        solve_by(
            get_current_algorithm(state),
            to_elect,
            targets,
            voters,
            BalancingIterations::get(state),
        )
    }

    /// The cost of solving an election by the algorithm that is selected, out of what either one
    /// costs.
    pub fn weight(state: &ElectionState, phragmen: Weight, phragmms: Weight) -> (r: Weight)
        ensures
            r == match state.spec_current().algorithm {
                Algorithm::SeqPhragmen => phragmen,
                Algorithm::Phragmms => phragmms,
            },
    {
        match get_current_algorithm(state) {
            Algorithm::SeqPhragmen => phragmen,
            Algorithm::Phragmms => phragmms,
        }
    }
}

/// Solves an election with the settings of its chain: on every chain by the algorithm that is
/// selected.
pub fn solve_on(
    chain: Chain,
    state: &ElectionState,
    to_elect: usize,
    targets: Vec<AccountId>,
    voters: Vec<VoterData>,
) -> (r: Result<ElectionResult, SolverError>)
    ensures
        reports(
            r,
            outcome_of(
                state.spec_current().algorithm,
                to_elect,
                scale::accounts(targets@),
                multi_block_state_client::voters(voters@),
                BalancingIterations::spec_get(state.spec_current()),
            ),
        ),
        state.spec_current().algorithm == Algorithm::SeqPhragmen ==> match seq_phragmen_outcome(
            to_elect,
            scale::accounts(targets@),
            multi_block_state_client::voters(voters@),
            if state.spec_current().iterations > 0 {
                Some((state.spec_current().iterations, 0))
            } else {
                None
            },
        ) {
            Some(x) => r is Ok && r->Ok_0@ == x,
            None => r is Err && r->Err_0 == SolverError::ArithmeticError,
        },
        state.spec_current().algorithm == Algorithm::Phragmms ==> match phragmms_outcome(
            to_elect,
            scale::accounts(targets@),
            multi_block_state_client::voters(voters@),
            if state.spec_current().iterations > 0 {
                Some((state.spec_current().iterations, 0))
            } else {
                None
            },
        ) {
            Some(x) => r is Ok && r->Ok_0@ == x,
            None => r is Err && r->Err_0 == SolverError::ArithmeticError,
        },
{
    match chain {
        Chain::Polkadot => polkadot::MinerConfig::solve(state, to_elect, targets, voters),
        Chain::Kusama => kusama::MinerConfig::solve(state, to_elect, targets, voters),
        Chain::Substrate => substrate::MinerConfig::solve(state, to_elect, targets, voters),
    }
}

} // verus!
