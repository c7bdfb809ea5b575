//! The state of the election at a block, gathered request by request.
//!
//! [`get_block_details`] gives the first stage. Each stage says what it asks for, and takes the
//! reply to become the next, until the [`BlockDetails`] are complete.

use crate::miner_config::{Pages, RuntimeConfig};
use crate::multi_block_state_client;
use crate::multi_block_state_client::{
    get_block_number, get_desired_targets, get_phase, get_round, Phase,
};
use crate::storage;
use crate::storage::{
    block_number_key, desired_targets_key, phase_key, round_key, StorageError, StorageKey,
};
use vstd::prelude::*;

verus! {

/// How many winners a round is taken to elect where the chain does not say.
pub const DEFAULT_DESIRED_TARGETS: u32 = 600;

/// The state of the election at a block, together with the storage that it was read from.
#[derive(Debug, Clone)]
pub struct BlockDetails<S> {
    pub storage: S,
    pub phase: Phase,
    pub n_pages: u32,
    pub round: u32,
    pub desired_targets: u32,
    pub _block_number: u32,
    pub block_hash: Option<crate::primitives::Hash>,
}

/// The block whose storage is opened.
#[derive(Debug, Clone, Copy)]
pub enum StorageAt {
    Block(crate::primitives::Hash),
    Latest,
}

/// Why the details of a block cannot be had.
#[derive(Debug, Clone, Copy)]
pub enum DetailsError<E> {
    /// A request failed.
    Request(E),
    /// A reply gives no value.
    Reply(StorageError),
}

/// The storage is wanted.
#[derive(Debug, Clone, Copy)]
pub struct DetailsStorage {
    pub block_hash: Option<crate::primitives::Hash>,
}

/// The phase is wanted.
#[derive(Debug, Clone)]
pub struct DetailsPhase<S> {
    pub block_hash: Option<crate::primitives::Hash>,
    pub storage: S,
}

/// The round is wanted.
#[derive(Debug, Clone)]
pub struct DetailsRound<S> {
    pub block_hash: Option<crate::primitives::Hash>,
    pub storage: S,
    pub phase: Phase,
}

/// The number of winners is wanted.
#[derive(Debug, Clone)]
pub struct DetailsDesiredTargets<S> {
    pub block_hash: Option<crate::primitives::Hash>,
    pub storage: S,
    pub phase: Phase,
    pub round: u32,
}

/// The block number is wanted.
#[derive(Debug, Clone)]
pub struct DetailsBlockNumber<S> {
    pub block_hash: Option<crate::primitives::Hash>,
    pub storage: S,
    pub phase: Phase,
    pub round: u32,
    pub desired_targets: u32,
    pub n_pages: u32,
}

/// What a reply that always has a value says.
pub open spec fn value_reply<E>(reply: Result<Vec<u8>, E>) -> Result<Seq<u8>, E> {
    match reply {
        Ok(b) => Ok(b@),
        Err(e) => Err(e),
    }
}

/// What a reply that may have no value says.
pub open spec fn entry_reply<E>(reply: Result<Option<Vec<u8>>, E>) -> Result<Option<Seq<u8>>, E> {
    match reply {
        Ok(Some(b)) => Ok(Some(b@)),
        Ok(None) => Ok(None),
        Err(e) => Err(e),
    }
}

/// Starts on the details of a block, or of the latest where no hash is given.
pub fn get_block_details(block: Option<crate::primitives::Hash>) -> (r: DetailsStorage)
    ensures
        r == (DetailsStorage { block_hash: block }),
{
    DetailsStorage { block_hash: block }
}

impl DetailsStorage {
    /// Where to open the storage: at the block that is asked for, or else at the latest.
    pub fn request(&self) -> (r: StorageAt)
        ensures
            r == match self.block_hash {
                Some(hash) => StorageAt::Block(hash),
                None => StorageAt::Latest,
            },
    {
        match self.block_hash {
            Some(hash) => StorageAt::Block(hash),
            None => StorageAt::Latest,
        }
    }

    /// The storage must open.
    pub open spec fn spec_on_reply<S, E>(self, reply: Result<S, E>) -> Result<
        DetailsPhase<S>,
        DetailsError<E>,
    > {
        match reply {
            Ok(storage) => Ok(DetailsPhase { block_hash: self.block_hash, storage }),
            Err(e) => Err(DetailsError::Request(e)),
        }
    }

    /// Takes the storage.
    pub fn on_reply<S, E>(self, reply: Result<S, E>) -> (r: Result<
        DetailsPhase<S>,
        DetailsError<E>,
    >)
        ensures
            r == self.spec_on_reply(reply),
    {
        match reply {
            Ok(storage) => Ok(DetailsPhase { block_hash: self.block_hash, storage }),
            Err(e) => Err(DetailsError::Request(e)),
        }
    }
}

impl<S> DetailsPhase<S> {
    /// The entry to fetch, or its default.
    pub fn request(&self) -> (r: StorageKey)
        ensures
            r@ == storage::key_of("MultiBlockElection", "CurrentPhase", seq![]),
    {
        phase_key()
    }

    /// The phase must come and read.
    pub open spec fn spec_on_reply<E>(self, reply: Result<Seq<u8>, E>) -> Result<
        DetailsRound<S>,
        DetailsError<E>,
    > {
        match reply {
            Err(e) => Err(DetailsError::Request(e)),
            Ok(b) => match multi_block_state_client::parse_phase(b) {
                None => Err(
                    DetailsError::Reply(
                        StorageError::Decode(multi_block_state_client::phase_error(b)),
                    ),
                ),
                Some(phase) => Ok(
                    DetailsRound { block_hash: self.block_hash, storage: self.storage, phase },
                ),
            },
        }
    }

    /// Takes the phase.
    pub fn on_reply<E>(self, reply: Result<Vec<u8>, E>) -> (r: Result<
        DetailsRound<S>,
        DetailsError<E>,
    >)
        ensures
            r == self.spec_on_reply(value_reply(reply)),
    {
        match reply {
            Err(e) => Err(DetailsError::Request(e)),
            Ok(b) => match get_phase(b.as_slice()) {
                Err(e) => Err(DetailsError::Reply(e)),
                Ok(phase) => Ok(
                    DetailsRound { block_hash: self.block_hash, storage: self.storage, phase },
                ),
            },
        }
    }
}

impl<S> DetailsRound<S> {
    /// The entry to fetch, or its default.
    pub fn request(&self) -> (r: StorageKey)
        ensures
            r@ == storage::key_of("MultiBlockElection", "Round", seq![]),
    {
        round_key()
    }

    /// The round must come and read.
    pub open spec fn spec_on_reply<E>(self, reply: Result<Seq<u8>, E>) -> Result<
        DetailsDesiredTargets<S>,
        DetailsError<E>,
    > {
        match reply {
            Err(e) => Err(DetailsError::Request(e)),
            Ok(b) => match multi_block_state_client::parse_u32(b) {
                None => Err(
                    DetailsError::Reply(
                        StorageError::Decode(multi_block_state_client::number_error()),
                    ),
                ),
                Some(round) => Ok(
                    DetailsDesiredTargets {
                        block_hash: self.block_hash,
                        storage: self.storage,
                        phase: self.phase,
                        round,
                    },
                ),
            },
        }
    }

    /// Takes the round.
    pub fn on_reply<E>(self, reply: Result<Vec<u8>, E>) -> (r: Result<
        DetailsDesiredTargets<S>,
        DetailsError<E>,
    >)
        ensures
            r == self.spec_on_reply(value_reply(reply)),
    {
        match reply {
            Err(e) => Err(DetailsError::Request(e)),
            Ok(b) => match get_round(b.as_slice()) {
                Err(e) => Err(DetailsError::Reply(e)),
                Ok(round) => Ok(
                    DetailsDesiredTargets {
                        block_hash: self.block_hash,
                        storage: self.storage,
                        phase: self.phase,
                        round,
                    },
                ),
            },
        }
    }
}

/// How many winners a round is taken to elect: what the chain says, or the default where the
/// request fails, there is no entry, or it does not read.
pub open spec fn desired_targets_or_default<E>(reply: Result<Option<Seq<u8>>, E>) -> u32 {
    match reply {
        Ok(Some(b)) => match multi_block_state_client::parse_u32(b) {
            Some(n) => n,
            None => DEFAULT_DESIRED_TARGETS,
        },
        _ => DEFAULT_DESIRED_TARGETS,
    }
}

impl<S> DetailsDesiredTargets<S> {
    /// The entry to fetch.
    pub fn request(&self) -> (r: StorageKey)
        ensures
            r@ == storage::key_of(
                "MultiBlockElection",
                "DesiredTargets",
                seq![storage::KeyPartView::U32(self.round)],
            ),
    {
        desired_targets_key(self.round)
    }

    /// Whatever the reply, the details go on. The number of pages is a constant of the chain.
    pub open spec fn spec_on_reply<E>(
        self,
        n_pages: u32,
        reply: Result<Option<Seq<u8>>, E>,
    ) -> DetailsBlockNumber<S> {
        DetailsBlockNumber {
            block_hash: self.block_hash,
            storage: self.storage,
            phase: self.phase,
            round: self.round,
            desired_targets: desired_targets_or_default(reply),
            n_pages,
        }
    }

    /// Takes the number of winners. The constants of the chain must be set.
    pub fn on_reply<E>(self, config: &RuntimeConfig, reply: Result<Option<Vec<u8>>, E>) -> (r:
        DetailsBlockNumber<S>)
        requires
            config@ is Some,
        ensures
            r == self.spec_on_reply(config@->0.pages, entry_reply(reply)),
    {
        let desired_targets: u32 = match reply {
            Ok(Some(b)) => match get_desired_targets(Some(b.as_slice())) {
                Ok(n) => n,
                Err(_) => DEFAULT_DESIRED_TARGETS,
            },
            Ok(None) => DEFAULT_DESIRED_TARGETS,
            Err(_) => DEFAULT_DESIRED_TARGETS,
        };
        DetailsBlockNumber {
            block_hash: self.block_hash,
            storage: self.storage,
            phase: self.phase,
            round: self.round,
            desired_targets,
            n_pages: Pages::get(config),
        }
    }
}

impl<S> DetailsBlockNumber<S> {
    /// The entry to fetch.
    pub fn request(&self) -> (r: StorageKey)
        ensures
            r@ == storage::key_of("System", "Number", seq![]),
    {
        block_number_key()
    }

    /// The block number must come, be there, and read.
    pub open spec fn spec_on_reply<E>(self, reply: Result<Option<Seq<u8>>, E>) -> Result<
        BlockDetails<S>,
        DetailsError<E>,
    > {
        match reply {
            Err(e) => Err(DetailsError::Request(e)),
            Ok(None) => Err(
                DetailsError::Reply(StorageError::NotFound(storage::StorageItem::BlockNumber)),
            ),
            Ok(Some(b)) => match multi_block_state_client::parse_u32(b) {
                None => Err(
                    DetailsError::Reply(
                        StorageError::Decode(multi_block_state_client::number_error()),
                    ),
                ),
                Some(n) => Ok(
                    BlockDetails {
                        storage: self.storage,
                        phase: self.phase,
                        n_pages: self.n_pages,
                        round: self.round,
                        desired_targets: self.desired_targets,
                        _block_number: n,
                        block_hash: self.block_hash,
                    },
                ),
            },
        }
    }

    /// Takes the block number.
    pub fn on_reply<E>(self, reply: Result<Option<Vec<u8>>, E>) -> (r: Result<
        BlockDetails<S>,
        DetailsError<E>,
    >)
        ensures
            r == self.spec_on_reply(entry_reply(reply)),
    {
        let number: Result<u32, StorageError> = match reply {
            Err(e) => {
                return Err(DetailsError::Request(e));
            },
            Ok(None) => get_block_number(None),
            Ok(Some(b)) => get_block_number(Some(b.as_slice())),
        };
        match number {
            Err(e) => Err(DetailsError::Reply(e)),
            Ok(n) => Ok(
                BlockDetails {
                    storage: self.storage,
                    phase: self.phase,
                    n_pages: self.n_pages,
                    round: self.round,
                    desired_targets: self.desired_targets,
                    _block_number: n,
                    block_hash: self.block_hash,
                },
            ),
        }
    }
}

/// The details of a block come out whenever the storage, the phase, the round and the block number
/// can be had. They hold just those, and the number of winners that the chain says or its
/// default.
pub proof fn law_details_of_block<S, E>(
    block_hash: Option<crate::primitives::Hash>,
    storage: S,
    phase: Seq<u8>,
    round: Seq<u8>,
    desired_targets: Result<Option<Seq<u8>>, E>,
    n_pages: u32,
    block_number: Seq<u8>,
)
    requires
        multi_block_state_client::parse_phase(phase) is Some,
        multi_block_state_client::parse_u32(round) is Some,
        multi_block_state_client::parse_u32(block_number) is Some,
    ensures
        ({
            let s0 = DetailsStorage { block_hash };
            let s1 = s0.spec_on_reply(Ok::<S, E>(storage))->Ok_0;
            let s2 = s1.spec_on_reply(Ok::<Seq<u8>, E>(phase))->Ok_0;
            let s3 = s2.spec_on_reply(Ok::<Seq<u8>, E>(round))->Ok_0;
            let s4 = s3.spec_on_reply(n_pages, desired_targets);
            &&& s0.spec_on_reply(Ok::<S, E>(storage)) is Ok
            &&& s1.spec_on_reply(Ok::<Seq<u8>, E>(phase)) is Ok
            &&& s2.spec_on_reply(Ok::<Seq<u8>, E>(round)) is Ok
            &&& s4.spec_on_reply(Ok::<Option<Seq<u8>>, E>(Some(block_number))) == Ok::<
                BlockDetails<S>,
                DetailsError<E>,
            >(
                BlockDetails {
                    storage,
                    phase: multi_block_state_client::parse_phase(phase)->0,
                    n_pages,
                    round: multi_block_state_client::parse_u32(round)->0,
                    desired_targets: desired_targets_or_default(desired_targets),
                    _block_number: multi_block_state_client::parse_u32(block_number)->0,
                    block_hash,
                },
            )
        }),
{
}

/// No details come out where the storage, the phase, the round or the block number cannot be had,
/// be it that the request fails, that the entry is missing, or that it does not read: the first
/// failure is what is reported.
pub proof fn law_failures_end_details<S, E>(
    first: DetailsStorage,
    phase: DetailsPhase<S>,
    round: DetailsRound<S>,
    block_number: DetailsBlockNumber<S>,
    error: E,
    bytes: Seq<u8>,
)
    ensures
        first.spec_on_reply(Err::<S, E>(error)) == Err::<DetailsPhase<S>, DetailsError<E>>(
            DetailsError::Request(error),
        ),
        phase.spec_on_reply(Err(error)) == Err::<DetailsRound<S>, DetailsError<E>>(
            DetailsError::Request(error),
        ),
        round.spec_on_reply(Err(error)) == Err::<DetailsDesiredTargets<S>, DetailsError<E>>(
            DetailsError::Request(error),
        ),
        block_number.spec_on_reply(Err(error)) == Err::<BlockDetails<S>, DetailsError<E>>(
            DetailsError::Request(error),
        ),
        multi_block_state_client::parse_phase(bytes) is None ==> phase.spec_on_reply(
            Ok::<Seq<u8>, E>(bytes),
        ) == Err::<DetailsRound<S>, DetailsError<E>>(
            DetailsError::Reply(StorageError::Decode(multi_block_state_client::phase_error(bytes))),
        ),
        multi_block_state_client::parse_u32(bytes) is None ==> round.spec_on_reply(
            Ok::<Seq<u8>, E>(bytes),
        ) == Err::<DetailsDesiredTargets<S>, DetailsError<E>>(
            DetailsError::Reply(StorageError::Decode(multi_block_state_client::number_error())),
        ),
        multi_block_state_client::parse_u32(bytes) is None ==> block_number.spec_on_reply(
            Ok::<Option<Seq<u8>>, E>(Some(bytes)),
        ) == Err::<BlockDetails<S>, DetailsError<E>>(
            DetailsError::Reply(StorageError::Decode(multi_block_state_client::number_error())),
        ),
        block_number.spec_on_reply(Ok::<Option<Seq<u8>>, E>(None)) == Err::<
            BlockDetails<S>,
            DetailsError<E>,
        >(DetailsError::Reply(StorageError::NotFound(storage::StorageItem::BlockNumber))),
{
}

} // verus!
