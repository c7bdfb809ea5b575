//! The voters and targets of a round, gathered page by page.
//!
//! [`read_snapshot`] starts where the block has a snapshot. The pages of the voters come first, in
//! order, then the page of the targets, which is stored under the number of the last page.

use crate::block_details::{BlockDetails, DetailsError};
use crate::miner_config;
use crate::miner_config::{
    ElectionState, MaxVotesPerVoter, RuntimeConfig, TargetSnapshotPerBlock, VoterSnapshotPerBlock,
};
use crate::multi_block_state_client;
use crate::multi_block_state_client::{
    fetch_paged_target_snapshot, fetch_paged_voter_snapshot, ElectionSnapshotPage, Phase,
    TargetSnapshotPage, VoterSnapshotPage,
};
use crate::storage;
use crate::storage::{
    paged_target_snapshot_key, paged_voter_snapshot_key, StorageError, StorageKey,
};
use vstd::prelude::*;

verus! {

/// What the pages of voters say.
pub open spec fn voter_pages(v: Seq<VoterSnapshotPage>) -> Seq<
    Seq<multi_block_state_client::VoterView>,
> {
    Seq::new(v.len(), |i: int| multi_block_state_client::voters(v[i]@))
}

/// What a snapshot says.
pub struct SnapshotView {
    pub voters: Seq<Seq<multi_block_state_client::VoterView>>,
    pub targets: Seq<Seq<u8>>,
}

impl View for ElectionSnapshotPage {
    type V = SnapshotView;

    open spec fn view(&self) -> SnapshotView {
        SnapshotView {
            voters: voter_pages(self.voters@),
            targets: crate::scale::accounts(self.targets@),
        }
    }
}

/// The limits that pages keep to.
pub struct PageLimits {
    pub voters_per_page: u32,
    pub targets_per_page: u32,
    pub max_votes: u32,
}

/// The limits that the constants of the chain and the settings of the election ask for.
pub open spec fn page_limits(
    constants: miner_config::MinerConstants,
    config: miner_config::ElectionConfig,
) -> PageLimits {
    PageLimits {
        voters_per_page: constants.voter_snapshot_per_block,
        targets_per_page: constants.target_snapshot_per_block,
        max_votes: config.max_votes_per_voter,
    }
}

/// A snapshot that is being read: the pages of voters so far.
pub struct SnapshotFetch {
    pub round: u32,
    pub n_pages: u32,
    pub voters: Vec<VoterSnapshotPage>,
}

/// What a snapshot that is being read says.
pub struct SnapshotFetchView {
    pub round: u32,
    pub n_pages: u32,
    pub voters: Seq<Seq<multi_block_state_client::VoterView>>,
}

impl View for SnapshotFetch {
    type V = SnapshotFetchView;

    open spec fn view(&self) -> SnapshotFetchView {
        SnapshotFetchView {
            round: self.round,
            n_pages: self.n_pages,
            voters: voter_pages(self.voters@),
        }
    }
}

/// What a reply leads to.
pub enum SnapshotStep {
    /// The next page is wanted.
    Fetch(SnapshotFetch),
    /// All pages are there.
    Done(ElectionSnapshotPage),
}

/// What a step says.
pub enum SnapshotStepView {
    Fetch(SnapshotFetchView),
    Done(SnapshotView),
}

impl View for SnapshotStep {
    type V = SnapshotStepView;

    open spec fn view(&self) -> SnapshotStepView {
        match *self {
            SnapshotStep::Fetch(f) => SnapshotStepView::Fetch(f@),
            SnapshotStep::Done(s) => SnapshotStepView::Done(s@),
        }
    }
}

/// The election is in a phase that has no snapshot.
#[derive(Debug, Clone, Copy, PartialEq, Eq, Structural)]
pub struct NoSnapshot {
    pub phase: Phase,
}

/// Starts on the snapshot of a block. There is one only in some phases of the election.
pub fn read_snapshot<S>(details: &BlockDetails<S>) -> (r: Result<SnapshotFetch, NoSnapshot>)
    ensures
        match r {
            Ok(fetch) => details.phase.spec_has_snapshot() && fetch@ == (SnapshotFetchView {
                round: details.round,
                n_pages: details.n_pages,
                voters: Seq::empty(),
            }),
            Err(e) => !details.phase.spec_has_snapshot() && e == (NoSnapshot {
                phase: details.phase,
            }),
        },
{
    if details.phase.has_snapshot() {
        let fetch = SnapshotFetch {
            round: details.round,
            n_pages: details.n_pages,
            voters: Vec::new(),
        };
        assert(fetch@.voters =~= Seq::empty());
        Ok(fetch)
    } else {
        Err(NoSnapshot { phase: details.phase })
    }
}

impl SnapshotFetchView {
    /// Whether a page of voters is wanted: as long as there are fewer than there should be.
    pub open spec fn wants_voters(self) -> bool {
        self.voters.len() < self.n_pages
    }

    /// The key of the page that is wanted.
    pub open spec fn key(self) -> storage::StorageKeyView {
        if self.wants_voters() {
            storage::key_of(
                "MultiBlockElection",
                "PagedVoterSnapshot",
                seq![
                    storage::KeyPartView::U32(self.round),
                    storage::KeyPartView::U32(self.voters.len() as u32),
                ],
            )
        } else {
            storage::key_of(
                "MultiBlockElection",
                "PagedTargetSnapshot",
                seq![
                    storage::KeyPartView::U32(self.round),
                    storage::KeyPartView::U32(
                        if self.n_pages == 0 {
                            0
                        } else {
                            (self.n_pages - 1) as u32
                        },
                    ),
                ],
            )
        }
    }

    /// What a reply leads to: every page must come, be there, and read.
    pub open spec fn on_reply<E>(
        self,
        limits: PageLimits,
        reply: Result<Option<Seq<u8>>, E>,
    ) -> Result<SnapshotStepView, DetailsError<E>> {
        match reply {
            Err(e) => Err(DetailsError::Request(e)),
            Ok(None) => Err(
                DetailsError::Reply(
                    StorageError::NotFound(
                        if self.wants_voters() {
                            storage::StorageItem::VoterSnapshot
                        } else {
                            storage::StorageItem::TargetSnapshot
                        },
                    ),
                ),
            ),
            Ok(Some(b)) => if self.wants_voters() {
                match multi_block_state_client::parse_voter_page(
                    b,
                    limits.voters_per_page as nat,
                    limits.max_votes as nat,
                ) {
                    None => Err(DetailsError::Reply(StorageError::Decode(
                        multi_block_state_client::voter_page_error(
                            b,
                            limits.voters_per_page as nat,
                            limits.max_votes as nat,
                        ),
                    ))),
                    Some(page) => Ok(
                        SnapshotStepView::Fetch(
                            SnapshotFetchView { voters: self.voters.push(page), ..self },
                        ),
                    ),
                }
            } else {
                match multi_block_state_client::parse_target_page(
                    b,
                    limits.targets_per_page as nat,
                ) {
                    None => Err(DetailsError::Reply(StorageError::Decode(
                        multi_block_state_client::target_page_error(
                            b,
                            limits.targets_per_page as nat,
                        ),
                    ))),
                    Some(targets) => Ok(
                        SnapshotStepView::Done(SnapshotView { voters: self.voters, targets }),
                    ),
                }
            },
        }
    }

    /// What a run of replies leads to: `None` as long as more are wanted.
    pub open spec fn run<E>(
        self,
        limits: PageLimits,
        replies: Seq<Result<Option<Seq<u8>>, E>>,
    ) -> Option<Result<SnapshotView, DetailsError<E>>>
        decreases replies.len(),
    {
        if replies.len() == 0 {
            None
        } else {
            match self.on_reply(limits, replies[0]) {
                Err(e) => Some(Err(e)),
                Ok(SnapshotStepView::Done(snapshot)) => Some(Ok(snapshot)),
                Ok(SnapshotStepView::Fetch(next)) => next.run(limits, replies.skip(1)),
            }
        }
    }
}

/// What a step, or the failure to make one, says.
pub open spec fn step_view<E>(r: Result<SnapshotStep, DetailsError<E>>) -> Result<
    SnapshotStepView,
    DetailsError<E>,
> {
    match r {
        Ok(step) => Ok(step@),
        Err(e) => Err(e),
    }
}

impl SnapshotFetch {
    /// The page to fetch.
    pub fn request(&self) -> (r: StorageKey)
        ensures
            r@ == self@.key(),
    {
        if (self.voters.len() as u64) < self.n_pages as u64 {
            paged_voter_snapshot_key(self.round, self.voters.len() as u32)
        } else {
            let last_page: u32 = if self.n_pages == 0 {
                0
            } else {
                self.n_pages - 1
            };
            paged_target_snapshot_key(self.round, last_page)
        }
    }

    /// Takes the reply to the request. The constants of the chain must be set.
    pub fn on_reply<E>(
        self,
        config: &RuntimeConfig,
        state: &ElectionState,
        reply: Result<Option<Vec<u8>>, E>,
    ) -> (r: Result<SnapshotStep, DetailsError<E>>)
        requires
            config@ is Some,
        ensures
            step_view(r) == self@.on_reply(
                page_limits(config@->0, state.spec_current()),
                crate::block_details::entry_reply(reply),
            ),
    {
        let entry: Option<Vec<u8>> = match reply {
            Ok(entry) => entry,
            Err(e) => return Err(DetailsError::Request(e)),
        };
        let bytes: Option<&[u8]> = match &entry {
            Some(b) => Some(b.as_slice()),
            None => None,
        };
        if (self.voters.len() as u64) < self.n_pages as u64 {
            let page: Result<VoterSnapshotPage, StorageError> = fetch_paged_voter_snapshot(
                bytes,
                VoterSnapshotPerBlock::get(config),
                MaxVotesPerVoter::get(state),
            );
            match page {
                Ok(page) => {
                    let mut next = self;
                    next.voters.push(page);
                    assert(next@.voters =~= self@.voters.push(
                        multi_block_state_client::voters(page@),
                    ));
                    Ok(SnapshotStep::Fetch(next))
                },
                Err(e) => Err(DetailsError::Reply(e)),
            }
        } else {
            let targets: Result<TargetSnapshotPage, StorageError> = fetch_paged_target_snapshot(
                bytes,
                TargetSnapshotPerBlock::get(config),
            );
            match targets {
                Ok(targets) => Ok(
                    SnapshotStep::Done(ElectionSnapshotPage { voters: self.voters, targets }),
                ),
                Err(e) => Err(DetailsError::Reply(e)),
            }
        }
    }
}

proof fn lemma_run_of_pages<E>(
    fetch: SnapshotFetchView,
    limits: PageLimits,
    pages: Seq<Seq<u8>>,
    targets: Seq<u8>,
)
    requires
        fetch.voters.len() + pages.len() == fetch.n_pages,
        forall|i: int|
            0 <= i < pages.len() ==> multi_block_state_client::parse_voter_page(
                #[trigger] pages[i],
                limits.voters_per_page as nat,
                limits.max_votes as nat,
            ) is Some,
        multi_block_state_client::parse_target_page(
            targets,
            limits.targets_per_page as nat,
        ) is Some,
    ensures
        fetch.run(limits, page_replies::<E>(pages, targets)) == Some(
            Ok::<SnapshotView, DetailsError<E>>(
                SnapshotView {
                    voters: fetch.voters + parsed_pages(limits, pages),
                    targets: multi_block_state_client::parse_target_page(
                        targets,
                        limits.targets_per_page as nat,
                    )->0,
                },
            ),
        ),
    decreases pages.len(),
{
    let replies = page_replies::<E>(pages, targets);
    if pages.len() == 0 {
        assert(fetch.voters + parsed_pages(limits, pages) =~= fetch.voters);
    } else {
        let page = multi_block_state_client::parse_voter_page(
            pages[0],
            limits.voters_per_page as nat,
            limits.max_votes as nat,
        )->0;
        let next = SnapshotFetchView { voters: fetch.voters.push(page), ..fetch };
        let tail = pages.skip(1);
        assert forall|i: int|
            0 <= i < tail.len() implies multi_block_state_client::parse_voter_page(
            #[trigger] tail[i],
            limits.voters_per_page as nat,
            limits.max_votes as nat,
        ) is Some by {
            assert(tail[i] == pages[i + 1]);
        }
        lemma_run_of_pages::<E>(next, limits, tail, targets);
        assert(replies.skip(1) =~= page_replies::<E>(tail, targets));
        assert(next.voters + parsed_pages(limits, tail) =~= fetch.voters + parsed_pages(
            limits,
            pages,
        ));
    }
}

/// The replies with the pages of voters, and then with the page of targets.
pub open spec fn page_replies<E>(pages: Seq<Seq<u8>>, targets: Seq<u8>) -> Seq<
    Result<Option<Seq<u8>>, E>,
> {
    Seq::new(
        pages.len() + 1,
        |i: int|
            Ok(
                Some(
                    if i < pages.len() {
                        pages[i]
                    } else {
                        targets
                    },
                ),
            ),
    )
}

/// The voters on each page.
pub open spec fn parsed_pages(limits: PageLimits, pages: Seq<Seq<u8>>) -> Seq<
    Seq<multi_block_state_client::VoterView>,
> {
    Seq::new(
        pages.len(),
        |i: int|
            multi_block_state_client::parse_voter_page(
                pages[i],
                limits.voters_per_page as nat,
                limits.max_votes as nat,
            )->0,
    )
}

/// A snapshot comes out once every page of voters and the page of targets have come and read. It
/// holds those pages, in order, and nothing else.
pub proof fn law_snapshot_of_pages<E>(
    round: u32,
    limits: PageLimits,
    pages: Seq<Seq<u8>>,
    targets: Seq<u8>,
)
    requires
        pages.len() <= u32::MAX,
        forall|i: int|
            0 <= i < pages.len() ==> multi_block_state_client::parse_voter_page(
                #[trigger] pages[i],
                limits.voters_per_page as nat,
                limits.max_votes as nat,
            ) is Some,
        multi_block_state_client::parse_target_page(
            targets,
            limits.targets_per_page as nat,
        ) is Some,
    ensures
        (SnapshotFetchView { round, n_pages: pages.len() as u32, voters: Seq::empty() }).run(
            limits,
            page_replies::<E>(pages, targets),
        ) == Some(
            Ok::<SnapshotView, DetailsError<E>>(
                SnapshotView {
                    voters: parsed_pages(limits, pages),
                    targets: multi_block_state_client::parse_target_page(
                        targets,
                        limits.targets_per_page as nat,
                    )->0,
                },
            ),
        ),
{
    let fetch = SnapshotFetchView { round, n_pages: pages.len() as u32, voters: Seq::empty() };
    lemma_run_of_pages::<E>(fetch, limits, pages, targets);
    assert(fetch.voters + parsed_pages(limits, pages) =~= parsed_pages(limits, pages));
}

} // verus!
