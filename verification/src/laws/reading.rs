//! What the replies of a node lead to.

use crate::block_details;
use crate::block_details::{
    BlockDetails, DetailsBlockNumber, DetailsDesiredTargets, DetailsError, DetailsPhase,
    DetailsRound, DetailsStorage,
};
use crate::laws::formats;
use crate::laws::numbers;
use crate::miner_config::{ElectionConfig, MinerConstants};
use crate::multi_block_state_client;
use crate::multi_block_state_client::{ElectionSnapshotPage, Phase, VoterSnapshotPage};
use crate::scale;
use crate::snapshot;
use crate::snapshot::{SnapshotFetch, SnapshotStep};
use crate::storage;
use crate::storage::{KeyPart, StorageError, StorageKey};
use vstd::prelude::*;

verus! {

/// A key says its pallet, its entry and its parts, as they are.
pub proof fn law_keys_say_their_parts(
    pallet: &str,
    entry: &str,
    keys: Seq<storage::KeyPartView>,
    key: StorageKey,
    i: int,
    a: u32,
    b: u64,
    c: Vec<u8>,
)
    ensures
        storage::key_of(pallet, entry, keys).pallet == pallet@,
        storage::key_of(pallet, entry, keys).entry == entry@,
        storage::key_of(pallet, entry, keys).keys == keys,
        key@.pallet == key.pallet@,
        key@.entry == key.entry@,
        key@.keys.len() == key.keys@.len(),
        0 <= i < key.keys@.len() ==> key@.keys[i] == key.keys@[i]@,
        KeyPart::U32(a)@ == storage::KeyPartView::U32(a),
        KeyPart::U64(b)@ == storage::KeyPartView::U64(b),
        KeyPart::Bytes(c)@ == storage::KeyPartView::Bytes(c@),
{
}

/// A reply says its bytes as they came, or the error as it came.
pub proof fn law_replies_say_their_bytes<E>(b: Vec<u8>, e: E)
    ensures
        block_details::value_reply(Ok::<Vec<u8>, E>(b)) == Ok::<Seq<u8>, E>(b@),
        block_details::value_reply(Err::<Vec<u8>, E>(e)) == Err::<Seq<u8>, E>(e),
        block_details::entry_reply(Ok::<Option<Vec<u8>>, E>(Some(b))) == Ok::<Option<Seq<u8>>, E>(
            Some(b@),
        ),
        block_details::entry_reply(Ok::<Option<Vec<u8>>, E>(None)) == Ok::<Option<Seq<u8>>, E>(
            None,
        ),
        block_details::entry_reply(Err::<Option<Vec<u8>>, E>(e)) == Err::<Option<Seq<u8>>, E>(e),
{
}

/// The number of winners is what the chain says, whatever number that is: the first four bytes of
/// the entry. It is 600 only where the request fails, the entry is missing, or it has fewer bytes.
/// The rest of the details stays as it is.
pub proof fn law_desired_targets_are_what_the_chain_says<S, E>(
    stage: DetailsDesiredTargets<S>,
    n_pages: u32,
    b0: u8,
    b1: u8,
    b2: u8,
    b3: u8,
    rest: Seq<u8>,
    short: Seq<u8>,
    error: E,
    reply: Result<Option<Seq<u8>>, E>,
)
    requires
        short.len() < 4,
    ensures
        stage.spec_on_reply(
            n_pages,
            Ok::<Option<Seq<u8>>, E>(Some(seq![b0, b1, b2, b3] + rest)),
        ).desired_targets == b0 + 0x100 * b1 + 0x1_0000 * b2 + 0x100_0000 * b3,
        stage.spec_on_reply(n_pages, Ok::<Option<Seq<u8>>, E>(Some(short))).desired_targets == 600,
        stage.spec_on_reply(n_pages, Ok::<Option<Seq<u8>>, E>(None)).desired_targets == 600,
        stage.spec_on_reply(n_pages, Err::<Option<Seq<u8>>, E>(error)).desired_targets == 600,
        stage.spec_on_reply(n_pages, reply).n_pages == n_pages,
        stage.spec_on_reply(n_pages, reply).round == stage.round,
        stage.spec_on_reply(n_pages, reply).phase == stage.phase,
        stage.spec_on_reply(n_pages, reply).storage == stage.storage,
        stage.spec_on_reply(n_pages, reply).block_hash == stage.block_hash,
{
    numbers::law_u32_is_four_bytes(b0, b1, b2, b3, rest);
    numbers::law_short_numbers_do_not_read(short);
}

/// The round is the first four bytes of its reply, whatever number they make, and the details so
/// far stay as they are.
pub proof fn law_round_is_what_the_chain_says<S, E>(
    stage: DetailsRound<S>,
    b0: u8,
    b1: u8,
    b2: u8,
    b3: u8,
    rest: Seq<u8>,
)
    ensures
        stage.spec_on_reply(Ok::<Seq<u8>, E>(seq![b0, b1, b2, b3] + rest)) == Ok::<
            DetailsDesiredTargets<S>,
            DetailsError<E>,
        >(
            DetailsDesiredTargets {
                block_hash: stage.block_hash,
                storage: stage.storage,
                phase: stage.phase,
                round: (b0 + 0x100 * b1 + 0x1_0000 * b2 + 0x100_0000 * b3) as u32,
            },
        ),
{
    numbers::law_u32_is_four_bytes(b0, b1, b2, b3, rest);
}

/// The block number is the first four bytes of its entry, whatever number they make, and with it
/// the details are complete.
pub proof fn law_block_number_completes_details<S, E>(
    stage: DetailsBlockNumber<S>,
    b0: u8,
    b1: u8,
    b2: u8,
    b3: u8,
    rest: Seq<u8>,
)
    ensures
        stage.spec_on_reply(Ok::<Option<Seq<u8>>, E>(Some(seq![b0, b1, b2, b3] + rest))) == Ok::<
            BlockDetails<S>,
            DetailsError<E>,
        >(
            BlockDetails {
                storage: stage.storage,
                phase: stage.phase,
                n_pages: stage.n_pages,
                round: stage.round,
                desired_targets: stage.desired_targets,
                _block_number: (b0 + 0x100 * b1 + 0x1_0000 * b2 + 0x100_0000 * b3) as u32,
                block_hash: stage.block_hash,
            },
        ),
{
    numbers::law_u32_is_four_bytes(b0, b1, b2, b3, rest);
}

/// The storage and the phase are taken as they come, for every hash, every storage and every phase.
pub proof fn law_storage_and_phase_are_taken_as_they_come<S, E>(
    block_hash: Option<crate::primitives::Hash>,
    storage: S,
    phase: Phase,
    rest: Seq<u8>,
)
    ensures
        (DetailsStorage { block_hash }).spec_on_reply(Ok::<S, E>(storage)) == Ok::<
            DetailsPhase<S>,
            DetailsError<E>,
        >(DetailsPhase { block_hash, storage }),
        (DetailsPhase { block_hash, storage }).spec_on_reply(
            Ok::<Seq<u8>, E>(multi_block_state_client::phase_bytes(phase) + rest),
        ) == Ok::<DetailsRound<S>, DetailsError<E>>(DetailsRound { block_hash, storage, phase }),
{
    multi_block_state_client::law_phase_round_trip(phase, rest);
}

/// Pages are read within the limits of the chain's constants and of the settings that hold, just
/// as these are.
pub proof fn law_limits_are_those_of_chain_and_settings(
    constants: MinerConstants,
    config: ElectionConfig,
)
    ensures
        snapshot::page_limits(constants, config).voters_per_page
            == constants.voter_snapshot_per_block,
        snapshot::page_limits(constants, config).targets_per_page
            == constants.target_snapshot_per_block,
        snapshot::page_limits(constants, config).max_votes == config.max_votes_per_voter,
{
}

/// As long as pages of voters are missing, every page of no more voters than the chain allows, of
/// no more votes each than the settings allow, is accepted and put behind those before it, as it
/// was written.
pub proof fn law_pages_within_the_limits_are_accepted<E>(
    fetch: snapshot::SnapshotFetchView,
    constants: MinerConstants,
    config: ElectionConfig,
    v: Seq<(Seq<u8>, u64, Seq<Seq<u8>>)>,
    rest: Seq<u8>,
)
    requires
        fetch.voters.len() < fetch.n_pages,
        v.len() <= constants.voter_snapshot_per_block,
        forall|i: int|
            0 <= i < v.len() ==> (#[trigger] v[i]).0.len() == 32 && v[i].2.len()
                <= config.max_votes_per_voter,
        forall|i: int, j: int|
            0 <= i < v.len() && 0 <= j < v[i].2.len() ==> (#[trigger] v[i].2[j]).len() == 32,
    ensures
        ({
            let each = Seq::new(
                v.len(),
                |i: int|
                    v[i].0 + scale::le_bytes(v[i].1 as nat, 8) + scale::compact_bytes(v[i].2.len())
                        + v[i].2.flatten(),
            );
            let step = fetch.on_reply(
                snapshot::page_limits(constants, config),
                Ok::<Option<Seq<u8>>, E>(
                    Some(scale::compact_bytes(v.len()) + each.flatten() + rest),
                ),
            );
            &&& step is Ok && step->Ok_0 is Fetch
            &&& step->Ok_0->Fetch_0.voters == fetch.voters.push(v)
            &&& step->Ok_0->Fetch_0.round == fetch.round
            &&& step->Ok_0->Fetch_0.n_pages == fetch.n_pages
        }),
{
    formats::law_voter_page_layout(
        v,
        constants.voter_snapshot_per_block,
        config.max_votes_per_voter,
        rest,
    );
}

/// Once all pages of voters are there, every page of no more targets than the chain allows
/// completes the snapshot, as it was written.
pub proof fn law_targets_within_the_limit_complete<E>(
    fetch: snapshot::SnapshotFetchView,
    constants: MinerConstants,
    config: ElectionConfig,
    v: Seq<Seq<u8>>,
    rest: Seq<u8>,
)
    requires
        fetch.voters.len() >= fetch.n_pages,
        v.len() <= constants.target_snapshot_per_block,
        forall|i: int| 0 <= i < v.len() ==> (#[trigger] v[i]).len() == 32,
    ensures
        ({
            let step = fetch.on_reply(
                snapshot::page_limits(constants, config),
                Ok::<Option<Seq<u8>>, E>(Some(scale::compact_bytes(v.len()) + v.flatten() + rest)),
            );
            &&& step is Ok && step->Ok_0 is Done
            &&& step->Ok_0->Done_0.voters == fetch.voters
            &&& step->Ok_0->Done_0.targets == v
        }),
{
    formats::law_target_page_layout(v, constants.target_snapshot_per_block, rest);
}

/// A page that reads as none, beyond a limit for one, ends the snapshot with the error of that
/// page; so does a missing page, and a request that fails.
pub proof fn law_broken_pages_end_the_snapshot<E>(
    fetch: snapshot::SnapshotFetchView,
    constants: MinerConstants,
    config: ElectionConfig,
    b: Seq<u8>,
    error: E,
)
    ensures
        ({
            let limits = snapshot::page_limits(constants, config);
            let read = fetch.on_reply(limits, Ok::<Option<Seq<u8>>, E>(Some(b)));
            let missing = fetch.on_reply(limits, Ok::<Option<Seq<u8>>, E>(None));
            &&& fetch.voters.len() < fetch.n_pages && multi_block_state_client::parse_voter_page(
                b,
                constants.voter_snapshot_per_block as nat,
                config.max_votes_per_voter as nat,
            ) is None ==> read is Err && read->Err_0 == DetailsError::<E>::Reply(
                StorageError::Decode(
                    multi_block_state_client::voter_page_error(
                        b,
                        constants.voter_snapshot_per_block as nat,
                        config.max_votes_per_voter as nat,
                    ),
                ),
            )
            &&& fetch.voters.len() >= fetch.n_pages && multi_block_state_client::parse_target_page(
                b,
                constants.target_snapshot_per_block as nat,
            ) is None ==> read is Err && read->Err_0 == DetailsError::<E>::Reply(
                StorageError::Decode(
                    multi_block_state_client::target_page_error(
                        b,
                        constants.target_snapshot_per_block as nat,
                    ),
                ),
            )
            &&& missing is Err
            &&& fetch.voters.len() < fetch.n_pages ==> missing->Err_0 == DetailsError::<E>::Reply(
                StorageError::NotFound(storage::StorageItem::VoterSnapshot),
            )
            &&& fetch.voters.len() >= fetch.n_pages ==> missing->Err_0 == DetailsError::<E>::Reply(
                StorageError::NotFound(storage::StorageItem::TargetSnapshot),
            )
            &&& fetch.on_reply(limits, Err::<Option<Seq<u8>>, E>(error)) == Err::<
                snapshot::SnapshotStepView,
                DetailsError<E>,
            >(DetailsError::Request(error))
        }),
{
}

/// The page of voters that is asked for is the first that is missing; behind the last of them it
/// is the page of targets, under the number of the last page.
pub proof fn law_pages_are_asked_for_in_order(fetch: snapshot::SnapshotFetchView)
    ensures
        fetch.voters.len() < fetch.n_pages ==> {
            &&& fetch.key().pallet == "MultiBlockElection"@
            &&& fetch.key().entry == "PagedVoterSnapshot"@
            &&& fetch.key().keys.len() == 2
            &&& fetch.key().keys[0] == storage::KeyPartView::U32(fetch.round)
            &&& fetch.key().keys[1] == storage::KeyPartView::U32(fetch.voters.len() as u32)
        },
        fetch.voters.len() >= fetch.n_pages ==> {
            &&& fetch.key().pallet == "MultiBlockElection"@
            &&& fetch.key().entry == "PagedTargetSnapshot"@
            &&& fetch.key().keys.len() == 2
            &&& fetch.key().keys[0] == storage::KeyPartView::U32(fetch.round)
            &&& fetch.n_pages > 0 ==> fetch.key().keys[1] == storage::KeyPartView::U32(
                (fetch.n_pages - 1) as u32,
            )
            &&& fetch.n_pages == 0 ==> fetch.key().keys[1] == storage::KeyPartView::U32(0)
        },
{
}

/// A snapshot, and one that is being read, say their fields, page by page and in order.
pub proof fn law_snapshots_say_their_fields(
    s: ElectionSnapshotPage,
    f: SnapshotFetch,
    pages: Seq<VoterSnapshotPage>,
    i: int,
)
    ensures
        s@.voters == snapshot::voter_pages(s.voters@),
        s@.targets == scale::accounts(s.targets@),
        f@.round == f.round,
        f@.n_pages == f.n_pages,
        f@.voters == snapshot::voter_pages(f.voters@),
        snapshot::voter_pages(pages).len() == pages.len(),
        0 <= i < pages.len() ==> snapshot::voter_pages(pages)[i]
            == multi_block_state_client::voters(pages[i]@),
        SnapshotStep::Fetch(f)@ == snapshot::SnapshotStepView::Fetch(f@),
        SnapshotStep::Done(s)@ == snapshot::SnapshotStepView::Done(s@),
{
}

/// What a step says is what it is, and the error where there is none.
pub proof fn law_steps_say_what_they_are<E>(step: SnapshotStep, error: DetailsError<E>)
    ensures
        snapshot::step_view(Ok::<SnapshotStep, DetailsError<E>>(step)) == Ok::<
            snapshot::SnapshotStepView,
            DetailsError<E>,
        >(step@),
        snapshot::step_view(Err::<SnapshotStep, DetailsError<E>>(error)) == Err::<
            snapshot::SnapshotStepView,
            DetailsError<E>,
        >(error),
{
}

} // verus!
