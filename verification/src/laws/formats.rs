//! How the values of the election and of the staking pallet are laid out.

use crate::decode_error;
use crate::decode_error::{DecodeError, Fault, Part};
use crate::laws::numbers;
use crate::miner_config;
use crate::miner_config::{BlockLength, PerDispatchClass};
use crate::multi_block_state_client;
use crate::multi_block_state_client::{ListBag, ListNode, Phase, VoterData};
use crate::scale;
use crate::staking;
use crate::staking::{NominationsLight, StakingLedger, UnlockChunk, ValidatorPrefs};
use crate::storage::{StorageError, StorageItem};
use vstd::prelude::*;

verus! {

proof fn lemma_six(a: Seq<u8>, b: Seq<u8>, c: Seq<u8>, d: Seq<u8>, e: Seq<u8>, f: Seq<u8>)
    ensures
        a + (b + (c + (d + (e + f)))) == a + b + c + d + e + f,
{
    assert(a + (b + (c + (d + (e + f)))) =~= a + b + c + d + e + f);
}

proof fn lemma_five(a: Seq<u8>, b: Seq<u8>, c: Seq<u8>, d: Seq<u8>, e: Seq<u8>)
    ensures
        a + (b + (c + (d + e))) == a + b + c + d + e,
{
    assert(a + (b + (c + (d + e))) =~= a + b + c + d + e);
}

proof fn lemma_prefix(head: Seq<u8>, tail: Seq<u8>)
    ensures
        head.is_prefix_of(head + tail),
{
    assert(head =~= (head + tail).take(head.len() as int));
}

/// A phase is its place in the order of the phases, and then, in five of them, a `u32`.
pub proof fn law_phase_layout(n: u32, rest: Seq<u8>)
    ensures
        multi_block_state_client::parse_phase(seq![0u8] + rest) == Some(Phase::Off),
        multi_block_state_client::parse_phase(seq![1u8] + scale::le_bytes(n as nat, 4) + rest)
            == Some(Phase::Signed(n)),
        multi_block_state_client::parse_phase(seq![2u8] + scale::le_bytes(n as nat, 4) + rest)
            == Some(Phase::SignedValidation(n)),
        multi_block_state_client::parse_phase(seq![3u8] + scale::le_bytes(n as nat, 4) + rest)
            == Some(Phase::Unsigned(n)),
        multi_block_state_client::parse_phase(seq![4u8] + scale::le_bytes(n as nat, 4) + rest)
            == Some(Phase::Snapshot(n)),
        multi_block_state_client::parse_phase(seq![5u8] + rest) == Some(Phase::Done),
        multi_block_state_client::parse_phase(seq![6u8] + scale::le_bytes(n as nat, 4) + rest)
            == Some(Phase::Export(n)),
        multi_block_state_client::parse_phase(seq![7u8] + rest) == Some(Phase::Emergency),
        multi_block_state_client::phase_bytes(Phase::Off) == seq![0u8],
        multi_block_state_client::phase_bytes(Phase::Signed(n)) == seq![1u8] + scale::le_bytes(
            n as nat,
            4,
        ),
        multi_block_state_client::phase_bytes(Phase::SignedValidation(n)) == seq![2u8]
            + scale::le_bytes(n as nat, 4),
        multi_block_state_client::phase_bytes(Phase::Unsigned(n)) == seq![3u8] + scale::le_bytes(
            n as nat,
            4,
        ),
        multi_block_state_client::phase_bytes(Phase::Snapshot(n)) == seq![4u8] + scale::le_bytes(
            n as nat,
            4,
        ),
        multi_block_state_client::phase_bytes(Phase::Done) == seq![5u8],
        multi_block_state_client::phase_bytes(Phase::Export(n)) == seq![6u8] + scale::le_bytes(
            n as nat,
            4,
        ),
        multi_block_state_client::phase_bytes(Phase::Emergency) == seq![7u8],
{
    multi_block_state_client::law_phase_round_trip(Phase::Off, rest);
    multi_block_state_client::law_phase_round_trip(Phase::Signed(n), rest);
    multi_block_state_client::law_phase_round_trip(Phase::SignedValidation(n), rest);
    multi_block_state_client::law_phase_round_trip(Phase::Unsigned(n), rest);
    multi_block_state_client::law_phase_round_trip(Phase::Snapshot(n), rest);
    multi_block_state_client::law_phase_round_trip(Phase::Done, rest);
    multi_block_state_client::law_phase_round_trip(Phase::Export(n), rest);
    multi_block_state_client::law_phase_round_trip(Phase::Emergency, rest);
}

/// No phase reads from no bytes, from a number above seven, or from fewer than four bytes behind
/// the number of a phase with a `u32`; the error says which it is.
pub proof fn law_broken_phases(x: u8, tail: Seq<u8>)
    ensures
        multi_block_state_client::parse_phase(Seq::empty()) is None,
        multi_block_state_client::phase_error(Seq::empty()) == (DecodeError {
            field: Some(Part::PhaseIndex),
            inner: None,
            fault: Fault::NotEnoughData,
        }),
        x > 7 ==> multi_block_state_client::parse_phase(seq![x] + tail) is None
            && multi_block_state_client::phase_error(seq![x] + tail) == (DecodeError {
            field: None,
            inner: None,
            fault: Fault::UnknownPhase,
        }),
        tail.len() < 4 && (1 <= x <= 4 || x == 6) ==> multi_block_state_client::parse_phase(
            seq![x] + tail,
        ) is None && multi_block_state_client::phase_error(seq![x] + tail) == (DecodeError {
            field: Some(
                if x == 1 {
                    Part::PhaseSigned
                } else if x == 2 {
                    Part::PhaseSignedValidation
                } else if x == 3 {
                    Part::PhaseUnsigned
                } else if x == 4 {
                    Part::PhaseSnapshot
                } else {
                    Part::PhaseExport
                },
            ),
            inner: None,
            fault: Fault::NotEnoughData,
        }),
{
    let b = seq![x] + tail;
    assert(b[0] == x);
    assert(b.skip(1) =~= tail);
}

/// Snapshots are there once they are done, in the signed phase, its validation and the unsigned
/// phase, and while the export goes on. They are not before the election, while they are being
/// created, and in an emergency.
pub proof fn law_phases_with_a_snapshot(n: u32)
    ensures
        Phase::Done.spec_has_snapshot(),
        Phase::Signed(n).spec_has_snapshot(),
        Phase::SignedValidation(n).spec_has_snapshot(),
        Phase::Unsigned(n).spec_has_snapshot(),
        Phase::Export(n).spec_has_snapshot(),
        !Phase::Off.spec_has_snapshot(),
        !Phase::Snapshot(n).spec_has_snapshot(),
        !Phase::Emergency.spec_has_snapshot(),
{
}

/// The bytes of an account that may be absent: the byte `0`, or the byte `1` and the account.
pub open spec fn maybe(a: Option<Seq<u8>>) -> Seq<u8> {
    match a {
        None => seq![0u8],
        Some(a) => seq![1u8] + a,
    }
}

proof fn lemma_maybe(a: Option<Seq<u8>>)
    ensures
        maybe(a) == scale::optional_account_bytes(a),
{
}

/// A bag of the voter list is its head and then its tail, each of which may be absent.
pub proof fn law_list_bag_layout(head: Seq<u8>, tail: Seq<u8>, rest: Seq<u8>)
    requires
        head.len() == 32,
        tail.len() == 32,
    ensures
        ({
            let both = multi_block_state_client::parse_list_bag(
                seq![1u8] + head + seq![1u8] + tail + rest,
            );
            let first = multi_block_state_client::parse_list_bag(
                seq![1u8] + head + seq![0u8] + rest,
            );
            let last = multi_block_state_client::parse_list_bag(
                seq![0u8] + seq![1u8] + tail + rest,
            );
            let neither = multi_block_state_client::parse_list_bag(seq![0u8] + seq![0u8] + rest);
            &&& both is Some && both->0.head == Some(head) && both->0.tail == Some(tail)
            &&& first is Some && first->0.head == Some(head) && first->0.tail is None
            &&& last is Some && last->0.head is None && last->0.tail == Some(tail)
            &&& neither is Some && neither->0.head is None && neither->0.tail is None
        }),
{
    lemma_bag(Some(head), Some(tail), rest);
    lemma_bag(Some(head), None, rest);
    lemma_bag(None, Some(tail), rest);
    lemma_bag(None, None, rest);
    assert(maybe(Some(head)) + maybe(Some(tail)) + rest =~= seq![1u8] + head + seq![1u8] + tail
        + rest);
    assert(maybe(None) + maybe(Some(tail)) + rest =~= seq![0u8] + seq![1u8] + tail + rest);
}

proof fn lemma_bag(head: Option<Seq<u8>>, tail: Option<Seq<u8>>, rest: Seq<u8>)
    requires
        head matches Some(a) ==> a.len() == 32,
        tail matches Some(a) ==> a.len() == 32,
    ensures
        multi_block_state_client::parse_list_bag(maybe(head) + maybe(tail) + rest) == Some(
            multi_block_state_client::ListBagView { head, tail },
        ),
{
    let v = multi_block_state_client::ListBagView { head, tail };
    multi_block_state_client::law_list_bag_round_trip(v, rest);
    lemma_maybe(head);
    lemma_maybe(tail);
    scale::law_optional_account_round_trip(head, maybe(tail) + rest);
    scale::law_optional_account_round_trip(tail, rest);
    assert(maybe(head) + maybe(tail) + rest =~= maybe(head) + (maybe(tail) + rest));
}

/// What reads as a bag is laid out as one.
pub proof fn law_list_bag_canonical(b: Seq<u8>)
    ensures
        multi_block_state_client::parse_list_bag(b) matches Some(v) ==> (maybe(v.head) + maybe(
            v.tail,
        )).is_prefix_of(b),
{
    numbers::law_optional_account_canonical(b);
    if let Some((head, b1)) = scale::parse_optional_account(b) {
        numbers::law_optional_account_canonical(b1);
        if let Some((tail, b2)) = scale::parse_optional_account(b1) {
            assert(b =~= maybe(head) + maybe(tail) + b2);
            lemma_prefix(maybe(head) + maybe(tail), b2);
        }
    }
}

/// A bag is written head first.
pub proof fn law_list_bag_is_written_in_order(bag: ListBag)
    ensures
        multi_block_state_client::list_bag_bytes(bag@) == maybe(scale::optional_account(bag.head))
            + maybe(scale::optional_account(bag.tail)),
        bag@.head == scale::optional_account(bag.head),
        bag@.tail == scale::optional_account(bag.tail),
{
}

/// A node of the voter list is its account, then the one before it, then the one behind it, each
/// of which may be absent.
pub proof fn law_list_node_layout(id: Seq<u8>, prev: Seq<u8>, next: Seq<u8>, rest: Seq<u8>)
    requires
        id.len() == 32,
        prev.len() == 32,
        next.len() == 32,
    ensures
        ({
            let both = multi_block_state_client::parse_list_node(
                id + seq![1u8] + prev + seq![1u8] + next + rest,
            );
            let last = multi_block_state_client::parse_list_node(
                id + seq![1u8] + prev + seq![0u8] + rest,
            );
            let first = multi_block_state_client::parse_list_node(
                id + seq![0u8] + seq![1u8] + next + rest,
            );
            let only = multi_block_state_client::parse_list_node(id + seq![0u8] + seq![0u8] + rest);
            &&& both is Some && both->0.id == id && both->0.prev == Some(prev) && both->0.next
                == Some(next)
            &&& last is Some && last->0.id == id && last->0.prev == Some(prev)
            &&& last->0.next is None
            &&& first is Some && first->0.id == id && first->0.prev is None
            &&& first->0.next == Some(next)
            &&& only is Some && only->0.id == id && only->0.prev is None && only->0.next is None
        }),
{
    lemma_node(id, Some(prev), Some(next), rest);
    lemma_node(id, Some(prev), None, rest);
    lemma_node(id, None, Some(next), rest);
    lemma_node(id, None, None, rest);
    assert(id + maybe(Some(prev)) + maybe(Some(next)) + rest =~= id + seq![1u8] + prev + seq![1u8]
        + next + rest);
    assert(id + maybe(Some(prev)) + maybe(None) + rest =~= id + seq![1u8] + prev + seq![0u8]
        + rest);
    assert(id + maybe(None) + maybe(Some(next)) + rest =~= id + seq![0u8] + seq![1u8] + next
        + rest);
}

proof fn lemma_node(id: Seq<u8>, prev: Option<Seq<u8>>, next: Option<Seq<u8>>, rest: Seq<u8>)
    requires
        id.len() == 32,
        prev matches Some(a) ==> a.len() == 32,
        next matches Some(a) ==> a.len() == 32,
    ensures
        multi_block_state_client::parse_list_node(id + maybe(prev) + maybe(next) + rest) == Some(
            multi_block_state_client::ListNodeView { id, prev, next },
        ),
{
    lemma_maybe(prev);
    lemma_maybe(next);
    let b2 = maybe(next) + rest;
    let b1 = maybe(prev) + b2;
    assert(id + maybe(prev) + maybe(next) + rest =~= id + b1);
    scale::law_account_round_trip(id, b1);
    scale::law_optional_account_round_trip(prev, b2);
    scale::law_optional_account_round_trip(next, rest);
}

/// What reads as a node is laid out as one.
pub proof fn law_list_node_canonical(b: Seq<u8>)
    ensures
        multi_block_state_client::parse_list_node(b) matches Some(v) ==> v.id.len() == 32 && (v.id
            + maybe(v.prev) + maybe(v.next)).is_prefix_of(b),
{
    if let Some((id, b1)) = scale::parse_account(b) {
        assert(b =~= id + b1);
        numbers::law_optional_account_canonical(b1);
        if let Some((prev, b2)) = scale::parse_optional_account(b1) {
            numbers::law_optional_account_canonical(b2);
            if let Some((next, b3)) = scale::parse_optional_account(b2) {
                let head = id + maybe(prev) + maybe(next);
                assert(b =~= head + b3);
                assert(head =~= b.take(head.len() as int));
            }
        }
    }
}

/// A node is written with its account first, then the one before it, then the one behind it.
pub proof fn law_list_node_is_written_in_order(node: ListNode)
    ensures
        multi_block_state_client::list_node_bytes(node@) == node.id@ + maybe(
            scale::optional_account(node.prev),
        ) + maybe(scale::optional_account(node.next)),
        node@.id == node.id@,
        node@.prev == scale::optional_account(node.prev),
        node@.next == scale::optional_account(node.next),
{
}

/// The error of a bag or a node names the first field that does not read, and what is wrong with
/// it.
pub proof fn law_list_errors(id: Seq<u8>, a: Option<Seq<u8>>, bad: Seq<u8>)
    requires
        a matches Some(a) ==> a.len() == 32,
        scale::parse_optional_account(bad) is None,
    ensures
        multi_block_state_client::list_bag_error(bad) == (DecodeError {
            field: Some(Part::BagHead),
            inner: None,
            fault: scale::optional_account_fault(bad),
        }),
        multi_block_state_client::list_bag_error(maybe(a) + bad) == (DecodeError {
            field: Some(Part::BagTail),
            inner: None,
            fault: scale::optional_account_fault(bad),
        }),
        id.len() < 32 ==> multi_block_state_client::list_node_error(id) == (DecodeError {
            field: Some(Part::NodeId),
            inner: None,
            fault: Fault::ShortAccount,
        }),
        id.len() == 32 ==> multi_block_state_client::list_node_error(id + bad) == (DecodeError {
            field: Some(Part::NodePrev),
            inner: None,
            fault: scale::optional_account_fault(bad),
        }),
        id.len() == 32 ==> multi_block_state_client::list_node_error(id + maybe(a) + bad) == (
        DecodeError {
            field: Some(Part::NodeNext),
            inner: None,
            fault: scale::optional_account_fault(bad),
        }),
{
    lemma_maybe(a);
    scale::law_optional_account_round_trip(a, bad);
    if id.len() == 32 {
        scale::law_account_round_trip(id, bad);
        scale::law_account_round_trip(id, maybe(a) + bad);
        assert(id + maybe(a) + bad =~= id + (maybe(a) + bad));
    }
}

/// The preferences of a validator are its commission in the compact form, which counts up to one
/// billion and no further, and then whether it is blocked.
pub proof fn law_validator_prefs_layout(n: nat, blocked: bool, rest: Seq<u8>)
    requires
        n <= u32::MAX,
    ensures
        ({
            let b = scale::compact_bytes(n) + seq![
                if blocked {
                    1u8
                } else {
                    0u8
                },
            ] + rest;
            let v = staking::parse_validator_prefs(b);
            &&& v is Some
            &&& v->0.blocked == blocked
            &&& n <= 1_000_000_000 ==> v->0.commission == n
            &&& n > 1_000_000_000 ==> v->0.commission == 1_000_000_000
        }),
{
    scale::lemma_pow256();
    numbers::law_powers(4);
    let flag = seq![
        if blocked {
            1u8
        } else {
            0u8
        },
    ];
    assert(flag =~= scale::bool_bytes(blocked));
    numbers::law_compact_reads(n, 4, flag + rest);
    scale::law_bool_round_trip(blocked, rest);
    assert(scale::compact_bytes(n) + flag + rest =~= scale::compact_bytes(n) + (flag + rest));
}

/// What reads as the preferences of a validator is laid out as them.
pub proof fn law_validator_prefs_canonical(b: Seq<u8>)
    ensures
        staking::parse_validator_prefs(b) matches Some(v) ==> exists|n: nat|
            n <= u32::MAX && (#[trigger] scale::compact_bytes(n) + scale::bool_bytes(
                v.blocked,
            )).is_prefix_of(b),
{
    scale::lemma_pow256();
    numbers::law_powers(4);
    numbers::law_compact_canonical(b, 4);
    if let Some((n, rest)) = scale::parse_compact(b, 4) {
        if let Some((blocked, last)) = scale::parse_bool(rest) {
            assert(rest =~= scale::bool_bytes(blocked) + last);
            let head = scale::compact_bytes(n) + scale::bool_bytes(blocked);
            assert(b =~= head + last);
            assert(head =~= b.take(head.len() as int));
            assert(head.is_prefix_of(b));
        }
    }
}

/// The preferences of a validator are written as they are laid out.
pub proof fn law_validator_prefs_are_written_in_order(v: ValidatorPrefs)
    ensures
        staking::validator_prefs_bytes(v) == scale::compact_bytes(v.commission as nat) + seq![
            if v.blocked {
                1u8
            } else {
                0u8
            },
        ],
{
}

/// The error of the preferences names the first field that does not read.
pub proof fn law_validator_prefs_errors(bad: Seq<u8>, n: nat, flag: Seq<u8>)
    requires
        scale::parse_compact(bad, 4) is None,
        n <= u32::MAX,
        scale::parse_bool(flag) is None,
    ensures
        staking::validator_prefs_error(bad) == (DecodeError {
            field: Some(Part::PrefsCommission),
            inner: None,
            fault: scale::compact_fault(bad, 4),
        }),
        staking::validator_prefs_error(scale::compact_bytes(n) + flag) == (DecodeError {
            field: Some(Part::PrefsBlocked),
            inner: None,
            fault: scale::bool_fault(flag),
        }),
{
    scale::lemma_pow256();
    numbers::law_powers(4);
    numbers::law_compact_reads(n, 4, flag);
}

/// Nominations are the accounts that are nominated, the era in four bytes, and whether they are
/// suppressed.
pub proof fn law_nominations_layout(
    targets: Seq<Seq<u8>>,
    era: u32,
    suppressed: bool,
    rest: Seq<u8>,
)
    requires
        targets.len() <= u32::MAX,
        forall|i: int| 0 <= i < targets.len() ==> (#[trigger] targets[i]).len() == 32,
    ensures
        ({
            let b = scale::compact_bytes(targets.len()) + targets.flatten() + scale::le_bytes(
                era as nat,
                4,
            ) + seq![
                if suppressed {
                    1u8
                } else {
                    0u8
                },
            ] + rest;
            let v = staking::parse_nominations(b);
            &&& v is Some
            &&& v->0.targets == targets
            &&& v->0.submitted_in == era
            &&& v->0.suppressed == suppressed
        }),
{
    scale::lemma_pow256();
    let flag = seq![
        if suppressed {
            1u8
        } else {
            0u8
        },
    ];
    assert(flag =~= scale::bool_bytes(suppressed));
    let list = scale::compact_bytes(targets.len()) + targets.flatten();
    let b1 = scale::le_bytes(era as nat, 4) + (flag + rest);
    numbers::law_account_list_layout(targets, b1);
    scale::law_number_round_trip(era as nat, 4, flag + rest);
    scale::law_bool_round_trip(suppressed, rest);
    assert(list + scale::le_bytes(era as nat, 4) + flag + rest =~= list + b1);
}

/// What reads as nominations is laid out as them.
pub proof fn law_nominations_canonical(b: Seq<u8>)
    ensures
        staking::parse_nominations(b) matches Some(v) ==> (scale::compact_bytes(v.targets.len())
            + v.targets.flatten() + scale::le_bytes(v.submitted_in as nat, 4) + scale::bool_bytes(
            v.suppressed,
        )).is_prefix_of(b),
{
    numbers::law_account_list_canonical(b);
    scale::lemma_pow256();
    if let Some((targets, b1)) = scale::parse_account_list(b) {
        if let Some((era, b2)) = scale::parse_number(b1, 4) {
            scale::lemma_le_bytes_of_le(b1.take(4));
            assert(b1 =~= b1.take(4) + b2);
            if let Some((suppressed, b3)) = scale::parse_bool(b2) {
                assert(b2 =~= scale::bool_bytes(suppressed) + b3);
                let head = scale::compact_bytes(targets.len()) + targets.flatten()
                    + scale::le_bytes(era, 4) + scale::bool_bytes(suppressed);
                assert(b =~= head + b3);
                assert(head =~= b.take(head.len() as int));
            }
        }
    }
}

/// Nominations say what their fields hold, and are written in the order of the fields.
pub proof fn law_nominations_say_their_fields(v: NominationsLight)
    ensures
        v@.targets == scale::accounts(v.targets@),
        v@.submitted_in == v._submitted_in,
        v@.suppressed == v.suppressed,
        staking::nominations_bytes(v@) == scale::compact_bytes(v.targets@.len()) + scale::accounts(
            v.targets@,
        ).flatten() + scale::le_bytes(v._submitted_in as nat, 4) + scale::bool_bytes(v.suppressed),
{
    numbers::lemma_joined_is_flatten(scale::accounts(v.targets@));
}

/// The error of nominations names the first field that does not read.
pub proof fn law_nominations_errors(b: Seq<u8>)
    ensures
        scale::parse_account_list(b) is None ==> staking::nominations_error(b) == (DecodeError {
            field: Some(Part::NominationsTargets),
            inner: None,
            fault: scale::account_list_fault(b),
        }),
        scale::parse_account_list(b) matches Some((_, rest)) ==> {
            &&& rest.len() < 4 ==> staking::nominations_error(b) == (DecodeError {
                field: Some(Part::NominationsSubmittedIn),
                inner: None,
                fault: Fault::NotEnoughData,
            })
            &&& rest.len() >= 4 ==> staking::nominations_error(b) == (DecodeError {
                field: Some(Part::NominationsSuppressed),
                inner: None,
                fault: scale::bool_fault(rest.skip(4)),
            })
        },
{
}

/// The bytes of unlocking chunks, each its value and its era in the compact form.
pub open spec fn chunk_layout(chunks: Seq<UnlockChunk>) -> Seq<Seq<u8>> {
    Seq::new(
        chunks.len(),
        |i: int|
            scale::compact_bytes(chunks[i].value as nat) + scale::compact_bytes(
                chunks[i].era as nat,
            ),
    )
}

proof fn lemma_chunks_are_flat(v: Seq<UnlockChunk>)
    ensures
        staking::chunks_bytes(v) == chunk_layout(v).flatten(),
    decreases v.len(),
{
    if v.len() > 0 {
        lemma_chunks_are_flat(v.skip(1));
        assert(chunk_layout(v).drop_first() =~= chunk_layout(v.skip(1)));
    }
}

/// A staking ledger is its stash, then the total and the active funds in the compact form, then
/// the chunks that are on their way out, behind their number.
pub proof fn law_ledger_layout(
    stash: Seq<u8>,
    total: u128,
    active: u128,
    unlocking: Seq<UnlockChunk>,
    rest: Seq<u8>,
)
    requires
        stash.len() == 32,
        unlocking.len() <= u32::MAX,
    ensures
        ({
            let chunks = Seq::new(
                unlocking.len(),
                |i: int|
                    scale::compact_bytes(unlocking[i].value as nat) + scale::compact_bytes(
                        unlocking[i].era as nat,
                    ),
            ).flatten();
            let b = stash + scale::compact_bytes(total as nat) + scale::compact_bytes(
                active as nat,
            ) + scale::compact_bytes(unlocking.len()) + chunks + rest;
            let v = staking::parse_ledger(b);
            &&& v is Some
            &&& v->0.stash == stash
            &&& v->0.total == total
            &&& v->0.active == active
            &&& v->0.unlocking == unlocking
        }),
{
    lemma_chunks_are_flat(unlocking);
    let v = staking::LedgerView { stash, total, active, unlocking };
    staking::law_ledger_round_trip(v, rest);
    assert(Seq::new(
        unlocking.len(),
        |i: int|
            scale::compact_bytes(unlocking[i].value as nat) + scale::compact_bytes(
                unlocking[i].era as nat,
            ),
    ) =~= chunk_layout(unlocking));
    let t = scale::compact_bytes(total as nat);
    let a = scale::compact_bytes(active as nat);
    let c = scale::compact_bytes(unlocking.len());
    let g = chunk_layout(unlocking).flatten();
    lemma_ledger_head(stash, total, active, unlocking.len(), g + rest);
    lemma_six(stash, t, a, c, g, rest);
    staking::lemma_chunks_round_trip(unlocking, rest);
}

proof fn lemma_chunk_canonical(b: Seq<u8>)
    ensures
        staking::parse_chunk(b) matches Some((v, rest)) ==> b == scale::compact_bytes(
            v.value as nat,
        ) + scale::compact_bytes(v.era as nat) + rest,
{
    if let Some((value, b1)) = scale::parse_compact(b, 16) {
        if let Some((era, b2)) = scale::parse_compact(b1, 4) {
            let x = scale::compact_bytes(value);
            let y = scale::compact_bytes(era);
            assert(b == x + b1 && value <= u128::MAX) by {
                lemma_compact_u128(b);
            }
            assert(b1 == y + b2 && era <= u32::MAX) by {
                scale::lemma_pow256();
                numbers::law_powers(4);
                numbers::law_compact_canonical(b1, 4);
            }
            assert(x + (y + b2) =~= x + y + b2);
        }
    }
}

proof fn lemma_chunk_layout_step(first: UnlockChunk, tail: Seq<UnlockChunk>, rest: Seq<u8>)
    ensures
        chunk_layout(seq![first] + tail).flatten() + rest == scale::compact_bytes(
            first.value as nat,
        ) + scale::compact_bytes(first.era as nat) + (chunk_layout(tail).flatten() + rest),
{
    let v = seq![first] + tail;
    let x = scale::compact_bytes(first.value as nat) + scale::compact_bytes(first.era as nat);
    assert(chunk_layout(v).first() == x);
    assert(chunk_layout(v).drop_first() =~= chunk_layout(tail));
    let y = chunk_layout(tail).flatten();
    assert(x + (y + rest) =~= x + y + rest);
}

proof fn lemma_chunks_canonical(b: Seq<u8>, n: nat)
    ensures
        staking::parse_chunks(b, n) matches Some((v, rest)) ==> v.len() == n && b == chunk_layout(
            v,
        ).flatten() + rest,
    decreases n,
{
    if n == 0 {
        assert(chunk_layout(Seq::empty()).flatten() =~= Seq::empty());
        assert(b =~= Seq::empty() + b);
    } else {
        let read = staking::parse_chunk(b);
        if read is Some {
            let first = (read->0).0;
            let b1 = (read->0).1;
            lemma_chunks_canonical(b1, (n - 1) as nat);
            let more = staking::parse_chunks(b1, (n - 1) as nat);
            if more is Some {
                assert(b == chunk_layout(seq![first] + (more->0).0).flatten() + (more->0).1) by {
                    lemma_chunk_canonical(b);
                    lemma_chunk_layout_step(first, (more->0).0, (more->0).1);
                }
            }
        }
    }
}

/// What reads as a ledger is laid out as one.
pub proof fn law_ledger_canonical(b: Seq<u8>)
    ensures
        staking::parse_ledger(b) matches Some(v) ==> v.stash.len() == 32 && (v.stash
            + scale::compact_bytes(v.total as nat) + scale::compact_bytes(v.active as nat)
            + scale::compact_bytes(v.unlocking.len()) + chunk_layout(
            v.unlocking,
        ).flatten()).is_prefix_of(b),
{
    if let Some((stash, b1)) = scale::parse_account(b) {
        if let Some((total, b2)) = scale::parse_compact(b1, 16) {
            if let Some((active, b3)) = scale::parse_compact(b2, 16) {
                if let Some((n, b4)) = scale::parse_compact(b3, 4) {
                    if let Some((unlocking, b5)) = staking::parse_chunks(b4, n) {
                        let t = scale::compact_bytes(total);
                        let a = scale::compact_bytes(active);
                        let c = scale::compact_bytes(n);
                        let g = chunk_layout(unlocking).flatten();
                        assert(b == stash + b1) by {
                            assert(b =~= stash + b1);
                        }
                        assert(b1 == t + b2 && total <= u128::MAX) by {
                            lemma_compact_u128(b1);
                        }
                        assert(b2 == a + b3 && active <= u128::MAX) by {
                            lemma_compact_u128(b2);
                        }
                        assert(b3 == c + b4) by {
                            numbers::law_compact_canonical(b3, 4);
                        }
                        assert(b4 == g + b5 && unlocking.len() == n) by {
                            lemma_chunks_canonical(b4, n);
                        }
                        lemma_six(stash, t, a, c, g, b5);
                        lemma_prefix(stash + t + a + c + g, b5);
                    }
                }
            }
        }
    }
}

proof fn lemma_compact_u128(b: Seq<u8>)
    ensures
        scale::parse_compact(b, 16) matches Some((n, rest)) ==> b == scale::compact_bytes(n) + rest
            && n <= u128::MAX,
{
    scale::lemma_pow256();
    numbers::law_powers(16);
    numbers::law_compact_canonical(b, 16);
}

/// A ledger says what its fields hold, and is written in the order of the fields.
pub proof fn law_ledger_says_its_fields(v: StakingLedger)
    ensures
        v@.stash == v.stash@,
        v@.total == v.total,
        v@.active == v.active,
        v@.unlocking == v.unlocking@,
        staking::ledger_bytes(v@) == v.stash@ + scale::compact_bytes(v.total as nat)
            + scale::compact_bytes(v.active as nat) + scale::compact_bytes(v.unlocking@.len())
            + chunk_layout(v.unlocking@).flatten(),
{
    lemma_chunks_are_flat(v.unlocking@);
}

/// The error of a ledger names the first field that does not read.
pub proof fn law_ledger_errors(
    stash: Seq<u8>,
    total: u128,
    active: u128,
    short: Seq<u8>,
    bad: Seq<u8>,
    bad_length: Seq<u8>,
)
    requires
        stash.len() == 32,
        short.len() < 32,
        scale::parse_compact(bad, 16) is None,
        scale::parse_compact(bad_length, 4) is None,
    ensures
        staking::ledger_error(short) == (DecodeError {
            field: Some(Part::LedgerStash),
            inner: None,
            fault: Fault::ShortAccount,
        }),
        staking::ledger_error(stash + bad) == (DecodeError {
            field: Some(Part::LedgerTotal),
            inner: None,
            fault: scale::compact_fault(bad, 16),
        }),
        staking::ledger_error(stash + scale::compact_bytes(total as nat) + bad) == (DecodeError {
            field: Some(Part::LedgerActive),
            inner: None,
            fault: scale::compact_fault(bad, 16),
        }),
        staking::ledger_error(
            stash + scale::compact_bytes(total as nat) + scale::compact_bytes(active as nat)
                + bad_length,
        ) == (DecodeError {
            field: Some(Part::LedgerUnlocking),
            inner: None,
            fault: scale::compact_fault(bad_length, 4),
        }),
{
    scale::lemma_pow256();
    let t = scale::compact_bytes(total as nat);
    let a = scale::compact_bytes(active as nat);
    scale::law_account_round_trip(stash, bad);
    scale::law_account_round_trip(stash, t + bad);
    scale::law_account_round_trip(stash, t + (a + bad_length));
    assert(stash + t + bad =~= stash + (t + bad));
    assert(stash + t + a + bad_length =~= stash + (t + (a + bad_length)));
    scale::law_compact_round_trip(total as nat, 16, bad);
    scale::law_compact_round_trip(total as nat, 16, a + bad_length);
    scale::law_compact_round_trip(active as nat, 16, bad_length);
}

proof fn lemma_chunks_fault(good: Seq<UnlockChunk>, n: nat, bad: Seq<u8>)
    requires
        good.len() < n,
        staking::parse_chunk(bad) is None,
    ensures
        staking::parse_chunks(chunk_layout(good).flatten() + bad, n) is None,
        staking::chunks_fault(chunk_layout(good).flatten() + bad, n) == staking::chunk_fault(bad),
    decreases good.len(),
{
    scale::lemma_pow256();
    if good.len() == 0 {
        assert(chunk_layout(good).flatten() + bad =~= bad);
    } else {
        let tail = good.skip(1);
        lemma_chunks_fault(tail, (n - 1) as nat, bad);
        assert(chunk_layout(good).drop_first() =~= chunk_layout(tail));
        let value = scale::compact_bytes(good[0].value as nat);
        let era = scale::compact_bytes(good[0].era as nat);
        let b2 = chunk_layout(tail).flatten() + bad;
        assert(chunk_layout(good).first() == value + era);
        assert(chunk_layout(good).flatten() + bad =~= value + (era + b2));
        scale::law_compact_round_trip(good[0].value as nat, 16, era + b2);
        scale::law_compact_round_trip(good[0].era as nat, 4, b2);
    }
}

/// Where a chunk of a ledger does not read, the error names the first such field, however many
/// chunks stand before it.
pub proof fn law_ledger_chunk_errors(
    stash: Seq<u8>,
    total: u128,
    active: u128,
    good: Seq<UnlockChunk>,
    n: nat,
    value: u128,
    bad_value: Seq<u8>,
    bad_era: Seq<u8>,
)
    requires
        stash.len() == 32,
        good.len() < n <= u32::MAX,
        scale::parse_compact(bad_value, 16) is None,
        scale::parse_compact(bad_era, 4) is None,
    ensures
        ({
            let head = stash + scale::compact_bytes(total as nat) + scale::compact_bytes(
                active as nat,
            ) + scale::compact_bytes(n) + chunk_layout(good).flatten();
            &&& staking::ledger_error(head + bad_value) == (DecodeError {
                field: Some(Part::LedgerUnlocking),
                inner: Some(Part::ChunkValue),
                fault: scale::compact_fault(bad_value, 16),
            })
            &&& staking::ledger_error(head + (scale::compact_bytes(value as nat) + bad_era)) == (
            DecodeError {
                field: Some(Part::LedgerUnlocking),
                inner: Some(Part::ChunkEra),
                fault: scale::compact_fault(bad_era, 4),
            })
        }),
{
    let bad = scale::compact_bytes(value as nat) + bad_era;
    assert(staking::parse_chunk(bad) is None && staking::chunk_fault(bad) == (
        Part::ChunkEra,
        scale::compact_fault(bad_era, 4),
    )) by {
        scale::lemma_pow256();
        scale::law_compact_round_trip(value as nat, 16, bad_era);
    }
    lemma_chunk_error(stash, total, active, good, n, bad_value);
    lemma_chunk_error(stash, total, active, good, n, bad);
}

proof fn lemma_chunk_error(
    stash: Seq<u8>,
    total: u128,
    active: u128,
    good: Seq<UnlockChunk>,
    n: nat,
    bad: Seq<u8>,
)
    requires
        stash.len() == 32,
        good.len() < n <= u32::MAX,
        staking::parse_chunk(bad) is None,
    ensures
        staking::ledger_error(
            stash + scale::compact_bytes(total as nat) + scale::compact_bytes(active as nat)
                + scale::compact_bytes(n) + chunk_layout(good).flatten() + bad,
        ) == (DecodeError {
            field: Some(Part::LedgerUnlocking),
            inner: Some(staking::chunk_fault(bad).0),
            fault: staking::chunk_fault(bad).1,
        }),
{
    let t = scale::compact_bytes(total as nat);
    let a = scale::compact_bytes(active as nat);
    let c = scale::compact_bytes(n);
    let g = chunk_layout(good).flatten();
    lemma_chunks_fault(good, n, bad);
    lemma_ledger_head(stash, total, active, n, g + bad);
    lemma_six(stash, t, a, c, g, bad);
}

proof fn lemma_ledger_head(stash: Seq<u8>, total: u128, active: u128, n: nat, tail: Seq<u8>)
    requires
        stash.len() == 32,
        n <= u32::MAX,
    ensures
        ({
            let b3 = scale::compact_bytes(n) + tail;
            let b2 = scale::compact_bytes(active as nat) + b3;
            let b1 = scale::compact_bytes(total as nat) + b2;
            &&& scale::parse_account(stash + b1) == Some((stash, b1))
            &&& scale::parse_compact(b1, 16) == Some((total as nat, b2))
            &&& scale::parse_compact(b2, 16) == Some((active as nat, b3))
            &&& scale::parse_compact(b3, 4) == Some((n, tail))
        }),
{
    scale::lemma_pow256();
    let b3 = scale::compact_bytes(n) + tail;
    let b2 = scale::compact_bytes(active as nat) + b3;
    let b1 = scale::compact_bytes(total as nat) + b2;
    scale::law_account_round_trip(stash, b1);
    scale::law_compact_round_trip(total as nat, 16, b2);
    scale::law_compact_round_trip(active as nat, 16, b3);
    scale::law_compact_round_trip(n, 4, tail);
}

/// The bytes of voters, each its account, its stake in eight bytes, and the accounts that it
/// votes for, behind their number.
pub open spec fn voter_layout(v: Seq<(Seq<u8>, u64, Seq<Seq<u8>>)>) -> Seq<Seq<u8>> {
    Seq::new(
        v.len(),
        |i: int|
            v[i].0 + scale::le_bytes(v[i].1 as nat, 8) + scale::compact_bytes(v[i].2.len())
                + v[i].2.flatten(),
    )
}

/// Whether a voter has the bytes of an account, and accounts to vote for, no more than `limit`.
pub open spec fn votes_within(v: (Seq<u8>, u64, Seq<Seq<u8>>), limit: nat) -> bool {
    &&& v.0.len() == 32
    &&& v.2.len() <= limit
    &&& forall|i: int| 0 <= i < v.2.len() ==> (#[trigger] v.2[i]).len() == 32
}

proof fn lemma_voters_are_flat(v: Seq<(Seq<u8>, u64, Seq<Seq<u8>>)>)
    ensures
        multi_block_state_client::voters_bytes(v) == voter_layout(v).flatten(),
    decreases v.len(),
{
    if v.len() > 0 {
        lemma_voters_are_flat(v.skip(1));
        numbers::lemma_joined_is_flatten(v[0].2);
        assert(voter_layout(v).drop_first() =~= voter_layout(v.skip(1)));
        assert(voter_layout(v).first() =~= multi_block_state_client::voter_bytes(v[0]));
    }
}

/// A page of voters is their number in the compact form and then the voters, each its account, its
/// stake in eight bytes, and the accounts that it votes for, behind their number. Every page within
/// the limits reads, however large the limits are, and every voter on it comes out as it was
/// written.
pub proof fn law_voter_page_layout(
    v: Seq<(Seq<u8>, u64, Seq<Seq<u8>>)>,
    per_block: u32,
    max_votes: u32,
    rest: Seq<u8>,
)
    requires
        v.len() <= per_block,
        forall|i: int|
            0 <= i < v.len() ==> (#[trigger] v[i]).0.len() == 32 && v[i].2.len() <= max_votes,
        forall|i: int, j: int|
            0 <= i < v.len() && 0 <= j < v[i].2.len() ==> (#[trigger] v[i].2[j]).len() == 32,
    ensures
        ({
            let each = Seq::new(
                v.len(),
                |i: int|
                    v[i].0 + scale::le_bytes(v[i].1 as nat, 8) + scale::compact_bytes(v[i].2.len())
                        + v[i].2.flatten(),
            );
            &&& multi_block_state_client::parse_voter_page(
                scale::compact_bytes(v.len()) + each.flatten() + rest,
                per_block as nat,
                max_votes as nat,
            ) == Some(v)
            &&& multi_block_state_client::voter_page_bytes(v) == scale::compact_bytes(v.len())
                + each.flatten()
        }),
{
    let each = Seq::new(
        v.len(),
        |i: int|
            v[i].0 + scale::le_bytes(v[i].1 as nat, 8) + scale::compact_bytes(v[i].2.len())
                + v[i].2.flatten(),
    );
    assert(each =~= voter_layout(v));
    lemma_voters_are_flat(v);
    assert forall|i: int| 0 <= i < v.len() implies multi_block_state_client::voter_fits(
        #[trigger] v[i],
        max_votes as nat,
    ) by {
        assert forall|j: int| 0 <= j < v[i].2.len() implies (#[trigger] v[i].2[j]).len() == 32 by {
        }
    }
    multi_block_state_client::law_voter_page_round_trip(v, per_block, max_votes, rest);
}

proof fn lemma_voter_canonical(b: Seq<u8>, max_votes: nat)
    ensures
        multi_block_state_client::parse_voter(b, max_votes) matches Some((v, rest)) ==> {
            &&& votes_within(v, max_votes)
            &&& b == v.0 + scale::le_bytes(v.1 as nat, 8) + scale::compact_bytes(v.2.len())
                + v.2.flatten() + rest
        },
{
    if let Some((who, b1)) = scale::parse_account(b) {
        if let Some((stake, b2)) = scale::parse_number(b1, 8) {
            if let Some((votes, b3)) = multi_block_state_client::parse_bounded_accounts(
                b2,
                max_votes,
            ) {
                assert(b == who + b1) by {
                    assert(b =~= who + b1);
                }
                assert(b1 == scale::le_bytes(stake, 8) + b2 && stake <= u64::MAX) by {
                    scale::lemma_pow256();
                    scale::lemma_le_bytes_of_le(b1.take(8));
                    assert(b1 =~= b1.take(8) + b2);
                }
                let list = scale::compact_bytes(votes.len());
                numbers::law_account_list_canonical(b2);
                assert(b2 == list + (votes.flatten() + b3)) by {
                    assert(list + votes.flatten() + b3 =~= list + (votes.flatten() + b3));
                }
                lemma_five(who, scale::le_bytes(stake, 8), list, votes.flatten(), b3);
            }
        }
    }
}

proof fn lemma_voter_layout_step(
    first: (Seq<u8>, u64, Seq<Seq<u8>>),
    tail: Seq<(Seq<u8>, u64, Seq<Seq<u8>>)>,
    rest: Seq<u8>,
)
    ensures
        voter_layout(seq![first] + tail).flatten() + rest == first.0 + scale::le_bytes(
            first.1 as nat,
            8,
        ) + scale::compact_bytes(first.2.len()) + first.2.flatten() + (voter_layout(tail).flatten()
            + rest),
{
    let v = seq![first] + tail;
    let x = first.0 + scale::le_bytes(first.1 as nat, 8) + scale::compact_bytes(first.2.len())
        + first.2.flatten();
    assert(voter_layout(v).first() == x);
    assert(voter_layout(v).drop_first() =~= voter_layout(tail));
    let y = voter_layout(tail).flatten();
    assert(x + (y + rest) =~= x + y + rest);
}

proof fn lemma_votes_within_step(
    first: (Seq<u8>, u64, Seq<Seq<u8>>),
    tail: Seq<(Seq<u8>, u64, Seq<Seq<u8>>)>,
    limit: nat,
)
    requires
        votes_within(first, limit),
        forall|i: int| 0 <= i < tail.len() ==> votes_within(#[trigger] tail[i], limit),
    ensures
        forall|i: int|
            0 <= i < (seq![first] + tail).len() ==> votes_within(
                #[trigger] (seq![first] + tail)[i],
                limit,
            ),
{
    let v = seq![first] + tail;
    assert forall|i: int| 0 <= i < v.len() implies votes_within(#[trigger] v[i], limit) by {
        if i > 0 {
            assert(v[i] == tail[i - 1]);
        }
    }
}

/// Whether `b` begins with `n` voters within the limit, and `rest` stands behind them.
spec fn holds_voters(
    b: Seq<u8>,
    n: nat,
    max_votes: nat,
    v: Seq<(Seq<u8>, u64, Seq<Seq<u8>>)>,
    rest: Seq<u8>,
) -> bool {
    &&& v.len() == n
    &&& forall|i: int| 0 <= i < v.len() ==> votes_within(#[trigger] v[i], max_votes)
    &&& b == voter_layout(v).flatten() + rest
}

#[verifier::spinoff_prover]
proof fn lemma_voters_canonical(b: Seq<u8>, n: nat, max_votes: nat)
    ensures
        multi_block_state_client::parse_voters(b, n, max_votes) matches Some((v, rest))
            ==> holds_voters(b, n, max_votes, v, rest),
    decreases n,
{
    if n == 0 {
        let none = Seq::<(Seq<u8>, u64, Seq<Seq<u8>>)>::empty();
        assert(voter_layout(none).flatten() =~= Seq::empty());
        assert(b =~= Seq::empty() + b);
        assert(holds_voters(b, n, max_votes, none, b));
    } else if let Some((first, b1)) = multi_block_state_client::parse_voter(b, max_votes) {
        lemma_voters_canonical(b1, (n - 1) as nat, max_votes);
        if let Some((tail, rest)) = multi_block_state_client::parse_voters(
            b1,
            (n - 1) as nat,
            max_votes,
        ) {
            assert(holds_voters(b, n, max_votes, seq![first] + tail, rest)) by {
                lemma_voter_canonical(b, max_votes);
                lemma_votes_within_step(first, tail, max_votes);
                lemma_voter_layout_step(first, tail, rest);
            }
        }
    }
}

/// Whether a page of voters keeps to the limits, and `b` begins as it is laid out.
pub open spec fn begins_with_page(
    b: Seq<u8>,
    per_block: nat,
    max_votes: nat,
    v: Seq<(Seq<u8>, u64, Seq<Seq<u8>>)>,
) -> bool {
    &&& v.len() <= per_block
    &&& forall|i: int| 0 <= i < v.len() ==> votes_within(#[trigger] v[i], max_votes)
    &&& (scale::compact_bytes(v.len()) + voter_layout(v).flatten()).is_prefix_of(b)
}

proof fn lemma_begins_with_page(
    count: Seq<u8>,
    b1: Seq<u8>,
    per_block: nat,
    max_votes: nat,
    v: Seq<(Seq<u8>, u64, Seq<Seq<u8>>)>,
    rest: Seq<u8>,
)
    requires
        count == scale::compact_bytes(v.len()),
        v.len() <= per_block,
        holds_voters(b1, v.len(), max_votes, v, rest),
    ensures
        begins_with_page(count + b1, per_block, max_votes, v),
{
    let all = voter_layout(v).flatten();
    assert(count + (all + rest) =~= count + all + rest);
    lemma_prefix(count + all, rest);
}

proof fn lemma_voter_page_canonical(b: Seq<u8>, per_block: nat, max_votes: nat)
    ensures
        multi_block_state_client::parse_voter_page(b, per_block, max_votes) matches Some(v)
            ==> begins_with_page(b, per_block, max_votes, v),
{
    let read = scale::parse_compact(b, 4);
    if read is Some {
        let n = (read->0).0;
        let b1 = (read->0).1;
        let page = multi_block_state_client::parse_voters(b1, n, max_votes);
        if page is Some && n <= per_block {
            assert(b == scale::compact_bytes(n) + b1) by {
                numbers::law_compact_canonical(b, 4);
            }
            assert(holds_voters(b1, n, max_votes, (page->0).0, (page->0).1)) by {
                lemma_voters_canonical(b1, n, max_votes);
            }
            lemma_begins_with_page(
                scale::compact_bytes(n),
                b1,
                per_block,
                max_votes,
                (page->0).0,
                (page->0).1,
            );
        }
    }
}

/// What reads as a page of voters is laid out as one, and keeps to the limits.
pub proof fn law_voter_page_canonical(b: Seq<u8>, per_block: nat, max_votes: nat)
    ensures
        multi_block_state_client::parse_voter_page(b, per_block, max_votes) matches Some(v) ==> {
            let each = Seq::new(
                v.len(),
                |i: int|
                    v[i].0 + scale::le_bytes(v[i].1 as nat, 8) + scale::compact_bytes(v[i].2.len())
                        + v[i].2.flatten(),
            );
            &&& v.len() <= per_block
            &&& forall|i: int|
                0 <= i < v.len() ==> (#[trigger] v[i]).0.len() == 32 && v[i].2.len() <= max_votes
            &&& (scale::compact_bytes(v.len()) + each.flatten()).is_prefix_of(b)
        },
{
    lemma_voter_page_canonical(b, per_block, max_votes);
    let read = multi_block_state_client::parse_voter_page(b, per_block, max_votes);
    if read is Some {
        lemma_page_in_place(b, per_block, max_votes, read->0);
    }
}

proof fn lemma_page_in_place(
    b: Seq<u8>,
    per_block: nat,
    max_votes: nat,
    v: Seq<(Seq<u8>, u64, Seq<Seq<u8>>)>,
)
    requires
        begins_with_page(b, per_block, max_votes, v),
    ensures
        ({
            let each = Seq::new(
                v.len(),
                |i: int|
                    v[i].0 + scale::le_bytes(v[i].1 as nat, 8) + scale::compact_bytes(v[i].2.len())
                        + v[i].2.flatten(),
            );
            &&& forall|i: int|
                0 <= i < v.len() ==> (#[trigger] v[i]).0.len() == 32 && v[i].2.len() <= max_votes
            &&& (scale::compact_bytes(v.len()) + each.flatten()).is_prefix_of(b)
        }),
{
    let each = Seq::new(
        v.len(),
        |i: int|
            v[i].0 + scale::le_bytes(v[i].1 as nat, 8) + scale::compact_bytes(v[i].2.len())
                + v[i].2.flatten(),
    );
    assert(each =~= voter_layout(v));
    assert forall|i: int| 0 <= i < v.len() implies (#[trigger] v[i]).0.len() == 32
        && v[i].2.len() <= max_votes by {
        assert(votes_within(v[i], max_votes));
    }
}

/// A page of targets is a list of accounts. Every page within the limit reads, and comes out as
/// it was written.
pub proof fn law_target_page_layout(v: Seq<Seq<u8>>, per_block: u32, rest: Seq<u8>)
    requires
        v.len() <= per_block,
        forall|i: int| 0 <= i < v.len() ==> (#[trigger] v[i]).len() == 32,
    ensures
        multi_block_state_client::parse_target_page(
            scale::compact_bytes(v.len()) + v.flatten() + rest,
            per_block as nat,
        ) == Some(v),
{
    numbers::law_account_list_layout(v, rest);
}

/// What reads as a page of targets is laid out as one, and keeps to the limit.
pub proof fn law_target_page_canonical(b: Seq<u8>, per_block: nat)
    ensures
        multi_block_state_client::parse_target_page(b, per_block) matches Some(v) ==> {
            &&& v.len() <= per_block
            &&& forall|i: int| 0 <= i < v.len() ==> (#[trigger] v[i]).len() == 32
            &&& (scale::compact_bytes(v.len()) + v.flatten()).is_prefix_of(b)
        },
{
    numbers::law_account_list_canonical(b);
    if let Some((v, rest)) = scale::parse_account_list(b) {
        let head = scale::compact_bytes(v.len()) + v.flatten();
        assert(head =~= b.take(head.len() as int));
    }
}

/// What is wrong with a page: its number does not read, it is too long, or its accounts are cut
/// off. Too long a page is refused before anything on it is read.
pub proof fn law_page_errors(bad: Seq<u8>, n: nat, tail: Seq<u8>, limit: nat, max_votes: nat)
    requires
        scale::parse_compact(bad, 4) is None,
        n <= u32::MAX,
    ensures
        multi_block_state_client::voter_page_error(bad, limit, max_votes) == (DecodeError {
            field: None,
            inner: None,
            fault: scale::compact_fault(bad, 4),
        }),
        multi_block_state_client::target_page_error(bad, limit) == (DecodeError {
            field: None,
            inner: None,
            fault: scale::compact_fault(bad, 4),
        }),
        n > limit ==> {
            let b = scale::compact_bytes(n) + tail;
            &&& multi_block_state_client::parse_voter_page(b, limit, max_votes) is None
            &&& multi_block_state_client::voter_page_error(b, limit, max_votes) == (DecodeError {
                field: None,
                inner: None,
                fault: Fault::TooLong,
            })
            &&& multi_block_state_client::parse_target_page(b, limit) is None
            &&& multi_block_state_client::target_page_error(b, limit) == (DecodeError {
                field: None,
                inner: None,
                fault: Fault::TooLong,
            })
        },
        n <= limit && tail.len() < 32 * n ==> {
            let b = scale::compact_bytes(n) + tail;
            &&& multi_block_state_client::parse_target_page(b, limit) is None
            &&& multi_block_state_client::target_page_error(b, limit) == (DecodeError {
                field: None,
                inner: None,
                fault: Fault::ShortAccount,
            })
        },
{
    scale::lemma_pow256();
    scale::law_compact_round_trip(n, 4, tail);
}

proof fn lemma_voters_fault(
    good: Seq<(Seq<u8>, u64, Seq<Seq<u8>>)>,
    n: nat,
    max_votes: nat,
    bad: Seq<u8>,
)
    requires
        good.len() < n,
        max_votes <= u32::MAX,
        forall|i: int| 0 <= i < good.len() ==> votes_within(#[trigger] good[i], max_votes),
        multi_block_state_client::parse_voter(bad, max_votes) is None,
    ensures
        multi_block_state_client::voters_fault(voter_layout(good).flatten() + bad, n, max_votes)
            == multi_block_state_client::voter_fault(bad, max_votes),
    decreases good.len(),
{
    scale::lemma_pow256();
    if good.len() == 0 {
        assert(voter_layout(good).flatten() + bad =~= bad);
    } else {
        let tail = good.skip(1);
        assert forall|i: int| 0 <= i < tail.len() implies votes_within(
            #[trigger] tail[i],
            max_votes,
        ) by {
            assert(tail[i] == good[i + 1]);
        }
        lemma_voters_fault(tail, (n - 1) as nat, max_votes, bad);
        assert(voter_layout(good).drop_first() =~= voter_layout(tail));
        let v = good[0];
        assert(votes_within(v, max_votes));
        let b3 = voter_layout(tail).flatten() + bad;
        let b2 = scale::compact_bytes(v.2.len()) + v.2.flatten() + b3;
        let b1 = scale::le_bytes(v.1 as nat, 8) + b2;
        assert(voter_layout(good).first() == v.0 + scale::le_bytes(v.1 as nat, 8)
            + scale::compact_bytes(v.2.len()) + v.2.flatten());
        assert(voter_layout(good).flatten() + bad =~= v.0 + b1);
        scale::law_account_round_trip(v.0, b1);
        scale::law_number_round_trip(v.1 as nat, 8, b2);
        numbers::law_account_list_layout(v.2, b3);
    }
}

/// Where a voter on a page is cut off, the error says so, however many stand before it: its
/// account is cut off, or its stake is.
pub proof fn law_short_voter_errors(
    good: Seq<(Seq<u8>, u64, Seq<Seq<u8>>)>,
    n: nat,
    per_block: nat,
    max_votes: nat,
    who: Seq<u8>,
    short_account: Seq<u8>,
    short_stake: Seq<u8>,
)
    requires
        good.len() < n <= per_block,
        per_block <= u32::MAX,
        max_votes <= u32::MAX,
        forall|i: int| 0 <= i < good.len() ==> votes_within(#[trigger] good[i], max_votes),
        who.len() == 32,
        short_account.len() < 32,
        short_stake.len() < 8,
    ensures
        multi_block_state_client::voter_page_error(
            scale::compact_bytes(n) + voter_layout(good).flatten() + short_account,
            per_block,
            max_votes,
        ) == (DecodeError { field: None, inner: None, fault: Fault::ShortAccount }),
        multi_block_state_client::voter_page_error(
            scale::compact_bytes(n) + voter_layout(good).flatten() + (who + short_stake),
            per_block,
            max_votes,
        ) == (DecodeError { field: None, inner: None, fault: Fault::NotEnoughData }),
{
    lemma_voter_page_error(good, n, per_block, max_votes, short_account);
    scale::law_account_round_trip(who, short_stake);
    lemma_voter_page_error(good, n, per_block, max_votes, who + short_stake);
}

/// Where the votes of a voter on a page do not read, the error says why, however many voters stand
/// before it: their number does not read, is above the limit, or is more than there are.
pub proof fn law_voter_errors(
    good: Seq<(Seq<u8>, u64, Seq<Seq<u8>>)>,
    n: nat,
    per_block: nat,
    max_votes: nat,
    who: Seq<u8>,
    stake: Seq<u8>,
    bad: Seq<u8>,
    votes: nat,
    tail: Seq<u8>,
)
    requires
        good.len() < n <= per_block,
        per_block <= u32::MAX,
        max_votes <= u32::MAX,
        votes <= u32::MAX,
        forall|i: int| 0 <= i < good.len() ==> votes_within(#[trigger] good[i], max_votes),
        who.len() == 32,
        stake.len() == 8,
        scale::parse_compact(bad, 4) is None,
        votes > max_votes || tail.len() < 32 * votes,
    ensures
        multi_block_state_client::voter_page_error(
            scale::compact_bytes(n) + voter_layout(good).flatten() + (who + stake + bad),
            per_block,
            max_votes,
        ) == (DecodeError { field: None, inner: None, fault: scale::compact_fault(bad, 4) }),
        multi_block_state_client::voter_page_error(
            scale::compact_bytes(n) + voter_layout(good).flatten() + (who + stake + (
            scale::compact_bytes(votes) + tail)),
            per_block,
            max_votes,
        ) == (DecodeError {
            field: None,
            inner: None,
            fault: if votes > max_votes {
                Fault::TooLong
            } else {
                Fault::ShortAccount
            },
        }),
{
    lemma_votes_fault(who, stake, bad, max_votes);
    lemma_voter_page_error(good, n, per_block, max_votes, who + stake + bad);
    let list = scale::compact_bytes(votes) + tail;
    assert(scale::parse_compact(list, 4) == Some((votes, tail))) by {
        scale::lemma_pow256();
        scale::law_compact_round_trip(votes, 4, tail);
    }
    lemma_votes_fault(who, stake, list, max_votes);
    lemma_voter_page_error(good, n, per_block, max_votes, who + stake + list);
}

proof fn lemma_votes_fault(who: Seq<u8>, stake: Seq<u8>, b: Seq<u8>, max_votes: nat)
    requires
        who.len() == 32,
        stake.len() == 8,
        multi_block_state_client::parse_bounded_accounts(b, max_votes) is None,
    ensures
        multi_block_state_client::parse_voter(who + stake + b, max_votes) is None,
        multi_block_state_client::voter_fault(who + stake + b, max_votes)
            == multi_block_state_client::bounded_accounts_fault(b, max_votes),
{
    assert(who + stake + b =~= who + (stake + b));
    scale::law_account_round_trip(who, stake + b);
    numbers::law_numbers_are_read_in_place(stake, b, 8);
}

proof fn lemma_voter_page_error(
    good: Seq<(Seq<u8>, u64, Seq<Seq<u8>>)>,
    n: nat,
    per_block: nat,
    max_votes: nat,
    bad: Seq<u8>,
)
    requires
        good.len() < n <= per_block,
        per_block <= u32::MAX,
        max_votes <= u32::MAX,
        forall|i: int| 0 <= i < good.len() ==> votes_within(#[trigger] good[i], max_votes),
        multi_block_state_client::parse_voter(bad, max_votes) is None,
    ensures
        multi_block_state_client::voter_page_error(
            scale::compact_bytes(n) + voter_layout(good).flatten() + bad,
            per_block,
            max_votes,
        ) == (DecodeError {
            field: None,
            inner: None,
            fault: multi_block_state_client::voter_fault(bad, max_votes),
        }),
{
    let g = voter_layout(good).flatten();
    lemma_voters_fault(good, n, max_votes, bad);
    scale::lemma_pow256();
    scale::law_compact_round_trip(n, 4, g + bad);
    assert(scale::compact_bytes(n) + g + bad =~= scale::compact_bytes(n) + (g + bad));
}

/// What is said of voters is their accounts, stakes and votes, one by one.
pub proof fn law_voters_say_their_fields(v: Seq<VoterData>, i: int)
    requires
        0 <= i < v.len(),
    ensures
        multi_block_state_client::voters(v).len() == v.len(),
        multi_block_state_client::voters(v)[i].0 == v[i].0@,
        multi_block_state_client::voters(v)[i].1 == v[i].1,
        multi_block_state_client::voters(v)[i].2 == scale::accounts(v[i].2@),
{
}

/// The limits on the length of a block are three numbers of four bytes: of the normal, the
/// operational and the mandatory class.
pub proof fn law_block_length_layout(normal: u32, operational: u32, mandatory: u32, rest: Seq<u8>)
    ensures
        miner_config::parse_block_length(
            scale::le_bytes(normal as nat, 4) + scale::le_bytes(operational as nat, 4)
                + scale::le_bytes(mandatory as nat, 4) + rest,
        ) == Some(BlockLength { max: PerDispatchClass { normal, operational, mandatory } }),
{
    scale::lemma_pow256();
    numbers::law_powers(4);
    let x = scale::le_bytes(normal as nat, 4);
    let y = scale::le_bytes(operational as nat, 4);
    let z = scale::le_bytes(mandatory as nat, 4);
    numbers::law_numbers_are_written_in_place(normal as nat, 4);
    numbers::law_numbers_are_written_in_place(operational as nat, 4);
    numbers::law_numbers_are_written_in_place(mandatory as nat, 4);
    let b = x + y + z + rest;
    assert(b.subrange(0, 4) =~= x);
    assert(b.subrange(4, 8) =~= y);
    assert(b.subrange(8, 12) =~= z);
}

/// With fewer than twelve bytes there are no limits, and the error names the class that is cut
/// short.
pub proof fn law_short_block_lengths(b: Seq<u8>)
    ensures
        miner_config::parse_block_length(b) is None <==> b.len() < 12,
        b.len() < 12 ==> miner_config::block_length_error(b) == (DecodeError {
            field: Some(Part::BlockLengthMax),
            inner: Some(
                if b.len() < 4 {
                    Part::ClassNormal
                } else if b.len() < 8 {
                    Part::ClassOperational
                } else {
                    Part::ClassMandatory
                },
            ),
            fault: Fault::NotEnoughData,
        }),
{
}

/// An error is put in words one below the other, each a tab further in than the one that it
/// explains.
pub proof fn law_errors_are_nested(a: Seq<char>, b: Seq<char>, c: Seq<char>, d: Seq<char>)
    ensures
        decode_error::nested(seq![a], 0) == a,
        decode_error::nested(seq![a, b], 0) == a + ":\n\t"@ + b + "\n"@,
        decode_error::nested(seq![a, b, c], 0) == a + ":\n\t"@ + b + ":\n\t\t"@ + c + "\n"@,
        decode_error::nested(seq![a, b, c, d], 0) == a + ":\n\t"@ + b + ":\n\t\t"@ + c
            + ":\n\t\t\t"@ + d + "\n"@,
{
    reveal_strlit(":\n");
    reveal_strlit("\n");
    reveal_strlit(":\n\t");
    reveal_strlit(":\n\t\t");
    reveal_strlit(":\n\t\t\t");
    reveal_with_fuel(decode_error::nested, 5);
    assert(seq![a, b].skip(1) =~= seq![b]);
    assert(seq![a, b, c].skip(1) =~= seq![b, c]);
    assert(seq![b, c].skip(1) =~= seq![c]);
    assert(seq![a, b, c, d].skip(1) =~= seq![b, c, d]);
    assert(seq![b, c, d].skip(1) =~= seq![c, d]);
    assert(seq![c, d].skip(1) =~= seq![d]);
    assert(decode_error::nested(seq![a], 0) =~= a);
    assert(decode_error::nested(seq![a, b], 0) =~= a + ":\n\t"@ + b + "\n"@);
    assert(decode_error::nested(seq![a, b, c], 0) =~= a + ":\n\t"@ + b + ":\n\t\t"@ + c + "\n"@);
    assert(decode_error::nested(seq![a, b, c, d], 0) =~= a + ":\n\t"@ + b + ":\n\t\t"@ + c
        + ":\n\t\t\t"@ + d + "\n"@);
}

/// The words of an error are those of its field, of the field within, and of the fault.
pub proof fn law_error_words(field: Part, inner: Part, fault: Fault)
    ensures
        (DecodeError { field: None, inner: None, fault }).spec_message() == decode_error::nested(
            fault.spec_words(),
            0,
        ),
        (DecodeError { field: Some(field), inner: None, fault }).spec_message()
            == decode_error::nested(seq![field.spec_words()] + fault.spec_words(), 0),
        (DecodeError { field: Some(field), inner: Some(inner), fault }).spec_message()
            == decode_error::nested(
            seq![field.spec_words(), inner.spec_words()] + fault.spec_words(),
            0,
        ),
{
    assert(decode_error::part_words(None) + decode_error::part_words(None) + fault.spec_words()
        =~= fault.spec_words());
    assert(decode_error::part_words(Some(field)) + decode_error::part_words(None)
        + fault.spec_words() =~= seq![field.spec_words()] + fault.spec_words());
    assert(decode_error::part_words(Some(field)) + decode_error::part_words(Some(inner))
        + fault.spec_words() =~= seq![field.spec_words(), inner.spec_words()]
        + fault.spec_words());
}

/// What each fault is in words.
pub proof fn law_faults_have_their_words()
    ensures
        Fault::NotEnoughData.spec_words() == seq!["Not enough data to fill buffer"@],
        Fault::InvalidBool.spec_words() == seq!["Invalid boolean representation"@],
        Fault::CompactU32.spec_words() == seq!["out of range decoding Compact<u32>"@],
        Fault::CompactU128.spec_words() == seq!["out of range decoding Compact<u128>"@],
        Fault::CompactU128Prefix.spec_words() == seq!["unexpected prefix decoding Compact<u128>"@],
        Fault::TooLong.spec_words() == seq!["BoundedVec exceeds its limit"@],
        Fault::UnknownPhase.spec_words() == seq![
            "Could not decode `Phase`, variant doesn't exist"@,
        ],
        Fault::OptionByte.spec_words() == seq!["unexpected first byte decoding Option"@],
        Fault::ShortOption.spec_words() == seq![
            "Could not decode variant byte for `Option`"@,
            "Not enough data to fill buffer"@,
        ],
        Fault::ShortAccount.spec_words() == seq![
            "Could not decode `AccountId32.0`"@,
            "Not enough data to fill buffer"@,
        ],
        Fault::ShortOptionalAccount.spec_words() == seq![
            "Could not decode `Option::Some(T)`"@,
            "Could not decode `AccountId32.0`"@,
            "Not enough data to fill buffer"@,
        ],
{
}

/// What each field is in words.
pub proof fn law_fields_have_their_words()
    ensures
        Part::PhaseIndex.spec_words() == "Could not decode `Phase`, failed to read variant byte"@,
        Part::PhaseSigned.spec_words() == "Could not decode `Phase::Signed.0`"@,
        Part::PhaseSignedValidation.spec_words() == "Could not decode `Phase::SignedValidation.0`"@,
        Part::PhaseUnsigned.spec_words() == "Could not decode `Phase::Unsigned.0`"@,
        Part::PhaseSnapshot.spec_words() == "Could not decode `Phase::Snapshot.0`"@,
        Part::PhaseExport.spec_words() == "Could not decode `Phase::Export.0`"@,
        Part::BagHead.spec_words() == "Could not decode `ListBag::head`"@,
        Part::BagTail.spec_words() == "Could not decode `ListBag::tail`"@,
        Part::NodeId.spec_words() == "Could not decode `ListNode::id`"@,
        Part::NodePrev.spec_words() == "Could not decode `ListNode::prev`"@,
        Part::NodeNext.spec_words() == "Could not decode `ListNode::next`"@,
        Part::PrefsCommission.spec_words() == "Could not decode `ValidatorPrefs::commission`"@,
        Part::PrefsBlocked.spec_words() == "Could not decode `ValidatorPrefs::blocked`"@,
        Part::NominationsTargets.spec_words() == "Could not decode `NominationsLight::targets`"@,
        Part::NominationsSubmittedIn.spec_words()
            == "Could not decode `NominationsLight::_submitted_in`"@,
        Part::NominationsSuppressed.spec_words()
            == "Could not decode `NominationsLight::suppressed`"@,
        Part::LedgerStash.spec_words() == "Could not decode `StakingLedger::stash`"@,
        Part::LedgerTotal.spec_words() == "Could not decode `StakingLedger::total`"@,
        Part::LedgerActive.spec_words() == "Could not decode `StakingLedger::active`"@,
        Part::LedgerUnlocking.spec_words() == "Could not decode `StakingLedger::unlocking`"@,
        Part::ChunkValue.spec_words() == "Could not decode `UnlockChunk::value`"@,
        Part::ChunkEra.spec_words() == "Could not decode `UnlockChunk::era`"@,
        Part::BlockLengthMax.spec_words() == "Could not decode `BlockLength::max`"@,
        Part::ClassNormal.spec_words() == "Could not decode `PerDispatchClass::normal`"@,
        Part::ClassOperational.spec_words() == "Could not decode `PerDispatchClass::operational`"@,
        Part::ClassMandatory.spec_words() == "Could not decode `PerDispatchClass::mandatory`"@,
{
}

/// What a reply without a value is in words.
pub proof fn law_storage_errors_have_their_words(e: DecodeError)
    ensures
        StorageError::Decode(e).spec_message() == e.spec_message(),
        StorageError::NotFound(StorageItem::DesiredTargets).spec_message()
            == "DesiredTargets not found"@,
        StorageError::NotFound(StorageItem::BlockNumber).spec_message()
            == "Block number not found"@,
        StorageError::NotFound(StorageItem::MinNominatorBond).spec_message()
            == "MinNominatorBond not found"@,
        StorageError::NotFound(StorageItem::MinValidatorBond).spec_message()
            == "MinValidatorBond not found"@,
        StorageError::NotFound(StorageItem::VoterSnapshot).spec_message()
            == "Voter snapshot not found"@,
        StorageError::NotFound(StorageItem::TargetSnapshot).spec_message()
            == "Target snapshot not found"@,
        StorageError::NotFound(StorageItem::ValidatorPrefs).spec_message()
            == "ValidatorPrefs not found"@,
{
}

} // verus!
