//! What the multi-block election stores, and how the replies to storage requests are read.
//!
//! Each function that reads a reply takes the bytes that the node sent: a slice where the node
//! fills in a default, an option where the entry may be missing. The requests are in
//! [`crate::storage`].

use crate::decode_error;
use crate::decode_error::{DecodeError, Fault, Part};
use crate::primitives::{AccountId, Balance, VoteWeight};
use crate::scale;
use crate::staking;
use crate::staking::{NominationsLight, StakingLedger, ValidatorPrefs};
use crate::storage::{StorageError, StorageItem};
use vstd::prelude::*;

verus! {

/// The phase that an election is in.
#[derive(Debug, Clone, Copy, PartialEq, Eq, Structural)]
pub enum Phase {
    /// Nothing is happening, but it might.
    Off,
    /// The signed phase is open. The number of blocks left in it.
    Signed(u32),
    /// Results are being validated. The number of blocks left for it.
    SignedValidation(u32),
    /// The unsigned phase is open. The number of blocks left in it.
    Unsigned(u32),
    /// The snapshot is being created. The number of pages left to be fetched.
    Snapshot(u32),
    /// The snapshot is done, and the export is yet to begin.
    Done,
    /// The export has begun. The page that was received last.
    Export(u32),
    /// Only governance can change the state.
    Emergency,
}

/// The number of a phase, which it is written with.
pub open spec fn phase_index(p: Phase) -> u8 {
    match p {
        Phase::Off => 0,
        Phase::Signed(_) => 1,
        Phase::SignedValidation(_) => 2,
        Phase::Unsigned(_) => 3,
        Phase::Snapshot(_) => 4,
        Phase::Done => 5,
        Phase::Export(_) => 6,
        Phase::Emergency => 7,
    }
}

/// The number that a phase carries.
pub open spec fn phase_number(p: Phase) -> Option<u32> {
    match p {
        Phase::Signed(n) | Phase::SignedValidation(n) | Phase::Unsigned(n) | Phase::Snapshot(n)
        | Phase::Export(n) => Some(n),
        Phase::Off | Phase::Done | Phase::Emergency => None,
    }
}

/// What a phase is written as: its number, then the number that it carries.
pub open spec fn phase_bytes(p: Phase) -> Seq<u8> {
    match phase_number(p) {
        Some(n) => seq![phase_index(p)] + scale::le_bytes(n as nat, 4),
        None => seq![phase_index(p)],
    }
}

/// Reads a phase.
pub open spec fn parse_phase(b: Seq<u8>) -> Option<Phase> {
    if b.len() == 0 {
        None
    } else if b[0] == 0 {
        Some(Phase::Off)
    } else if b[0] == 5 {
        Some(Phase::Done)
    } else if b[0] == 7 {
        Some(Phase::Emergency)
    } else {
        match parse_u32(b.skip(1)) {
            None => None,
            Some(n) => if b[0] == 1 {
                Some(Phase::Signed(n))
            } else if b[0] == 2 {
                Some(Phase::SignedValidation(n))
            } else if b[0] == 3 {
                Some(Phase::Unsigned(n))
            } else if b[0] == 4 {
                Some(Phase::Snapshot(n))
            } else if b[0] == 6 {
                Some(Phase::Export(n))
            } else {
                None
            },
        }
    }
}

/// Why bytes are no phase.
pub open spec fn phase_error(b: Seq<u8>) -> DecodeError {
    if b.len() == 0 {
        decode_error::within(Part::PhaseIndex, Fault::NotEnoughData)
    } else if b[0] == 1 {
        decode_error::within(Part::PhaseSigned, Fault::NotEnoughData)
    } else if b[0] == 2 {
        decode_error::within(Part::PhaseSignedValidation, Fault::NotEnoughData)
    } else if b[0] == 3 {
        decode_error::within(Part::PhaseUnsigned, Fault::NotEnoughData)
    } else if b[0] == 4 {
        decode_error::within(Part::PhaseSnapshot, Fault::NotEnoughData)
    } else if b[0] == 6 {
        decode_error::within(Part::PhaseExport, Fault::NotEnoughData)
    } else {
        decode_error::bare(Fault::UnknownPhase)
    }
}

/// Why bytes are no number of a fixed width: there are too few of them.
pub open spec fn number_error() -> DecodeError {
    decode_error::bare(Fault::NotEnoughData)
}

/// Reads a `u32`, whatever stands behind it.
pub open spec fn parse_u32(b: Seq<u8>) -> Option<u32> {
    match scale::parse_number(b, 4) {
        Some((n, _)) => Some(n as u32),
        None => None,
    }
}

/// Reads a `u128`, whatever stands behind it.
pub open spec fn parse_u128(b: Seq<u8>) -> Option<u128> {
    match scale::parse_number(b, 16) {
        Some((n, _)) => Some(n as u128),
        None => None,
    }
}

impl Phase {
    /// Whether the voters and targets of the election can be read in this phase: from the end of
    /// the snapshot on, until the election is over.
    pub open spec fn spec_has_snapshot(self) -> bool {
        self is Done || self is Signed || self is SignedValidation || self is Unsigned
            || self is Export
    }

    /// Checks if snapshots are available in this phase.
    ///
    /// They are available in `Done`, `Signed`, `SignedValidation`, `Unsigned` and `Export`. They
    /// are not in `Off`, as the election has not started, in `Snapshot`, as they are still being
    /// created, and in `Emergency`, which locks the pallet.
    pub fn has_snapshot(&self) -> (r: bool)
        ensures
            r == self.spec_has_snapshot(),
    {
        match self {
            Phase::Done => true,
            Phase::Signed(_) => true,
            Phase::SignedValidation(_) => true,
            Phase::Unsigned(_) => true,
            Phase::Export(_) => true,
            Phase::Snapshot(_) => false,
            Phase::Off => false,
            Phase::Emergency => false,
        }
    }

    /// Writes the phase.
    pub fn encode(&self) -> (r: Vec<u8>)
        ensures
            r@ == phase_bytes(*self),
    {
        let (index, number): (u8, Option<u32>) = match *self {
            Phase::Off => (0, None),
            Phase::Signed(n) => (1, Some(n)),
            Phase::SignedValidation(n) => (2, Some(n)),
            Phase::Unsigned(n) => (3, Some(n)),
            Phase::Snapshot(n) => (4, Some(n)),
            Phase::Done => (5, None),
            Phase::Export(n) => (6, Some(n)),
            Phase::Emergency => (7, None),
        };
        let mut r: Vec<u8> = vec![index];
        if let Some(n) = number {
            let mut payload = scale::encode_u32(n);
            r.append(&mut payload);
        }
        assert(r@ =~= phase_bytes(*self));
        r
    }

    /// Reads a phase from the bytes of a storage entry.
    pub fn decode(bytes: &[u8]) -> (r: Result<Phase, DecodeError>)
        ensures
            r == match parse_phase(bytes@) {
                Some(v) => Ok::<Phase, DecodeError>(v),
                None => Err(phase_error(bytes@)),
            },
    {
        if bytes.len() == 0 {
            return Err(
                DecodeError {
                    field: Some(Part::PhaseIndex),
                    inner: None,
                    fault: Fault::NotEnoughData,
                },
            );
        }
        let (head, tail) = bytes.split_at(1);
        assert(tail@ =~= bytes@.skip(1));
        let index: u8 = head[0];
        let field: Part = if index == 0 {
            return Ok(Phase::Off);
        } else if index == 1 {
            Part::PhaseSigned
        } else if index == 2 {
            Part::PhaseSignedValidation
        } else if index == 3 {
            Part::PhaseUnsigned
        } else if index == 4 {
            Part::PhaseSnapshot
        } else if index == 5 {
            return Ok(Phase::Done);
        } else if index == 6 {
            Part::PhaseExport
        } else if index == 7 {
            return Ok(Phase::Emergency);
        } else {
            return Err(DecodeError { field: None, inner: None, fault: Fault::UnknownPhase });
        };
        match scale::decode_u32(tail) {
            None => Err(
                DecodeError { field: Some(field), inner: None, fault: Fault::NotEnoughData },
            ),
            Some((n, _)) => if index == 1 {
                Ok(Phase::Signed(n))
            } else if index == 2 {
                Ok(Phase::SignedValidation(n))
            } else if index == 3 {
                Ok(Phase::Unsigned(n))
            } else if index == 4 {
                Ok(Phase::Snapshot(n))
            } else {
                Ok(Phase::Export(n))
            },
        }
    }
}

/// A bag of the voter list: its first and its last account.
#[derive(Debug, Clone)]
pub struct ListBag {
    pub head: Option<AccountId>,
    pub tail: Option<AccountId>,
}

/// What a bag says.
pub struct ListBagView {
    pub head: Option<Seq<u8>>,
    pub tail: Option<Seq<u8>>,
}

impl View for ListBag {
    type V = ListBagView;

    open spec fn view(&self) -> ListBagView {
        ListBagView {
            head: scale::optional_account(self.head),
            tail: scale::optional_account(self.tail),
        }
    }
}

/// What a bag is written as.
pub open spec fn list_bag_bytes(v: ListBagView) -> Seq<u8> {
    scale::optional_account_bytes(v.head) + scale::optional_account_bytes(v.tail)
}

/// Reads a bag.
pub open spec fn parse_list_bag(b: Seq<u8>) -> Option<ListBagView> {
    match scale::parse_optional_account(b) {
        None => None,
        Some((head, b1)) => match scale::parse_optional_account(b1) {
            None => None,
            Some((tail, _)) => Some(ListBagView { head, tail }),
        },
    }
}

/// Why bytes are no bag.
pub open spec fn list_bag_error(b: Seq<u8>) -> DecodeError {
    match scale::parse_optional_account(b) {
        None => decode_error::within(Part::BagHead, scale::optional_account_fault(b)),
        Some((_, b1)) => decode_error::within(Part::BagTail, scale::optional_account_fault(b1)),
    }
}

impl ListBag {
    /// Writes the bag.
    pub fn encode(&self) -> (r: Vec<u8>)
        ensures
            r@ == list_bag_bytes(self@),
    {
        let mut r = scale::encode_optional_account(&self.head);
        let mut tail = scale::encode_optional_account(&self.tail);
        r.append(&mut tail);
        r
    }

    /// Reads a bag from the bytes of a storage entry.
    pub fn decode(bytes: &[u8]) -> (r: Result<ListBag, DecodeError>)
        ensures
            match r {
                Ok(v) => parse_list_bag(bytes@) == Some(v@),
                Err(e) => parse_list_bag(bytes@) is None && e == list_bag_error(bytes@),
            },
    {
        let (head, b1) = match scale::decode_optional_account(bytes) {
            Some(x) => x,
            None => return Err(
                DecodeError {
                    field: Some(Part::BagHead),
                    inner: None,
                    fault: scale::find_optional_account_fault(bytes),
                },
            ),
        };
        match scale::decode_optional_account(b1) {
            Some((tail, _)) => Ok(ListBag { head, tail }),
            None => Err(
                DecodeError {
                    field: Some(Part::BagTail),
                    inner: None,
                    fault: scale::find_optional_account_fault(b1),
                },
            ),
        }
    }
}

/// The place of an account in the voter list.
#[derive(Debug, Clone)]
pub struct ListNode {
    pub id: AccountId,
    pub prev: Option<AccountId>,
    pub next: Option<AccountId>,
}

/// What a node says.
pub struct ListNodeView {
    pub id: Seq<u8>,
    pub prev: Option<Seq<u8>>,
    pub next: Option<Seq<u8>>,
}

impl View for ListNode {
    type V = ListNodeView;

    open spec fn view(&self) -> ListNodeView {
        ListNodeView {
            id: self.id@,
            prev: scale::optional_account(self.prev),
            next: scale::optional_account(self.next),
        }
    }
}

/// What a node is written as.
pub open spec fn list_node_bytes(v: ListNodeView) -> Seq<u8> {
    v.id + scale::optional_account_bytes(v.prev) + scale::optional_account_bytes(v.next)
}

/// Reads a node.
pub open spec fn parse_list_node(b: Seq<u8>) -> Option<ListNodeView> {
    match scale::parse_account(b) {
        None => None,
        Some((id, b1)) => match scale::parse_optional_account(b1) {
            None => None,
            Some((prev, b2)) => match scale::parse_optional_account(b2) {
                None => None,
                Some((next, _)) => Some(ListNodeView { id, prev, next }),
            },
        },
    }
}

/// Why bytes are no node.
pub open spec fn list_node_error(b: Seq<u8>) -> DecodeError {
    match scale::parse_account(b) {
        None => decode_error::within(Part::NodeId, Fault::ShortAccount),
        Some((_, b1)) => match scale::parse_optional_account(b1) {
            None => decode_error::within(Part::NodePrev, scale::optional_account_fault(b1)),
            Some((_, b2)) => decode_error::within(
                Part::NodeNext,
                scale::optional_account_fault(b2),
            ),
        },
    }
}

impl ListNode {
    /// Writes the node.
    pub fn encode(&self) -> (r: Vec<u8>)
        ensures
            r@ == list_node_bytes(self@),
    {
        let mut r = scale::encode_account(&self.id);
        let mut prev = scale::encode_optional_account(&self.prev);
        let mut next = scale::encode_optional_account(&self.next);
        r.append(&mut prev);
        r.append(&mut next);
        r
    }

    /// Reads a node from the bytes of a storage entry.
    pub fn decode(bytes: &[u8]) -> (r: Result<ListNode, DecodeError>)
        ensures
            match r {
                Ok(v) => parse_list_node(bytes@) == Some(v@),
                Err(e) => parse_list_node(bytes@) is None && e == list_node_error(bytes@),
            },
    {
        let (id, b1) = match scale::decode_account(bytes) {
            Some(x) => x,
            None => return Err(
                DecodeError {
                    field: Some(Part::NodeId),
                    inner: None,
                    fault: Fault::ShortAccount,
                },
            ),
        };
        let (prev, b2) = match scale::decode_optional_account(b1) {
            Some(x) => x,
            None => return Err(
                DecodeError {
                    field: Some(Part::NodePrev),
                    inner: None,
                    fault: scale::find_optional_account_fault(b1),
                },
            ),
        };
        match scale::decode_optional_account(b2) {
            Some((next, _)) => Ok(ListNode { id, prev, next }),
            None => Err(
                DecodeError {
                    field: Some(Part::NodeNext),
                    inner: None,
                    fault: scale::find_optional_account_fault(b2),
                },
            ),
        }
    }
}

/// A voter: the account, its stake, and the targets that it votes for.
pub type VoterData = (AccountId, VoteWeight, Vec<AccountId>);

/// One page of the voters of a round.
pub type VoterSnapshotPage = Vec<VoterData>;

/// One page of the targets of a round.
pub type TargetSnapshotPage = Vec<AccountId>;

/// The voters, page by page, and the targets of a round.
pub struct ElectionSnapshotPage {
    pub voters: Vec<VoterSnapshotPage>,
    pub targets: TargetSnapshotPage,
}

/// What a voter says.
pub type VoterView = (Seq<u8>, u64, Seq<Seq<u8>>);

/// What a voter says.
pub open spec fn voter(v: VoterData) -> VoterView {
    (v.0@, v.1, scale::accounts(v.2@))
}

/// What each voter of a list says.
pub open spec fn voters(v: Seq<VoterData>) -> Seq<VoterView> {
    Seq::new(v.len(), |i: int| voter(v[i]))
}

/// What a voter is written as.
pub open spec fn voter_bytes(v: VoterView) -> Seq<u8> {
    v.0 + scale::le_bytes(v.1 as nat, 8) + scale::account_list_bytes(v.2)
}

/// What voters are written as, one after the other.
pub open spec fn voters_bytes(v: Seq<VoterView>) -> Seq<u8>
    decreases v.len(),
{
    if v.len() == 0 {
        Seq::empty()
    } else {
        voter_bytes(v[0]) + voters_bytes(v.skip(1))
    }
}

/// What a page of voters is written as: their number, then the voters.
pub open spec fn voter_page_bytes(v: Seq<VoterView>) -> Seq<u8> {
    scale::compact_bytes(v.len()) + voters_bytes(v)
}

/// Reads a list of at most `bound` accounts. A longer one is rejected.
pub open spec fn parse_bounded_accounts(b: Seq<u8>, bound: nat) -> Option<
    (Seq<Seq<u8>>, Seq<u8>),
> {
    match scale::parse_account_list(b) {
        Some((v, rest)) => if v.len() <= bound {
            Some((v, rest))
        } else {
            None
        },
        None => None,
    }
}

/// Reads a voter of at most `max_votes` votes.
pub open spec fn parse_voter(b: Seq<u8>, max_votes: nat) -> Option<(VoterView, Seq<u8>)> {
    match scale::parse_account(b) {
        None => None,
        Some((who, b1)) => match scale::parse_number(b1, 8) {
            None => None,
            Some((weight, b2)) => match parse_bounded_accounts(b2, max_votes) {
                None => None,
                Some((votes, b3)) => Some(((who, weight as u64, votes), b3)),
            },
        },
    }
}

/// Reads `n` voters of at most `max_votes` votes each, one after the other.
pub open spec fn parse_voters(b: Seq<u8>, n: nat, max_votes: nat) -> Option<
    (Seq<VoterView>, Seq<u8>),
>
    decreases n,
{
    if n == 0 {
        Some((Seq::empty(), b))
    } else {
        match parse_voter(b, max_votes) {
            None => None,
            Some((v, b1)) => match parse_voters(b1, (n - 1) as nat, max_votes) {
                None => None,
                Some((tail, b2)) => Some((seq![v] + tail, b2)),
            },
        }
    }
}

/// Reads a page of at most `per_block` voters of at most `max_votes` votes each.
pub open spec fn parse_voter_page(b: Seq<u8>, per_block: nat, max_votes: nat) -> Option<
    Seq<VoterView>,
> {
    match scale::parse_compact(b, 4) {
        None => None,
        Some((n, b1)) => if n > per_block {
            None
        } else {
            match parse_voters(b1, n, max_votes) {
                None => None,
                Some((v, _)) => Some(v),
            }
        },
    }
}

/// Reads a page of at most `per_block` targets.
pub open spec fn parse_target_page(b: Seq<u8>, per_block: nat) -> Option<Seq<Seq<u8>>> {
    match parse_bounded_accounts(b, per_block) {
        Some((v, _)) => Some(v),
        None => None,
    }
}

/// What is wrong with bytes that are no list of at most `bound` accounts. Too long a list is
/// noticed before its accounts are read.
pub open spec fn bounded_accounts_fault(b: Seq<u8>, bound: nat) -> Fault {
    match scale::parse_compact(b, 4) {
        None => scale::compact_fault(b, 4),
        Some((n, _)) => if n > bound {
            Fault::TooLong
        } else {
            Fault::ShortAccount
        },
    }
}

/// What is wrong with bytes that are no voter of at most `max_votes` votes.
pub open spec fn voter_fault(b: Seq<u8>, max_votes: nat) -> Fault {
    match scale::parse_account(b) {
        None => Fault::ShortAccount,
        Some((_, b1)) => match scale::parse_number(b1, 8) {
            None => Fault::NotEnoughData,
            Some((_, b2)) => bounded_accounts_fault(b2, max_votes),
        },
    }
}

/// What is wrong with bytes that are no `n` voters: what is wrong with the first that does not
/// read.
pub open spec fn voters_fault(b: Seq<u8>, n: nat, max_votes: nat) -> Fault
    decreases n,
{
    match parse_voter(b, max_votes) {
        Some((_, rest)) if n > 0 => voters_fault(rest, (n - 1) as nat, max_votes),
        _ => voter_fault(b, max_votes),
    }
}

/// Why bytes are no page of at most `per_block` voters of at most `max_votes` votes each.
pub open spec fn voter_page_error(b: Seq<u8>, per_block: nat, max_votes: nat) -> DecodeError {
    decode_error::bare(
        match scale::parse_compact(b, 4) {
            None => scale::compact_fault(b, 4),
            Some((n, rest)) => if n > per_block {
                Fault::TooLong
            } else {
                voters_fault(rest, n, max_votes)
            },
        },
    )
}

/// Why bytes are no page of at most `per_block` targets.
pub open spec fn target_page_error(b: Seq<u8>, per_block: nat) -> DecodeError {
    decode_error::bare(bounded_accounts_fault(b, per_block))
}

fn decode_bounded_accounts(bytes: &[u8], bound: u32) -> (r: Result<
    (Vec<AccountId>, &[u8]),
    Fault,
>)
    ensures
        match r {
            Ok((v, rest)) => parse_bounded_accounts(bytes@, bound as nat) == Some(
                (scale::accounts(v@), rest@),
            ),
            Err(e) => parse_bounded_accounts(bytes@, bound as nat) is None
                && e == bounded_accounts_fault(bytes@, bound as nat),
        },
{
    match scale::decode_compact_u32(bytes) {
        None => return Err(scale::find_compact_u32_fault(bytes)),
        Some((n, _)) => {
            if n > bound {
                return Err(Fault::TooLong);
            }
        },
    }
    match scale::decode_account_list(bytes) {
        Some((v, rest)) => {
            assert(scale::accounts(v@).len() <= bound);
            Ok((v, rest))
        },
        None => Err(Fault::ShortAccount),
    }
}

fn decode_voter(bytes: &[u8], max_votes: u32) -> (r: Result<(VoterData, &[u8]), Fault>)
    ensures
        match r {
            Ok((v, rest)) => parse_voter(bytes@, max_votes as nat) == Some((voter(v), rest@)),
            Err(e) => parse_voter(bytes@, max_votes as nat) is None && e == voter_fault(
                bytes@,
                max_votes as nat,
            ),
        },
{
    let (who, b1) = match scale::decode_account(bytes) {
        Some(x) => x,
        None => return Err(Fault::ShortAccount),
    };
    let (weight, b2) = match scale::decode_u64(b1) {
        Some(x) => x,
        None => return Err(Fault::NotEnoughData),
    };
    match decode_bounded_accounts(b2, max_votes) {
        Ok((votes, b3)) => Ok(((who, weight, votes), b3)),
        Err(e) => Err(e),
    }
}

fn decode_voter_page(bytes: &[u8], per_block: u32, max_votes: u32) -> (r: Result<
    VoterSnapshotPage,
    Fault,
>)
    ensures
        match r {
            Ok(v) => parse_voter_page(bytes@, per_block as nat, max_votes as nat) == Some(
                voters(v@),
            ),
            Err(e) => parse_voter_page(bytes@, per_block as nat, max_votes as nat) is None
                && decode_error::bare(e) == voter_page_error(
                bytes@,
                per_block as nat,
                max_votes as nat,
            ),
        },
{
    let (n, start) = match scale::decode_compact_u32(bytes) {
        Some(x) => x,
        None => return Err(scale::find_compact_u32_fault(bytes)),
    };
    if n > per_block {
        return Err(Fault::TooLong);
    }
    let ghost max = max_votes as nat;
    let mut page: Vec<VoterData> = Vec::new();
    let mut input = start;
    let mut i: u32 = 0;
    assert(voters(page@) =~= Seq::empty());
    assert forall|t: Seq<VoterView>| #[trigger] (Seq::<VoterView>::empty() + t) == t by {
        assert(Seq::<VoterView>::empty() + t =~= t);
    }
    while i < n
        invariant
            i <= n,
            n <= per_block,
            max == max_votes as nat,
            scale::parse_compact(bytes@, 4) == Some((n as nat, start@)),
            match parse_voters(input@, (n - i) as nat, max) {
                None => parse_voters(start@, n as nat, max) is None && voters_fault(
                    start@,
                    n as nat,
                    max,
                ) == voters_fault(input@, (n - i) as nat, max),
                Some((tail, rest)) => parse_voters(start@, n as nat, max) == Some(
                    (voters(page@) + tail, rest),
                ),
            },
        decreases n - i,
    {
        match decode_voter(input, max_votes) {
            Ok((v, rest)) => {
                let ghost before = page@;
                page.push(v);
                proof {
                    if let Some((tail, _)) = parse_voters(rest@, (n - i - 1) as nat, max) {
                        assert(voters(before) + (seq![voter(v)] + tail) =~= voters(page@) + tail);
                    }
                }
                input = rest;
                i = i + 1;
            },
            Err(e) => {
                return Err(e);
            },
        }
    }
    assert(voters(page@) + Seq::<VoterView>::empty() =~= voters(page@));
    Ok(page)
}

/// Reads the reply to [`crate::storage::phase_key`]: the phase of the election.
pub fn get_phase(value: &[u8]) -> (r: Result<Phase, StorageError>)
    ensures
        r == match parse_phase(value@) {
            Some(v) => Ok::<Phase, StorageError>(v),
            None => Err(StorageError::Decode(phase_error(value@))),
        },
{
    match Phase::decode(value) {
        Ok(v) => Ok(v),
        Err(e) => Err(StorageError::Decode(e)),
    }
}

/// Reads the reply to [`crate::storage::round_key`]: the number of the election's round.
pub fn get_round(value: &[u8]) -> (r: Result<u32, StorageError>)
    ensures
        r == match parse_u32(value@) {
            Some(v) => Ok::<u32, StorageError>(v),
            None => Err(StorageError::Decode(number_error())),
        },
{
    match scale::decode_u32(value) {
        Some((v, _)) => Ok(v),
        None => Err(
                StorageError::Decode(
                    DecodeError { field: None, inner: None, fault: Fault::NotEnoughData },
                ),
            ),
    }
}

/// Reads the reply to [`crate::storage::desired_targets_key`]: how many winners the round is to
/// elect.
pub fn get_desired_targets(entry: Option<&[u8]>) -> (r: Result<u32, StorageError>)
    ensures
        match entry {
            None => r == Err::<u32, StorageError>(
                StorageError::NotFound(StorageItem::DesiredTargets),
            ),
            Some(b) => match parse_u32(b@) {
                Some(v) => r == Ok::<u32, StorageError>(v),
                None => r == Err::<u32, StorageError>(StorageError::Decode(number_error())),
            },
        },
{
    match entry {
        None => Err(StorageError::NotFound(StorageItem::DesiredTargets)),
        Some(b) => match scale::decode_u32(b) {
            Some((v, _)) => Ok(v),
            None => Err(
                StorageError::Decode(
                    DecodeError { field: None, inner: None, fault: Fault::NotEnoughData },
                ),
            ),
        },
    }
}

/// Reads the reply to [`crate::storage::block_number_key`]: the number of the block.
pub fn get_block_number(entry: Option<&[u8]>) -> (r: Result<u32, StorageError>)
    ensures
        match entry {
            None => r == Err::<u32, StorageError>(StorageError::NotFound(StorageItem::BlockNumber)),
            Some(b) => match parse_u32(b@) {
                Some(v) => r == Ok::<u32, StorageError>(v),
                None => r == Err::<u32, StorageError>(StorageError::Decode(number_error())),
            },
        },
{
    match entry {
        None => Err(StorageError::NotFound(StorageItem::BlockNumber)),
        Some(b) => match scale::decode_u32(b) {
            Some((v, _)) => Ok(v),
            None => Err(
                StorageError::Decode(
                    DecodeError { field: None, inner: None, fault: Fault::NotEnoughData },
                ),
            ),
        },
    }
}

/// Reads the reply to [`crate::storage::min_nominator_bond_key`]: the least bond of a
/// nominator.
pub fn get_min_nominator_bond(entry: Option<&[u8]>) -> (r: Result<Balance, StorageError>)
    ensures
        match entry {
            None => r == Err::<Balance, StorageError>(
                StorageError::NotFound(StorageItem::MinNominatorBond),
            ),
            Some(b) => match parse_u128(b@) {
                Some(v) => r == Ok::<Balance, StorageError>(v),
                None => r == Err::<Balance, StorageError>(StorageError::Decode(number_error())),
            },
        },
{
    match entry {
        None => Err(StorageError::NotFound(StorageItem::MinNominatorBond)),
        Some(b) => match scale::decode_u128(b) {
            Some((v, _)) => Ok(v),
            None => Err(
                StorageError::Decode(
                    DecodeError { field: None, inner: None, fault: Fault::NotEnoughData },
                ),
            ),
        },
    }
}

/// Reads the reply to [`crate::storage::min_validator_bond_key`]: the least bond of a
/// validator.
pub fn get_min_validator_bond(entry: Option<&[u8]>) -> (r: Result<Balance, StorageError>)
    ensures
        match entry {
            None => r == Err::<Balance, StorageError>(
                StorageError::NotFound(StorageItem::MinValidatorBond),
            ),
            Some(b) => match parse_u128(b@) {
                Some(v) => r == Ok::<Balance, StorageError>(v),
                None => r == Err::<Balance, StorageError>(StorageError::Decode(number_error())),
            },
        },
{
    match entry {
        None => Err(StorageError::NotFound(StorageItem::MinValidatorBond)),
        Some(b) => match scale::decode_u128(b) {
            Some((v, _)) => Ok(v),
            None => Err(
                StorageError::Decode(
                    DecodeError { field: None, inner: None, fault: Fault::NotEnoughData },
                ),
            ),
        },
    }
}

/// Reads the reply to [`crate::storage::paged_voter_snapshot_key`]: a page of voters.
///
/// A page of more than `voter_snapshot_per_block` voters does not read, nor does one with a voter
/// of more than `max_votes_per_voter` votes.
pub fn fetch_paged_voter_snapshot(
    entry: Option<&[u8]>,
    voter_snapshot_per_block: u32,
    max_votes_per_voter: u32,
) -> (r: Result<VoterSnapshotPage, StorageError>)
    ensures
        match entry {
            None => r == Err::<VoterSnapshotPage, StorageError>(
                StorageError::NotFound(StorageItem::VoterSnapshot),
            ),
            Some(b) => match parse_voter_page(
                b@,
                voter_snapshot_per_block as nat,
                max_votes_per_voter as nat,
            ) {
                Some(v) => r is Ok && voters(r->Ok_0@) == v,
                None => r == Err::<VoterSnapshotPage, StorageError>(
                    StorageError::Decode(
                        voter_page_error(
                            b@,
                            voter_snapshot_per_block as nat,
                            max_votes_per_voter as nat,
                        ),
                    ),
                ),
            },
        },
{
    match entry {
        None => Err(StorageError::NotFound(StorageItem::VoterSnapshot)),
        Some(b) => match decode_voter_page(b, voter_snapshot_per_block, max_votes_per_voter) {
            Ok(v) => Ok(v),
            Err(fault) => Err(
                StorageError::Decode(DecodeError { field: None, inner: None, fault }),
            ),
        },
    }
}

/// Reads the reply to [`crate::storage::paged_target_snapshot_key`]: a page of targets.
///
/// A page of more than `target_snapshot_per_block` targets does not read.
pub fn fetch_paged_target_snapshot(
    entry: Option<&[u8]>,
    target_snapshot_per_block: u32,
) -> (r: Result<TargetSnapshotPage, StorageError>)
    ensures
        match entry {
            None => r == Err::<TargetSnapshotPage, StorageError>(
                StorageError::NotFound(StorageItem::TargetSnapshot),
            ),
            Some(b) => match parse_target_page(b@, target_snapshot_per_block as nat) {
                Some(v) => r is Ok && scale::accounts(r->Ok_0@) == v,
                None => r == Err::<TargetSnapshotPage, StorageError>(
                    StorageError::Decode(target_page_error(b@, target_snapshot_per_block as nat)),
                ),
            },
        },
{
    match entry {
        None => Err(StorageError::NotFound(StorageItem::TargetSnapshot)),
        Some(b) => match decode_bounded_accounts(b, target_snapshot_per_block) {
            Ok((v, _)) => Ok(v),
            Err(fault) => Err(
                StorageError::Decode(DecodeError { field: None, inner: None, fault }),
            ),
        },
    }
}

/// Reads the reply to [`crate::storage::validator_prefs_key`]: the preferences of a validator.
pub fn get_validator_prefs(entry: Option<&[u8]>) -> (r: Result<ValidatorPrefs, StorageError>)
    ensures
        match entry {
            None => r == Err::<ValidatorPrefs, StorageError>(
                StorageError::NotFound(StorageItem::ValidatorPrefs),
            ),
            Some(b) => match staking::parse_validator_prefs(b@) {
                Some(v) => r == Ok::<ValidatorPrefs, StorageError>(v),
                None => r == Err::<ValidatorPrefs, StorageError>(
                    StorageError::Decode(staking::validator_prefs_error(b@)),
                ),
            },
        },
{
    match entry {
        None => Err(StorageError::NotFound(StorageItem::ValidatorPrefs)),
        Some(b) => match ValidatorPrefs::read(b) {
            Ok(v) => Ok(v),
            Err(e) => Err(StorageError::Decode(e)),
        },
    }
}

/// Reads the reply to [`crate::storage::nominator_key`]: the nominations of an account, if it
/// has any.
pub fn get_nominator(entry: Option<&[u8]>) -> (r: Result<Option<NominationsLight>, StorageError>)
    ensures
        match entry {
            None => r == Ok::<Option<NominationsLight>, StorageError>(None),
            Some(b) => match staking::parse_nominations(b@) {
                Some(v) => r matches Ok(Some(x)) && x@ == v,
                None => r == Err::<Option<NominationsLight>, StorageError>(
                    StorageError::Decode(staking::nominations_error(b@)),
                ),
            },
        },
{
    match entry {
        None => Ok(None),
        Some(b) => match NominationsLight::decode(b) {
            Ok(v) => Ok(Some(v)),
            Err(e) => Err(StorageError::Decode(e)),
        },
    }
}

/// Reads the reply to [`crate::storage::ledger_key`]: the staking ledger of an account, if it has
/// one.
pub fn ledger(entry: Option<&[u8]>) -> (r: Result<Option<StakingLedger>, StorageError>)
    ensures
        match entry {
            None => r == Ok::<Option<StakingLedger>, StorageError>(None),
            Some(b) => match staking::parse_ledger(b@) {
                Some(v) => r matches Ok(Some(x)) && x@ == v,
                None => r == Err::<Option<StakingLedger>, StorageError>(
                    StorageError::Decode(staking::ledger_error(b@)),
                ),
            },
        },
{
    match entry {
        None => Ok(None),
        Some(b) => match StakingLedger::decode(b) {
            Ok(v) => Ok(Some(v)),
            Err(e) => Err(StorageError::Decode(e)),
        },
    }
}

/// Reads the reply to [`crate::storage::list_bags_key`]: a bag of the voter list, if there is one.
pub fn list_bags(entry: Option<&[u8]>) -> (r: Result<Option<ListBag>, StorageError>)
    ensures
        match entry {
            None => r == Ok::<Option<ListBag>, StorageError>(None),
            Some(b) => match parse_list_bag(b@) {
                Some(v) => r matches Ok(Some(x)) && x@ == v,
                None => r == Err::<Option<ListBag>, StorageError>(
                    StorageError::Decode(list_bag_error(b@)),
                ),
            },
        },
{
    match entry {
        None => Ok(None),
        Some(b) => match ListBag::decode(b) {
            Ok(v) => Ok(Some(v)),
            Err(e) => Err(StorageError::Decode(e)),
        },
    }
}

/// Reads the reply to [`crate::storage::list_nodes_key`]: the place of an account in the voter
/// list, if it has one.
pub fn list_nodes(entry: Option<&[u8]>) -> (r: Result<Option<ListNode>, StorageError>)
    ensures
        match entry {
            None => r == Ok::<Option<ListNode>, StorageError>(None),
            Some(b) => match parse_list_node(b@) {
                Some(v) => r matches Ok(Some(x)) && x@ == v,
                None => r == Err::<Option<ListNode>, StorageError>(
                    StorageError::Decode(list_node_error(b@)),
                ),
            },
        },
{
    match entry {
        None => Ok(None),
        Some(b) => match ListNode::decode(b) {
            Ok(v) => Ok(Some(v)),
            Err(e) => Err(StorageError::Decode(e)),
        },
    }
}

/// Reads the reply to [`crate::storage::controller_key`]: the controller of a stash, if it has
/// one.
pub fn get_controller_from_stash(entry: Option<&[u8]>) -> (r: Result<
    Option<AccountId>,
    StorageError,
>)
    ensures
        match entry {
            None => r == Ok::<Option<AccountId>, StorageError>(None),
            Some(b) => match scale::parse_account(b@) {
                Some((v, _)) => r matches Ok(Some(x)) && x@ == v,
                None => r == Err::<Option<AccountId>, StorageError>(
                    StorageError::Decode(decode_error::bare(Fault::ShortAccount)),
                ),
            },
        },
{
    match entry {
        None => Ok(None),
        Some(b) => match scale::decode_account(b) {
            Some((v, _)) => Ok(Some(v)),
            None => Err(
                StorageError::Decode(
                    DecodeError { field: None, inner: None, fault: Fault::ShortAccount },
                ),
            ),
        },
    }
}

/// A `u32` of the storage reads back as it was written, whatever stands behind it.
pub proof fn law_u32_round_trip(v: u32, rest: Seq<u8>)
    ensures
        parse_u32(scale::le_bytes(v as nat, 4) + rest) == Some(v),
{
    scale::lemma_pow256();
    scale::law_number_round_trip(v as nat, 4, rest);
}

/// A `u128` of the storage reads back as it was written, whatever stands behind it.
pub proof fn law_u128_round_trip(v: u128, rest: Seq<u8>)
    ensures
        parse_u128(scale::le_bytes(v as nat, 16) + rest) == Some(v),
{
    scale::lemma_pow256();
    scale::law_number_round_trip(v as nat, 16, rest);
}

/// A phase reads back as it was written, whatever stands behind it.
pub proof fn law_phase_round_trip(p: Phase, rest: Seq<u8>)
    ensures
        parse_phase(phase_bytes(p) + rest) == Some(p),
{
    let b = phase_bytes(p) + rest;
    assert(b[0] == phase_index(p));
    if let Some(n) = phase_number(p) {
        law_u32_round_trip(n, rest);
        assert(b.skip(1) =~= scale::le_bytes(n as nat, 4) + rest);
    }
}

/// A phase is read only from bytes that begin as it is written.
pub proof fn law_phase_canonical(b: Seq<u8>)
    requires
        parse_phase(b) is Some,
    ensures
        phase_bytes(parse_phase(b)->0).is_prefix_of(b),
{
    let p = parse_phase(b)->0;
    if phase_number(p) is Some {
        let head = b.skip(1).take(4);
        scale::lemma_pow256();
        scale::lemma_le_bytes_of_le(head);
        assert(phase_bytes(p) =~= b.take(5));
    } else {
        assert(phase_bytes(p) =~= b.take(1));
    }
}

/// A bag reads back as it was written, whatever stands behind it.
pub proof fn law_list_bag_round_trip(v: ListBagView, rest: Seq<u8>)
    requires
        v.head matches Some(a) ==> a.len() == 32,
        v.tail matches Some(a) ==> a.len() == 32,
    ensures
        parse_list_bag(list_bag_bytes(v) + rest) == Some(v),
{
    let b1 = scale::optional_account_bytes(v.tail) + rest;
    assert(list_bag_bytes(v) + rest =~= scale::optional_account_bytes(v.head) + b1);
    scale::law_optional_account_round_trip(v.head, b1);
    scale::law_optional_account_round_trip(v.tail, rest);
}

/// A node reads back as it was written, whatever stands behind it.
pub proof fn law_list_node_round_trip(v: ListNodeView, rest: Seq<u8>)
    requires
        v.id.len() == 32,
        v.prev matches Some(a) ==> a.len() == 32,
        v.next matches Some(a) ==> a.len() == 32,
    ensures
        parse_list_node(list_node_bytes(v) + rest) == Some(v),
{
    let b2 = scale::optional_account_bytes(v.next) + rest;
    let b1 = scale::optional_account_bytes(v.prev) + b2;
    assert(list_node_bytes(v) + rest =~= v.id + b1);
    scale::law_account_round_trip(v.id, b1);
    scale::law_optional_account_round_trip(v.prev, b2);
    scale::law_optional_account_round_trip(v.next, rest);
}

/// Whether a voter keeps to the limit on votes, and its accounts are accounts.
pub open spec fn voter_fits(v: VoterView, max_votes: nat) -> bool {
    &&& v.0.len() == 32
    &&& v.2.len() <= max_votes
    &&& forall|i: int| 0 <= i < v.2.len() ==> (#[trigger] v.2[i]).len() == 32
}

proof fn lemma_voter_round_trip(v: VoterView, max_votes: nat, rest: Seq<u8>)
    requires
        max_votes <= u32::MAX,
        voter_fits(v, max_votes),
    ensures
        parse_voter(voter_bytes(v) + rest, max_votes) == Some((v, rest)),
{
    scale::lemma_pow256();
    let b2 = scale::account_list_bytes(v.2) + rest;
    let b1 = scale::le_bytes(v.1 as nat, 8) + b2;
    assert(voter_bytes(v) + rest =~= v.0 + b1);
    scale::law_account_round_trip(v.0, b1);
    scale::law_number_round_trip(v.1 as nat, 8, b2);
    scale::law_account_list_round_trip(v.2, rest);
}

proof fn lemma_voters_round_trip(v: Seq<VoterView>, max_votes: nat, rest: Seq<u8>)
    requires
        max_votes <= u32::MAX,
        forall|i: int| 0 <= i < v.len() ==> voter_fits(#[trigger] v[i], max_votes),
    ensures
        parse_voters(voters_bytes(v) + rest, v.len(), max_votes) == Some((v, rest)),
    decreases v.len(),
{
    let b = voters_bytes(v) + rest;
    if v.len() == 0 {
        assert(b =~= rest);
        assert(v =~= Seq::empty());
    } else {
        let tail = v.skip(1);
        let b1 = voters_bytes(tail) + rest;
        assert(b =~= voter_bytes(v[0]) + b1);
        assert(parse_voter(b, max_votes) == Some((v[0], b1))) by {
            lemma_voter_round_trip(v[0], max_votes, b1);
        }
        assert(parse_voters(b1, tail.len(), max_votes) == Some((tail, rest))) by {
            assert forall|i: int| 0 <= i < tail.len() implies voter_fits(
                #[trigger] tail[i],
                max_votes,
            ) by {
                assert(tail[i] == v[i + 1]);
            }
            lemma_voters_round_trip(tail, max_votes, rest);
        }
        assert(seq![v[0]] + tail =~= v);
    }
}

/// A page of voters that keeps to the limits reads back as it was written, whatever stands
/// behind it.
pub proof fn law_voter_page_round_trip(
    v: Seq<VoterView>,
    per_block: u32,
    max_votes: u32,
    rest: Seq<u8>,
)
    requires
        v.len() <= per_block,
        forall|i: int| 0 <= i < v.len() ==> voter_fits(#[trigger] v[i], max_votes as nat),
    ensures
        parse_voter_page(voter_page_bytes(v) + rest, per_block as nat, max_votes as nat) == Some(v),
{
    scale::lemma_pow256();
    let b1 = voters_bytes(v) + rest;
    assert(voter_page_bytes(v) + rest =~= scale::compact_bytes(v.len()) + b1);
    scale::law_compact_round_trip(v.len(), 4, b1);
    lemma_voters_round_trip(v, max_votes as nat, rest);
}

/// A page of targets that keeps to the limit reads back as it was written, whatever stands
/// behind it.
pub proof fn law_target_page_round_trip(v: Seq<Seq<u8>>, per_block: u32, rest: Seq<u8>)
    requires
        v.len() <= per_block,
        forall|i: int| 0 <= i < v.len() ==> (#[trigger] v[i]).len() == 32,
    ensures
        parse_target_page(scale::account_list_bytes(v) + rest, per_block as nat) == Some(v),
{
    scale::law_account_list_round_trip(v, rest);
}

proof fn lemma_voters_fit(b: Seq<u8>, n: nat, max_votes: nat)
    ensures
        parse_voters(b, n, max_votes) matches Some((v, _)) ==> v.len() == n && forall|i: int|
            0 <= i < v.len() ==> voter_fits(#[trigger] v[i], max_votes),
    decreases n,
{
    if n > 0 {
        if let Some((_, b1)) = parse_voter(b, max_votes) {
            lemma_voters_fit(b1, (n - 1) as nat, max_votes);
        }
    }
}

/// No page of voters that is read holds more voters, or a voter of more votes, than the limits
/// allow.
pub proof fn law_voter_page_bounded(b: Seq<u8>, per_block: nat, max_votes: nat)
    ensures
        parse_voter_page(b, per_block, max_votes) matches Some(v) ==> v.len() <= per_block
            && forall|i: int| 0 <= i < v.len() ==> voter_fits(#[trigger] v[i], max_votes),
{
    if let Some((n, b1)) = scale::parse_compact(b, 4) {
        lemma_voters_fit(b1, n, max_votes);
    }
}

/// No page of targets that is read holds more targets than the limit allows.
pub proof fn law_target_page_bounded(b: Seq<u8>, per_block: nat)
    ensures
        parse_target_page(b, per_block) matches Some(v) ==> v.len() <= per_block,
{
}

} // verus!
