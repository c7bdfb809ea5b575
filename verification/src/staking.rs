//! What the staking pallet stores of its validators, nominators and stashes.

use crate::decode_error;
use crate::decode_error::{DecodeError, Fault, Part};
use crate::primitives::{AccountId, Balance, EraIndex};
use crate::scale;
use parity_scale_codec::Decode;
use vstd::prelude::*;

verus! {

/// A fraction of one billion parts: the whole.
pub const PERBILL_ONE: u32 = 1_000_000_000;

/// What a validator asks for.
#[derive(Debug, Clone, Copy, PartialEq, Eq, Structural)]
pub struct ValidatorPrefs {
    /// The share that the validator takes up front, in parts per billion.
    pub commission: u32,
    /// Whether the validator accepts no more nominations.
    pub blocked: bool,
}

/// What the preferences of a validator are written as.
pub open spec fn validator_prefs_bytes(v: ValidatorPrefs) -> Seq<u8> {
    scale::compact_bytes(v.commission as nat) + scale::bool_bytes(v.blocked)
}

/// Reads the preferences of a validator. A commission above the whole counts as the whole.
pub open spec fn parse_validator_prefs(b: Seq<u8>) -> Option<ValidatorPrefs> {
    match scale::parse_compact(b, 4) {
        None => None,
        Some((n, rest)) => match scale::parse_bool(rest) {
            None => None,
            Some((blocked, _)) => Some(
                ValidatorPrefs {
                    commission: if n > PERBILL_ONE {
                        PERBILL_ONE
                    } else {
                        n as u32
                    },
                    blocked,
                },
            ),
        },
    }
}

impl ValidatorPrefs {
    /// `pallet_staking::ValidatorPrefs::decode` on a byte slice: takes the commission as a
    /// compact `u32`, cut off at the whole, then whether the validator is blocked; fails where
    /// one of them does not read.
    #[verifier::external_body]
    pub(crate) fn decode(bytes: &[u8]) -> (r: Option<ValidatorPrefs>)
        ensures
            r == parse_validator_prefs(bytes@),
    {
        match pallet_staking::ValidatorPrefs::decode(&mut &bytes[..]) {
            Ok(v) => Some(
                ValidatorPrefs { commission: v.commission.deconstruct(), blocked: v.blocked },
            ),
            Err(_) => None,
        }
    }
}

/// Why bytes are no preferences of a validator.
pub open spec fn validator_prefs_error(b: Seq<u8>) -> DecodeError {
    match scale::parse_compact(b, 4) {
        None => decode_error::within(Part::PrefsCommission, scale::compact_fault(b, 4)),
        Some((_, rest)) => decode_error::within(Part::PrefsBlocked, scale::bool_fault(rest)),
    }
}

impl ValidatorPrefs {
    /// Reads the preferences of a validator from the bytes of a storage entry.
    pub fn read(bytes: &[u8]) -> (r: Result<ValidatorPrefs, DecodeError>)
        ensures
            r == match parse_validator_prefs(bytes@) {
                Some(v) => Ok::<ValidatorPrefs, DecodeError>(v),
                None => Err(validator_prefs_error(bytes@)),
            },
    {
        match ValidatorPrefs::decode(bytes) {
            Some(v) => Ok(v),
            None => match scale::decode_compact_u32(bytes) {
                None => Err(
                    DecodeError {
                        field: Some(Part::PrefsCommission),
                        inner: None,
                        fault: scale::find_compact_u32_fault(bytes),
                    },
                ),
                Some((_, rest)) => Err(
                    DecodeError {
                        field: Some(Part::PrefsBlocked),
                        inner: None,
                        fault: scale::find_bool_fault(rest),
                    },
                ),
            },
        }
    }
}

/// The nominations of an account.
#[derive(Debug, Clone)]
pub struct NominationsLight {
    /// The validators that are nominated.
    pub targets: Vec<AccountId>,
    /// The era in which the nominations were submitted.
    pub _submitted_in: EraIndex,
    /// Whether the nominations are suppressed.
    pub suppressed: bool,
}

/// What nominations say.
pub struct NominationsView {
    pub targets: Seq<Seq<u8>>,
    pub submitted_in: EraIndex,
    pub suppressed: bool,
}

impl View for NominationsLight {
    type V = NominationsView;

    open spec fn view(&self) -> NominationsView {
        NominationsView {
            targets: scale::accounts(self.targets@),
            submitted_in: self._submitted_in,
            suppressed: self.suppressed,
        }
    }
}

/// What nominations are written as.
pub open spec fn nominations_bytes(v: NominationsView) -> Seq<u8> {
    scale::account_list_bytes(v.targets) + scale::le_bytes(v.submitted_in as nat, 4)
        + scale::bool_bytes(v.suppressed)
}

/// Reads nominations.
pub open spec fn parse_nominations(b: Seq<u8>) -> Option<NominationsView> {
    match scale::parse_account_list(b) {
        None => None,
        Some((targets, b1)) => match scale::parse_number(b1, 4) {
            None => None,
            Some((submitted_in, b2)) => match scale::parse_bool(b2) {
                None => None,
                Some((suppressed, _)) => Some(
                    NominationsView { targets, submitted_in: submitted_in as u32, suppressed },
                ),
            },
        },
    }
}

/// Why bytes are no nominations.
pub open spec fn nominations_error(b: Seq<u8>) -> DecodeError {
    match scale::parse_account_list(b) {
        None => decode_error::within(Part::NominationsTargets, scale::account_list_fault(b)),
        Some((_, b1)) => match scale::parse_number(b1, 4) {
            None => decode_error::within(Part::NominationsSubmittedIn, Fault::NotEnoughData),
            Some((_, b2)) => decode_error::within(
                Part::NominationsSuppressed,
                scale::bool_fault(b2),
            ),
        },
    }
}

impl NominationsLight {
    /// Reads nominations from the bytes of a storage entry.
    pub fn decode(bytes: &[u8]) -> (r: Result<NominationsLight, DecodeError>)
        ensures
            match r {
                Ok(v) => parse_nominations(bytes@) == Some(v@),
                Err(e) => parse_nominations(bytes@) is None && e == nominations_error(bytes@),
            },
    {
        let (targets, b1) = match scale::decode_account_list(bytes) {
            Some(x) => x,
            None => return Err(
                DecodeError {
                    field: Some(Part::NominationsTargets),
                    inner: None,
                    fault: scale::find_account_list_fault(bytes),
                },
            ),
        };
        let (submitted_in, b2) = match scale::decode_u32(b1) {
            Some(x) => x,
            None => return Err(
                DecodeError {
                    field: Some(Part::NominationsSubmittedIn),
                    inner: None,
                    fault: Fault::NotEnoughData,
                },
            ),
        };
        match scale::decode_bool(b2) {
            Some((suppressed, _)) => Ok(
                NominationsLight { targets, _submitted_in: submitted_in, suppressed },
            ),
            None => Err(
                DecodeError {
                    field: Some(Part::NominationsSuppressed),
                    inner: None,
                    fault: scale::find_bool_fault(b2),
                },
            ),
        }
    }
}

/// Funds that are on their way out of a stash.
#[derive(Debug, Clone, Copy, PartialEq, Eq, Structural)]
pub struct UnlockChunk {
    /// The amount of the funds.
    pub value: Balance,
    /// The era in which they are unlocked.
    pub era: EraIndex,
}

/// The staking ledger of an account.
#[derive(Debug, Clone)]
pub struct StakingLedger {
    /// The account whose funds are at stake.
    pub stash: AccountId,
    /// All the funds that are accounted for.
    pub total: Balance,
    /// The funds that will be at stake in the rounds to come.
    pub active: Balance,
    /// The funds that are on their way out.
    pub unlocking: Vec<UnlockChunk>,
}

/// What a staking ledger says.
pub struct LedgerView {
    pub stash: Seq<u8>,
    pub total: Balance,
    pub active: Balance,
    pub unlocking: Seq<UnlockChunk>,
}

impl View for StakingLedger {
    type V = LedgerView;

    open spec fn view(&self) -> LedgerView {
        LedgerView {
            stash: self.stash@,
            total: self.total,
            active: self.active,
            unlocking: self.unlocking@,
        }
    }
}

/// What an unlocking chunk is written as.
pub open spec fn chunk_bytes(v: UnlockChunk) -> Seq<u8> {
    scale::compact_bytes(v.value as nat) + scale::compact_bytes(v.era as nat)
}

/// What unlocking chunks are written as, one after the other.
pub open spec fn chunks_bytes(v: Seq<UnlockChunk>) -> Seq<u8>
    decreases v.len(),
{
    if v.len() == 0 {
        Seq::empty()
    } else {
        chunk_bytes(v[0]) + chunks_bytes(v.skip(1))
    }
}

/// What a staking ledger is written as.
pub open spec fn ledger_bytes(v: LedgerView) -> Seq<u8> {
    v.stash + scale::compact_bytes(v.total as nat) + scale::compact_bytes(v.active as nat)
        + scale::compact_bytes(v.unlocking.len()) + chunks_bytes(v.unlocking)
}

/// Reads an unlocking chunk.
pub open spec fn parse_chunk(b: Seq<u8>) -> Option<(UnlockChunk, Seq<u8>)> {
    match scale::parse_compact(b, 16) {
        None => None,
        Some((value, b1)) => match scale::parse_compact(b1, 4) {
            None => None,
            Some((era, b2)) => Some((UnlockChunk { value: value as u128, era: era as u32 }, b2)),
        },
    }
}

/// Reads `n` unlocking chunks, one after the other.
pub open spec fn parse_chunks(b: Seq<u8>, n: nat) -> Option<(Seq<UnlockChunk>, Seq<u8>)>
    decreases n,
{
    if n == 0 {
        Some((Seq::empty(), b))
    } else {
        match parse_chunk(b) {
            None => None,
            Some((chunk, b1)) => match parse_chunks(b1, (n - 1) as nat) {
                None => None,
                Some((chunks, b2)) => Some((seq![chunk] + chunks, b2)),
            },
        }
    }
}

/// Reads a staking ledger. What the chain stores behind the unlocking chunks is passed over.
pub open spec fn parse_ledger(b: Seq<u8>) -> Option<LedgerView> {
    match scale::parse_account(b) {
        None => None,
        Some((stash, b1)) => match scale::parse_compact(b1, 16) {
            None => None,
            Some((total, b2)) => match scale::parse_compact(b2, 16) {
                None => None,
                Some((active, b3)) => match scale::parse_compact(b3, 4) {
                    None => None,
                    Some((n, b4)) => match parse_chunks(b4, n) {
                        None => None,
                        Some((unlocking, _)) => Some(
                            LedgerView {
                                stash,
                                total: total as u128,
                                active: active as u128,
                                unlocking,
                            },
                        ),
                    },
                },
            },
        },
    }
}

/// What is wrong with bytes that are no unlocking chunk, and in which of its fields.
pub open spec fn chunk_fault(b: Seq<u8>) -> (Part, Fault) {
    match scale::parse_compact(b, 16) {
        None => (Part::ChunkValue, scale::compact_fault(b, 16)),
        Some((_, b1)) => (Part::ChunkEra, scale::compact_fault(b1, 4)),
    }
}

/// What is wrong with bytes that are no `n` unlocking chunks: what is wrong with the first that
/// does not read.
pub open spec fn chunks_fault(b: Seq<u8>, n: nat) -> (Part, Fault)
    decreases n,
{
    match parse_chunk(b) {
        Some((_, rest)) if n > 0 => chunks_fault(rest, (n - 1) as nat),
        _ => chunk_fault(b),
    }
}

/// Why bytes are no staking ledger.
pub open spec fn ledger_error(b: Seq<u8>) -> DecodeError {
    match scale::parse_account(b) {
        None => decode_error::within(Part::LedgerStash, Fault::ShortAccount),
        Some((_, b1)) => match scale::parse_compact(b1, 16) {
            None => decode_error::within(Part::LedgerTotal, scale::compact_fault(b1, 16)),
            Some((_, b2)) => match scale::parse_compact(b2, 16) {
                None => decode_error::within(Part::LedgerActive, scale::compact_fault(b2, 16)),
                Some((_, b3)) => match scale::parse_compact(b3, 4) {
                    None => decode_error::within(
                        Part::LedgerUnlocking,
                        scale::compact_fault(b3, 4),
                    ),
                    Some((n, b4)) => decode_error::deep_within(
                        Part::LedgerUnlocking,
                        chunks_fault(b4, n).0,
                        chunks_fault(b4, n).1,
                    ),
                },
            },
        },
    }
}

fn decode_chunk(bytes: &[u8]) -> (r: Result<(UnlockChunk, &[u8]), (Part, Fault)>)
    ensures
        match r {
            Ok((v, rest)) => parse_chunk(bytes@) == Some((v, rest@)),
            Err(e) => parse_chunk(bytes@) is None && e == chunk_fault(bytes@),
        },
{
    match scale::decode_compact_u128(bytes) {
        Some((value, b1)) => match scale::decode_compact_u32(b1) {
            Some((era, b2)) => Ok((UnlockChunk { value, era }, b2)),
            None => Err((Part::ChunkEra, scale::find_compact_u32_fault(b1))),
        },
        None => Err((Part::ChunkValue, scale::find_compact_u128_fault(bytes))),
    }
}

fn decode_chunks(bytes: &[u8], n: u32) -> (r: Result<Vec<UnlockChunk>, (Part, Fault)>)
    ensures
        match (r, parse_chunks(bytes@, n as nat)) {
            (Ok(v), Some((chunks, _))) => v@ == chunks,
            (Err(e), None) => e == chunks_fault(bytes@, n as nat),
            _ => false,
        },
{
    let mut chunks: Vec<UnlockChunk> = Vec::new();
    let mut input = bytes;
    let mut i: u32 = 0;
    while i < n
        invariant
            i <= n,
            match parse_chunks(input@, (n - i) as nat) {
                None => parse_chunks(bytes@, n as nat) is None && chunks_fault(
                    bytes@,
                    n as nat,
                ) == chunks_fault(input@, (n - i) as nat),
                Some((tail, rest)) => parse_chunks(bytes@, n as nat) == Some(
                    (chunks@ + tail, rest),
                ),
            },
        decreases n - i,
    {
        match decode_chunk(input) {
            Ok((chunk, rest)) => {
                let ghost before = chunks@;
                chunks.push(chunk);
                proof {
                    if let Some((tail, _)) = parse_chunks(rest@, (n - i - 1) as nat) {
                        assert(before + (seq![chunk] + tail) =~= chunks@ + tail);
                    }
                }
                input = rest;
                i = i + 1;
            },
            Err(e) => {
                return Err(e);
            },
        }
    }
    assert(chunks@ + Seq::<UnlockChunk>::empty() =~= chunks@);
    Ok(chunks)
}

impl StakingLedger {
    /// Reads a staking ledger from the bytes of a storage entry.
    pub fn decode(bytes: &[u8]) -> (r: Result<StakingLedger, DecodeError>)
        ensures
            match r {
                Ok(v) => parse_ledger(bytes@) == Some(v@),
                Err(e) => parse_ledger(bytes@) is None && e == ledger_error(bytes@),
            },
    {
        let (stash, b1) = match scale::decode_account(bytes) {
            Some(x) => x,
            None => return Err(
                DecodeError {
                    field: Some(Part::LedgerStash),
                    inner: None,
                    fault: Fault::ShortAccount,
                },
            ),
        };
        let (total, b2) = match scale::decode_compact_u128(b1) {
            Some(x) => x,
            None => return Err(
                DecodeError {
                    field: Some(Part::LedgerTotal),
                    inner: None,
                    fault: scale::find_compact_u128_fault(b1),
                },
            ),
        };
        let (active, b3) = match scale::decode_compact_u128(b2) {
            Some(x) => x,
            None => return Err(
                DecodeError {
                    field: Some(Part::LedgerActive),
                    inner: None,
                    fault: scale::find_compact_u128_fault(b2),
                },
            ),
        };
        let (n, b4) = match scale::decode_compact_u32(b3) {
            Some(x) => x,
            None => return Err(
                DecodeError {
                    field: Some(Part::LedgerUnlocking),
                    inner: None,
                    fault: scale::find_compact_u32_fault(b3),
                },
            ),
        };
        match decode_chunks(b4, n) {
            Ok(unlocking) => Ok(StakingLedger { stash, total, active, unlocking }),
            Err((part, fault)) => Err(
                DecodeError { field: Some(Part::LedgerUnlocking), inner: Some(part), fault },
            ),
        }
    }
}

/// The preferences of a validator read back as they were written, whatever stands behind them.
pub proof fn law_validator_prefs_round_trip(v: ValidatorPrefs, rest: Seq<u8>)
    requires
        v.commission <= PERBILL_ONE,
    ensures
        parse_validator_prefs(validator_prefs_bytes(v) + rest) == Some(v),
{
    scale::lemma_pow256();
    let b1 = scale::bool_bytes(v.blocked) + rest;
    assert(validator_prefs_bytes(v) + rest =~= scale::compact_bytes(v.commission as nat) + b1);
    scale::law_compact_round_trip(v.commission as nat, 4, b1);
    scale::law_bool_round_trip(v.blocked, rest);
}

/// Nominations read back as they were written, whatever stands behind them.
pub proof fn law_nominations_round_trip(v: NominationsView, rest: Seq<u8>)
    requires
        v.targets.len() <= u32::MAX,
        forall|i: int| 0 <= i < v.targets.len() ==> (#[trigger] v.targets[i]).len() == 32,
    ensures
        parse_nominations(nominations_bytes(v) + rest) == Some(v),
{
    scale::lemma_pow256();
    let b2 = scale::bool_bytes(v.suppressed) + rest;
    let b1 = scale::le_bytes(v.submitted_in as nat, 4) + b2;
    assert(nominations_bytes(v) + rest =~= scale::account_list_bytes(v.targets) + b1);
    scale::law_account_list_round_trip(v.targets, b1);
    scale::law_number_round_trip(v.submitted_in as nat, 4, b2);
    scale::law_bool_round_trip(v.suppressed, rest);
}

pub(crate) proof fn lemma_chunks_round_trip(v: Seq<UnlockChunk>, rest: Seq<u8>)
    ensures
        parse_chunks(chunks_bytes(v) + rest, v.len()) == Some((v, rest)),
    decreases v.len(),
{
    scale::lemma_pow256();
    if v.len() == 0 {
        assert(chunks_bytes(v) + rest =~= rest);
        assert(v =~= Seq::empty());
    } else {
        let tail = v.skip(1);
        lemma_chunks_round_trip(tail, rest);
        let b2 = chunks_bytes(tail) + rest;
        let b1 = scale::compact_bytes(v[0].era as nat) + b2;
        assert(chunks_bytes(v) + rest =~= scale::compact_bytes(v[0].value as nat) + b1);
        scale::law_compact_round_trip(v[0].value as nat, 16, b1);
        scale::law_compact_round_trip(v[0].era as nat, 4, b2);
        assert(seq![v[0]] + tail =~= v);
    }
}

/// A staking ledger reads back as it was written, whatever stands behind it.
pub proof fn law_ledger_round_trip(v: LedgerView, rest: Seq<u8>)
    requires
        v.stash.len() == 32,
        v.unlocking.len() <= u32::MAX,
    ensures
        parse_ledger(ledger_bytes(v) + rest) == Some(v),
{
    scale::lemma_pow256();
    let b4 = chunks_bytes(v.unlocking) + rest;
    let b3 = scale::compact_bytes(v.unlocking.len()) + b4;
    let b2 = scale::compact_bytes(v.active as nat) + b3;
    let b1 = scale::compact_bytes(v.total as nat) + b2;
    assert(ledger_bytes(v) + rest =~= v.stash + b1);
    scale::law_account_round_trip(v.stash, b1);
    scale::law_compact_round_trip(v.total as nat, 16, b2);
    scale::law_compact_round_trip(v.active as nat, 16, b3);
    scale::law_compact_round_trip(v.unlocking.len(), 4, b4);
    lemma_chunks_round_trip(v.unlocking, rest);
}

} // verus!
