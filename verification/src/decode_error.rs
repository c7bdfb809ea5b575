//! Why stored bytes do not read, in the words of the SCALE codec.

use vstd::prelude::*;

verus! {

/// What is wrong with bytes that do not read.
#[derive(Debug, Clone, Copy, PartialEq, Eq, Structural)]
pub enum Fault {
    /// Fewer bytes are left than the value takes.
    NotEnoughData,
    /// A truth value that is neither `0` nor `1`.
    InvalidBool,
    /// A compact `u32` that is too large or not in its shortest form.
    CompactU32,
    /// A compact `u128` that is not in its shortest form.
    CompactU128,
    /// A compact `u128` that takes more than sixteen bytes.
    CompactU128Prefix,
    /// A list that is longer than its limit.
    TooLong,
    /// A phase of a number that no phase has.
    UnknownPhase,
    /// A first byte of an optional value that is neither `0` nor `1`.
    OptionByte,
    /// An optional value without its first byte.
    ShortOption,
    /// An account of fewer than 32 bytes.
    ShortAccount,
    /// An optional account of fewer than 32 bytes.
    ShortOptionalAccount,
}

/// A field of a stored value.
#[derive(Debug, Clone, Copy, PartialEq, Eq, Structural)]
pub enum Part {
    PhaseIndex,
    PhaseSigned,
    PhaseSignedValidation,
    PhaseUnsigned,
    PhaseSnapshot,
    PhaseExport,
    BagHead,
    BagTail,
    NodeId,
    NodePrev,
    NodeNext,
    PrefsCommission,
    PrefsBlocked,
    NominationsTargets,
    NominationsSubmittedIn,
    NominationsSuppressed,
    LedgerStash,
    LedgerTotal,
    LedgerActive,
    LedgerUnlocking,
    ChunkValue,
    ChunkEra,
    BlockLengthMax,
    ClassNormal,
    ClassOperational,
    ClassMandatory,
}

/// Why stored bytes do not read: the fault, the field that it lies in, and, where that field holds
/// a value with fields of its own, which one of those.
#[derive(Debug, Clone, Copy, PartialEq, Eq, Structural)]
pub struct DecodeError {
    pub field: Option<Part>,
    pub inner: Option<Part>,
    pub fault: Fault,
}

/// A fault of a value without fields.
pub open spec fn bare(fault: Fault) -> DecodeError {
    DecodeError { field: None, inner: None, fault }
}

/// A fault in a field.
pub open spec fn within(field: Part, fault: Fault) -> DecodeError {
    DecodeError { field: Some(field), inner: None, fault }
}

/// A fault in a field of the value that a field holds.
pub open spec fn deep_within(field: Part, inner: Part, fault: Fault) -> DecodeError {
    DecodeError { field: Some(field), inner: Some(inner), fault }
}

impl Fault {
    /// The fault in words, from what was being read down to what went wrong.
    pub open spec fn spec_words(self) -> Seq<Seq<char>> {
        match self {
            Fault::NotEnoughData => seq!["Not enough data to fill buffer"@],
            Fault::InvalidBool => seq!["Invalid boolean representation"@],
            Fault::CompactU32 => seq!["out of range decoding Compact<u32>"@],
            Fault::CompactU128 => seq!["out of range decoding Compact<u128>"@],
            Fault::CompactU128Prefix => seq!["unexpected prefix decoding Compact<u128>"@],
            Fault::TooLong => seq!["BoundedVec exceeds its limit"@],
            Fault::UnknownPhase => seq!["Could not decode `Phase`, variant doesn't exist"@],
            Fault::OptionByte => seq!["unexpected first byte decoding Option"@],
            Fault::ShortOption => seq![
                "Could not decode variant byte for `Option`"@,
                "Not enough data to fill buffer"@,
            ],
            Fault::ShortAccount => seq![
                "Could not decode `AccountId32.0`"@,
                "Not enough data to fill buffer"@,
            ],
            Fault::ShortOptionalAccount => seq![
                "Could not decode `Option::Some(T)`"@,
                "Could not decode `AccountId32.0`"@,
                "Not enough data to fill buffer"@,
            ],
        }
    }

    /// The fault in words, from what was being read down to what went wrong.
    fn words(&self) -> (r: Vec<&'static str>)
        ensures
            views(r@) == self.spec_words(),
    {
        let r: Vec<&'static str> = match *self {
            Fault::NotEnoughData => vec!["Not enough data to fill buffer"],
            Fault::InvalidBool => vec!["Invalid boolean representation"],
            Fault::CompactU32 => vec!["out of range decoding Compact<u32>"],
            Fault::CompactU128 => vec!["out of range decoding Compact<u128>"],
            Fault::CompactU128Prefix => vec!["unexpected prefix decoding Compact<u128>"],
            Fault::TooLong => vec!["BoundedVec exceeds its limit"],
            Fault::UnknownPhase => vec!["Could not decode `Phase`, variant doesn't exist"],
            Fault::OptionByte => vec!["unexpected first byte decoding Option"],
            Fault::ShortOption => vec![
                "Could not decode variant byte for `Option`",
                "Not enough data to fill buffer",
            ],
            Fault::ShortAccount => vec![
                "Could not decode `AccountId32.0`",
                "Not enough data to fill buffer",
            ],
            Fault::ShortOptionalAccount => vec![
                "Could not decode `Option::Some(T)`",
                "Could not decode `AccountId32.0`",
                "Not enough data to fill buffer",
            ],
        };
        assert(views(r@) =~= self.spec_words());
        r
    }
}

/// What each of some words says.
pub open spec fn views(words: Seq<&'static str>) -> Seq<Seq<char>> {
    Seq::new(words.len(), |i: int| words[i]@)
}

impl Part {
    /// The field in words.
    pub open spec fn spec_words(self) -> Seq<char> {
        match self {
            Part::PhaseIndex => "Could not decode `Phase`, failed to read variant byte"@,
            Part::PhaseSigned => "Could not decode `Phase::Signed.0`"@,
            Part::PhaseSignedValidation => "Could not decode `Phase::SignedValidation.0`"@,
            Part::PhaseUnsigned => "Could not decode `Phase::Unsigned.0`"@,
            Part::PhaseSnapshot => "Could not decode `Phase::Snapshot.0`"@,
            Part::PhaseExport => "Could not decode `Phase::Export.0`"@,
            Part::BagHead => "Could not decode `ListBag::head`"@,
            Part::BagTail => "Could not decode `ListBag::tail`"@,
            Part::NodeId => "Could not decode `ListNode::id`"@,
            Part::NodePrev => "Could not decode `ListNode::prev`"@,
            Part::NodeNext => "Could not decode `ListNode::next`"@,
            Part::PrefsCommission => "Could not decode `ValidatorPrefs::commission`"@,
            Part::PrefsBlocked => "Could not decode `ValidatorPrefs::blocked`"@,
            Part::NominationsTargets => "Could not decode `NominationsLight::targets`"@,
            Part::NominationsSubmittedIn => "Could not decode `NominationsLight::_submitted_in`"@,
            Part::NominationsSuppressed => "Could not decode `NominationsLight::suppressed`"@,
            Part::LedgerStash => "Could not decode `StakingLedger::stash`"@,
            Part::LedgerTotal => "Could not decode `StakingLedger::total`"@,
            Part::LedgerActive => "Could not decode `StakingLedger::active`"@,
            Part::LedgerUnlocking => "Could not decode `StakingLedger::unlocking`"@,
            Part::ChunkValue => "Could not decode `UnlockChunk::value`"@,
            Part::ChunkEra => "Could not decode `UnlockChunk::era`"@,
            Part::BlockLengthMax => "Could not decode `BlockLength::max`"@,
            Part::ClassNormal => "Could not decode `PerDispatchClass::normal`"@,
            Part::ClassOperational => "Could not decode `PerDispatchClass::operational`"@,
            Part::ClassMandatory => "Could not decode `PerDispatchClass::mandatory`"@,
        }
    }

    /// The field in words.
    fn words(&self) -> (r: &'static str)
        ensures
            r@ == self.spec_words(),
    {
        match *self {
            Part::PhaseIndex => "Could not decode `Phase`, failed to read variant byte",
            Part::PhaseSigned => "Could not decode `Phase::Signed.0`",
            Part::PhaseSignedValidation => "Could not decode `Phase::SignedValidation.0`",
            Part::PhaseUnsigned => "Could not decode `Phase::Unsigned.0`",
            Part::PhaseSnapshot => "Could not decode `Phase::Snapshot.0`",
            Part::PhaseExport => "Could not decode `Phase::Export.0`",
            Part::BagHead => "Could not decode `ListBag::head`",
            Part::BagTail => "Could not decode `ListBag::tail`",
            Part::NodeId => "Could not decode `ListNode::id`",
            Part::NodePrev => "Could not decode `ListNode::prev`",
            Part::NodeNext => "Could not decode `ListNode::next`",
            Part::PrefsCommission => "Could not decode `ValidatorPrefs::commission`",
            Part::PrefsBlocked => "Could not decode `ValidatorPrefs::blocked`",
            Part::NominationsTargets => "Could not decode `NominationsLight::targets`",
            Part::NominationsSubmittedIn => "Could not decode `NominationsLight::_submitted_in`",
            Part::NominationsSuppressed => "Could not decode `NominationsLight::suppressed`",
            Part::LedgerStash => "Could not decode `StakingLedger::stash`",
            Part::LedgerTotal => "Could not decode `StakingLedger::total`",
            Part::LedgerActive => "Could not decode `StakingLedger::active`",
            Part::LedgerUnlocking => "Could not decode `StakingLedger::unlocking`",
            Part::ChunkValue => "Could not decode `UnlockChunk::value`",
            Part::ChunkEra => "Could not decode `UnlockChunk::era`",
            Part::BlockLengthMax => "Could not decode `BlockLength::max`",
            Part::ClassNormal => "Could not decode `PerDispatchClass::normal`",
            Part::ClassOperational => "Could not decode `PerDispatchClass::operational`",
            Part::ClassMandatory => "Could not decode `PerDispatchClass::mandatory`",
        }
    }
}

/// Tabs, as many as `n`.
pub open spec fn tabs(n: nat) -> Seq<char> {
    Seq::new(n, |i: int| '\t')
}

/// Words one below the other, each a tab further in than the one that it explains. Words that
/// stand alone are left as they are.
pub open spec fn nested(words: Seq<Seq<char>>, indent: nat) -> Seq<char>
    decreases words.len(),
{
    if words.len() == 0 {
        Seq::empty()
    } else if words.len() == 1 {
        tabs(indent) + words[0] + (if indent > 0 {
            "\n"@
        } else {
            Seq::empty()
        })
    } else {
        tabs(indent) + words[0] + ":\n"@ + nested(words.skip(1), indent + 1)
    }
}

/// The words of a field that may be absent.
pub open spec fn part_words(part: Option<Part>) -> Seq<Seq<char>> {
    match part {
        Some(part) => seq![part.spec_words()],
        None => Seq::empty(),
    }
}

fn push_tabs(text: &mut String, n: usize)
    ensures
        final(text)@ == old(text)@ + tabs(n as nat),
{
    let ghost before = text@;
    let mut i: usize = 0;
    assert(text@ =~= before + tabs(0));
    while i < n
        invariant
            i <= n,
            text@ == before + tabs(i as nat),
        decreases n - i,
    {
        text.append("\t");
        proof {
            reveal_strlit("\t");
            assert(text@ =~= before + tabs((i + 1) as nat));
        }
        i = i + 1;
    }
}

impl DecodeError {
    /// The error in words, from the outermost value that was being read down to what went wrong.
    pub open spec fn spec_words(self) -> Seq<Seq<char>> {
        part_words(self.field) + part_words(self.inner) + self.fault.spec_words()
    }

    fn words(&self) -> (r: Vec<&'static str>)
        ensures
            views(r@) == self.spec_words(),
    {
        let mut r: Vec<&'static str> = Vec::new();
        if let Some(part) = self.field {
            r.push(part.words());
        }
        assert(views(r@) =~= part_words(self.field));
        if let Some(part) = self.inner {
            r.push(part.words());
        }
        assert(views(r@) =~= part_words(self.field) + part_words(self.inner));
        let ghost before = r@;
        let mut words = self.fault.words();
        let ghost last = words@;
        r.append(&mut words);
        assert(views(before + last) =~= views(before) + views(last));
        r
    }

    /// The error as the codec puts it.
    pub open spec fn spec_message(self) -> Seq<char> {
        nested(self.spec_words(), 0)
    }

    /// The error as the codec puts it.
    pub fn message(&self) -> (r: String)
        ensures
            r@ == self.spec_message(),
    {
        let words = self.words();
        let ghost all = self.spec_words();
        let n: usize = words.len();
        let mut text = String::new();
        let mut i: usize = 0;
        assert(all.skip(0) =~= all);
        assert(text@ + nested(all, 0) =~= nested(all, 0));
        while i < n
            invariant
                i <= n == words@.len(),
                views(words@) == all,
                text@ + nested(all.skip(i as int), i as nat) == nested(all, 0),
            decreases n - i,
        {
            let ghost before = text@;
            let ghost rest = all.skip(i as int);
            push_tabs(&mut text, i);
            text.append(words[i]);
            assert(rest[0] == words@[i as int]@);
            assert(rest.skip(1) =~= all.skip(i + 1));
            if i + 1 < n {
                text.append(":\n");
                assert(text@ + nested(all.skip(i + 1), (i + 1) as nat) =~= before + nested(
                    rest,
                    i as nat,
                ));
            } else {
                if i > 0 {
                    text.append("\n");
                }
                assert(text@ + nested(all.skip(i + 1), (i + 1) as nat) =~= before + nested(
                    rest,
                    i as nat,
                ));
            }
            i = i + 1;
        }
        assert(text@ + nested(all.skip(n as int), n as nat) =~= text@);
        text
    }
}

} // verus!
