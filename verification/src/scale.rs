//! The SCALE encoding of the values that the chain stores.
//!
//! Every format is given twice: `*_bytes` says what a value is written as, `parse_*` what a
//! byte sequence is read as, together with the bytes that are left over, and `*_fault` what is
//! wrong with one that does not read. The laws at the end say that reading gives back what was
//! written.

use crate::decode_error::Fault;
use crate::primitives::AccountId;
use parity_scale_codec::{Compact, Decode, Encode};
use vstd::prelude::*;

verus! {

/// The number that `b` holds, least significant byte first.
pub open spec fn le(b: Seq<u8>) -> nat
    decreases b.len(),
{
    if b.len() == 0 {
        0
    } else {
        b[0] as nat + 256 * le(b.skip(1))
    }
}

/// The `len` least significant bytes of `n`, least significant byte first.
pub open spec fn le_bytes(n: nat, len: nat) -> Seq<u8>
    decreases len,
{
    if len == 0 {
        Seq::empty()
    } else {
        seq![(n % 256) as u8] + le_bytes(n / 256, (len - 1) as nat)
    }
}

/// `256` to the power of `k`: how many numbers fit in `k` bytes.
pub open spec fn pow256(k: nat) -> nat
    decreases k,
{
    if k == 0 {
        1
    } else {
        256 * pow256((k - 1) as nat)
    }
}

/// Reads a number of a fixed width of `len` bytes.
pub open spec fn parse_number(b: Seq<u8>, len: nat) -> Option<(nat, Seq<u8>)> {
    if b.len() >= len {
        Some((le(b.take(len as int)), b.skip(len as int)))
    } else {
        None
    }
}

/// How many bytes the long form of a compact number takes: as few as hold it, but at least four.
pub open spec fn long_width(n: nat) -> nat
    decreases n,
{
    if n < 0x1_0000_0000 {
        4
    } else {
        1 + long_width(n / 256)
    }
}

/// What a compact number is written as: the two low bits of the first byte tell the form.
pub open spec fn compact_bytes(n: nat) -> Seq<u8> {
    if n < 0x40 {
        seq![(4 * n) as u8]
    } else if n < 0x4000 {
        le_bytes(4 * n + 1, 2)
    } else if n < 0x4000_0000 {
        le_bytes(4 * n + 2, 4)
    } else {
        seq![(4 * (long_width(n) - 4) + 3) as u8] + le_bytes(n, long_width(n))
    }
}

/// Reads a compact number of at most `width` bytes. A number that is not in the shortest form
/// that holds it is rejected.
pub open spec fn parse_compact(b: Seq<u8>, width: nat) -> Option<(nat, Seq<u8>)> {
    if b.len() == 0 {
        None
    } else if b[0] % 4 == 0 {
        Some(((b[0] / 4) as nat, b.skip(1)))
    } else if b[0] % 4 == 1 {
        if b.len() >= 2 && le(b.take(2)) / 4 >= 0x40 {
            Some((le(b.take(2)) / 4, b.skip(2)))
        } else {
            None
        }
    } else if b[0] % 4 == 2 {
        if b.len() >= 4 && le(b.take(4)) / 4 >= 0x4000 {
            Some((le(b.take(4)) / 4, b.skip(4)))
        } else {
            None
        }
    } else {
        let len = (b[0] / 4 + 4) as nat;
        let n = le(b.subrange(1, (1 + len) as int));
        if len <= width && b.len() >= 1 + len && n >= 0x4000_0000 && n >= pow256((len - 1) as nat) {
            Some((n, b.skip((1 + len) as int)))
        } else {
            None
        }
    }
}

/// What a truth value is written as.
pub open spec fn bool_bytes(v: bool) -> Seq<u8> {
    if v {
        seq![1u8]
    } else {
        seq![0u8]
    }
}

/// Reads a truth value.
pub open spec fn parse_bool(b: Seq<u8>) -> Option<(bool, Seq<u8>)> {
    if b.len() >= 1 && b[0] <= 1 {
        Some((b[0] == 1, b.skip(1)))
    } else {
        None
    }
}

/// Reads an account.
pub open spec fn parse_account(b: Seq<u8>) -> Option<(Seq<u8>, Seq<u8>)> {
    if b.len() >= 32 {
        Some((b.take(32), b.skip(32)))
    } else {
        None
    }
}

/// The bytes of an account that may be absent.
pub open spec fn optional_account(a: Option<AccountId>) -> Option<Seq<u8>> {
    match a {
        Some(a) => Some(a@),
        None => None,
    }
}

/// What an account that may be absent is written as.
pub open spec fn optional_account_bytes(a: Option<Seq<u8>>) -> Seq<u8> {
    match a {
        Some(a) => seq![1u8] + a,
        None => seq![0u8],
    }
}

/// Reads an account that may be absent.
pub open spec fn parse_optional_account(b: Seq<u8>) -> Option<(Option<Seq<u8>>, Seq<u8>)> {
    if b.len() >= 1 && b[0] == 0 {
        Some((None, b.skip(1)))
    } else if b.len() >= 33 && b[0] == 1 {
        Some((Some(b.subrange(1, 33)), b.skip(33)))
    } else {
        None
    }
}

/// The bytes of each account of a list.
pub open spec fn accounts(v: Seq<AccountId>) -> Seq<Seq<u8>> {
    Seq::new(v.len(), |i: int| v[i]@)
}

/// The accounts of a list, one after the other.
pub open spec fn joined(v: Seq<Seq<u8>>) -> Seq<u8>
    decreases v.len(),
{
    if v.len() == 0 {
        Seq::empty()
    } else {
        v[0] + joined(v.skip(1))
    }
}

/// What a list of accounts is written as: its length, then the accounts.
pub open spec fn account_list_bytes(v: Seq<Seq<u8>>) -> Seq<u8> {
    compact_bytes(v.len()) + joined(v)
}

/// Reads a list of accounts.
pub open spec fn parse_account_list(b: Seq<u8>) -> Option<(Seq<Seq<u8>>, Seq<u8>)> {
    match parse_compact(b, 4) {
        None => None,
        Some((n, rest)) => if rest.len() >= 32 * n {
            Some(
                (
                    Seq::new(n, |i: int| rest.subrange(32 * i, 32 * i + 32)),
                    rest.skip(32 * n as int),
                ),
            )
        } else {
            None
        },
    }
}

/// `u32::decode` of `parity_scale_codec` on a byte slice: takes four bytes, least significant
/// first, and fails only where fewer are left.
#[verifier::external_body]
pub(crate) fn decode_u32(bytes: &[u8]) -> (r: Option<(u32, &[u8])>)
    ensures
        match r {
            Some((v, rest)) => parse_number(bytes@, 4) == Some((v as nat, rest@)),
            None => parse_number(bytes@, 4) is None,
        },
{
    let mut input = bytes;
    match u32::decode(&mut input) {
        Ok(v) => Some((v, input)),
        Err(_) => None,
    }
}

/// `u64::decode` of `parity_scale_codec` on a byte slice: takes eight bytes, least significant
/// first, and fails only where fewer are left.
#[verifier::external_body]
pub(crate) fn decode_u64(bytes: &[u8]) -> (r: Option<(u64, &[u8])>)
    ensures
        match r {
            Some((v, rest)) => parse_number(bytes@, 8) == Some((v as nat, rest@)),
            None => parse_number(bytes@, 8) is None,
        },
{
    let mut input = bytes;
    match u64::decode(&mut input) {
        Ok(v) => Some((v, input)),
        Err(_) => None,
    }
}

/// `u128::decode` of `parity_scale_codec` on a byte slice: takes sixteen bytes, least significant
/// first, and fails only where fewer are left.
#[verifier::external_body]
pub(crate) fn decode_u128(bytes: &[u8]) -> (r: Option<(u128, &[u8])>)
    ensures
        match r {
            Some((v, rest)) => parse_number(bytes@, 16) == Some((v as nat, rest@)),
            None => parse_number(bytes@, 16) is None,
        },
{
    let mut input = bytes;
    match u128::decode(&mut input) {
        Ok(v) => Some((v, input)),
        Err(_) => None,
    }
}

/// `bool::decode` of `parity_scale_codec` on a byte slice: takes one byte, which is `0` or `1`,
/// and fails on any other and on no byte.
#[verifier::external_body]
pub(crate) fn decode_bool(bytes: &[u8]) -> (r: Option<(bool, &[u8])>)
    ensures
        match r {
            Some((v, rest)) => parse_bool(bytes@) == Some((v, rest@)),
            None => parse_bool(bytes@) is None,
        },
{
    let mut input = bytes;
    match bool::decode(&mut input) {
        Ok(v) => Some((v, input)),
        Err(_) => None,
    }
}

/// `<[u8; 32]>::decode` of `parity_scale_codec` on a byte slice: takes 32 bytes as they are, and
/// fails only where fewer are left.
#[verifier::external_body]
pub(crate) fn decode_account(bytes: &[u8]) -> (r: Option<(AccountId, &[u8])>)
    ensures
        match r {
            Some((v, rest)) => parse_account(bytes@) == Some((v@, rest@)),
            None => parse_account(bytes@) is None,
        },
{
    let mut input = bytes;
    match <[u8; 32]>::decode(&mut input) {
        Ok(v) => Some((v, input)),
        Err(_) => None,
    }
}

/// `Option::<[u8; 32]>::decode` of `parity_scale_codec` on a byte slice: takes one byte, which
/// is `0` for `None` and `1` for `Some`, and for `Some` the 32 bytes behind it; fails on any
/// other first byte and where bytes are missing.
#[verifier::external_body]
pub(crate) fn decode_optional_account(bytes: &[u8]) -> (r: Option<(Option<AccountId>, &[u8])>)
    ensures
        match r {
            Some((v, rest)) => parse_optional_account(bytes@) == Some((optional_account(v), rest@)),
            None => parse_optional_account(bytes@) is None,
        },
{
    let mut input = bytes;
    match Option::<[u8; 32]>::decode(&mut input) {
        Ok(v) => Some((v, input)),
        Err(_) => None,
    }
}

/// `Vec::<[u8; 32]>::decode` of `parity_scale_codec` on a byte slice: takes the length as a
/// compact `u32`, then 32 bytes for each item; fails where the length does not read or bytes are
/// missing.
#[verifier::external_body]
pub(crate) fn decode_account_list(bytes: &[u8]) -> (r: Option<(Vec<AccountId>, &[u8])>)
    ensures
        match r {
            Some((v, rest)) => parse_account_list(bytes@) == Some((accounts(v@), rest@)),
            None => parse_account_list(bytes@) is None,
        },
{
    let mut input = bytes;
    match Vec::<[u8; 32]>::decode(&mut input) {
        Ok(v) => Some((v, input)),
        Err(_) => None,
    }
}

/// `Compact::<u32>::decode` of `parity_scale_codec` on a byte slice: takes a compact number of
/// at most four bytes; fails where bytes are missing and where a shorter form would do.
#[verifier::external_body]
pub(crate) fn decode_compact_u32(bytes: &[u8]) -> (r: Option<(u32, &[u8])>)
    ensures
        match r {
            Some((v, rest)) => parse_compact(bytes@, 4) == Some((v as nat, rest@)),
            None => parse_compact(bytes@, 4) is None,
        },
{
    let mut input = bytes;
    match Compact::<u32>::decode(&mut input) {
        Ok(v) => Some((v.0, input)),
        Err(_) => None,
    }
}

/// `Compact::<u128>::decode` of `parity_scale_codec` on a byte slice: takes a compact number of
/// at most sixteen bytes; fails where bytes are missing and where a shorter form would do.
#[verifier::external_body]
pub(crate) fn decode_compact_u128(bytes: &[u8]) -> (r: Option<(u128, &[u8])>)
    ensures
        match r {
            Some((v, rest)) => parse_compact(bytes@, 16) == Some((v as nat, rest@)),
            None => parse_compact(bytes@, 16) is None,
        },
{
    let mut input = bytes;
    match Compact::<u128>::decode(&mut input) {
        Ok(v) => Some((v.0, input)),
        Err(_) => None,
    }
}

/// `u32::encode` of `parity_scale_codec`: four bytes, least significant first.
#[verifier::external_body]
pub(crate) fn encode_u32(v: u32) -> (r: Vec<u8>)
    ensures
        r@ == le_bytes(v as nat, 4),
{
    v.encode()
}

/// `<[u8; 32]>::encode` of `parity_scale_codec`: the 32 bytes as they are.
#[verifier::external_body]
pub(crate) fn encode_account(v: &AccountId) -> (r: Vec<u8>)
    ensures
        r@ == v@,
{
    v.encode()
}

/// `Option::<[u8; 32]>::encode` of `parity_scale_codec`: the byte `0` for `None`, the byte `1`
/// and the 32 bytes for `Some`.
#[verifier::external_body]
pub(crate) fn encode_optional_account(v: &Option<AccountId>) -> (r: Vec<u8>)
    ensures
        r@ == optional_account_bytes(optional_account(*v)),
{
    v.encode()
}

/// What is wrong with bytes that are no truth value.
pub open spec fn bool_fault(b: Seq<u8>) -> Fault {
    if b.len() == 0 {
        Fault::NotEnoughData
    } else {
        Fault::InvalidBool
    }
}

/// What is wrong with bytes that are no compact number of at most `width` bytes. Too long a form
/// is noticed before bytes are missed.
pub open spec fn compact_fault(b: Seq<u8>, width: nat) -> Fault {
    let out_of_range = if width == 4 {
        Fault::CompactU32
    } else {
        Fault::CompactU128
    };
    let len = (b[0] / 4 + 4) as nat;
    if b.len() == 0 {
        Fault::NotEnoughData
    } else if b[0] % 4 == 3 && len > width {
        if width == 4 {
            Fault::CompactU32
        } else {
            Fault::CompactU128Prefix
        }
    } else if (b[0] % 4 == 1 && b.len() < 2) || (b[0] % 4 == 2 && b.len() < 4) || (b[0] % 4 == 3
        && b.len() < 1 + len) {
        Fault::NotEnoughData
    } else {
        out_of_range
    }
}

/// What is wrong with bytes that are no account that may be absent.
pub open spec fn optional_account_fault(b: Seq<u8>) -> Fault {
    if b.len() == 0 {
        Fault::ShortOption
    } else if b[0] == 1 {
        Fault::ShortOptionalAccount
    } else {
        Fault::OptionByte
    }
}

/// What is wrong with bytes that are no list of accounts.
pub open spec fn account_list_fault(b: Seq<u8>) -> Fault {
    if parse_compact(b, 4) is None {
        compact_fault(b, 4)
    } else {
        Fault::ShortAccount
    }
}

/// What is wrong with bytes that are no truth value.
pub(crate) fn find_bool_fault(bytes: &[u8]) -> (r: Fault)
    ensures
        r == bool_fault(bytes@),
{
    if bytes.len() == 0 {
        Fault::NotEnoughData
    } else {
        Fault::InvalidBool
    }
}

fn find_compact_fault(bytes: &[u8], wide: bool) -> (r: Fault)
    ensures
        r == compact_fault(
            bytes@,
            if wide {
                16
            } else {
                4
            },
        ),
{
    if bytes.len() == 0 {
        return Fault::NotEnoughData;
    }
    let form: u8 = bytes[0] % 4;
    let len: u8 = bytes[0] / 4 + 4;
    if form == 3 && !wide && len > 4 {
        return Fault::CompactU32;
    }
    if form == 3 && wide && len > 16 {
        return Fault::CompactU128Prefix;
    }
    if (form == 1 && bytes.len() < 2) || (form == 2 && bytes.len() < 4) || (form == 3
        && bytes.len() < 1 + len as usize) {
        return Fault::NotEnoughData;
    }
    if wide {
        Fault::CompactU128
    } else {
        Fault::CompactU32
    }
}

/// What is wrong with bytes that are no compact `u32`.
pub(crate) fn find_compact_u32_fault(bytes: &[u8]) -> (r: Fault)
    ensures
        r == compact_fault(bytes@, 4),
{
    find_compact_fault(bytes, false)
}

/// What is wrong with bytes that are no compact `u128`.
pub(crate) fn find_compact_u128_fault(bytes: &[u8]) -> (r: Fault)
    ensures
        r == compact_fault(bytes@, 16),
{
    find_compact_fault(bytes, true)
}

/// What is wrong with bytes that are no account that may be absent.
pub(crate) fn find_optional_account_fault(bytes: &[u8]) -> (r: Fault)
    ensures
        r == optional_account_fault(bytes@),
{
    if bytes.len() == 0 {
        Fault::ShortOption
    } else if bytes[0] == 1 {
        Fault::ShortOptionalAccount
    } else {
        Fault::OptionByte
    }
}

/// What is wrong with bytes that are no list of accounts.
pub(crate) fn find_account_list_fault(bytes: &[u8]) -> (r: Fault)
    ensures
        r == account_list_fault(bytes@),
{
    match decode_compact_u32(bytes) {
        None => find_compact_u32_fault(bytes),
        Some(_) => Fault::ShortAccount,
    }
}

/// How many numbers fit in two, four, eight and sixteen bytes.
pub(crate) proof fn lemma_pow256()
    ensures
        pow256(2) == 0x1_0000,
        pow256(4) == 0x1_0000_0000,
        pow256(8) == 0x1_0000_0000_0000_0000,
        pow256(16) == u128::MAX + 1,
{
    reveal_with_fuel(pow256, 17);
}

pub(crate) proof fn lemma_le_bytes_len(n: nat, len: nat)
    ensures
        le_bytes(n, len).len() == len,
    decreases len,
{
    if len > 0 {
        lemma_le_bytes_len(n / 256, (len - 1) as nat);
    }
}

/// A number that fits its width is read back from the bytes that it was written as.
pub(crate) proof fn lemma_le_of_le_bytes(n: nat, len: nat)
    requires
        n < pow256(len),
    ensures
        le(le_bytes(n, len)) == n,
    decreases len,
{
    if len > 0 {
        let tail = le_bytes(n / 256, (len - 1) as nat);
        lemma_le_of_le_bytes(n / 256, (len - 1) as nat);
        assert(le_bytes(n, len).skip(1) =~= tail);
    }
}

/// Bytes are what the number that they hold is written as.
pub(crate) proof fn lemma_le_bytes_of_le(b: Seq<u8>)
    ensures
        le_bytes(le(b), b.len()) == b,
        le(b) < pow256(b.len()),
    decreases b.len(),
{
    if b.len() > 0 {
        lemma_le_bytes_of_le(b.skip(1));
        assert(seq![b[0]] + b.skip(1) =~= b);
    }
}

/// The long form is as short as the number allows.
pub(crate) proof fn lemma_long_width(n: nat, width: nat)
    requires
        n < pow256(width),
        width >= 4,
    ensures
        4 <= long_width(n) <= width,
        n < pow256(long_width(n)),
        long_width(n) > 4 ==> n >= pow256((long_width(n) - 1) as nat),
    decreases n,
{
    lemma_pow256();
    if n >= 0x1_0000_0000 {
        assert(width > 4);
        assert(n / 256 < pow256((width - 1) as nat));
        lemma_long_width(n / 256, (width - 1) as nat);
        let w = long_width(n / 256);
        assert(pow256((w + 1) as nat) == 256 * pow256(w));
        if w == 4 {
            assert(long_width(n) == 5);
            assert(pow256(4) <= n);
        } else {
            assert(pow256(w) == 256 * pow256((w - 1) as nat));
        }
    }
}

/// A number of a fixed width reads back as it was written.
pub proof fn law_number_round_trip(n: nat, len: nat, rest: Seq<u8>)
    requires
        n < pow256(len),
    ensures
        parse_number(le_bytes(n, len) + rest, len) == Some((n, rest)),
{
    lemma_le_bytes_len(n, len);
    lemma_le_of_le_bytes(n, len);
    let b = le_bytes(n, len) + rest;
    assert(b.take(len as int) =~= le_bytes(n, len));
    assert(b.skip(len as int) =~= rest);
}

/// A compact number reads back as it was written.
pub proof fn law_compact_round_trip(n: nat, width: nat, rest: Seq<u8>)
    requires
        4 <= width <= 16,
        n < pow256(width),
    ensures
        parse_compact(compact_bytes(n) + rest, width) == Some((n, rest)),
{
    let b = compact_bytes(n) + rest;
    lemma_pow256();
    reveal_with_fuel(le_bytes, 2);
    if n < 0x40 {
        assert(b.skip(1) =~= rest);
    } else if n < 0x4000 {
        law_number_round_trip(4 * n + 1, 2, rest);
        lemma_le_bytes_len(4 * n + 1, 2);
        assert(b[0] == ((4 * n + 1) % 256) as u8);
    } else if n < 0x4000_0000 {
        law_number_round_trip(4 * n + 2, 4, rest);
        lemma_le_bytes_len(4 * n + 2, 4);
        assert(b[0] == ((4 * n + 2) % 256) as u8);
    } else {
        let w = long_width(n);
        lemma_long_width(n, width);
        lemma_le_bytes_len(n, w);
        lemma_le_of_le_bytes(n, w);
        assert(b[0] == (4 * (w - 4) + 3) as u8);
        assert(b.subrange(1, (1 + w) as int) =~= le_bytes(n, w));
        assert(b.skip((1 + w) as int) =~= rest);
    }
}

/// A truth value reads back as it was written.
pub proof fn law_bool_round_trip(v: bool, rest: Seq<u8>)
    ensures
        parse_bool(bool_bytes(v) + rest) == Some((v, rest)),
{
    assert((bool_bytes(v) + rest).skip(1) =~= rest);
}

/// An account reads back as it was written.
pub proof fn law_account_round_trip(a: Seq<u8>, rest: Seq<u8>)
    requires
        a.len() == 32,
    ensures
        parse_account(a + rest) == Some((a, rest)),
{
    assert((a + rest).take(32) =~= a);
    assert((a + rest).skip(32) =~= rest);
}

/// An account that may be absent reads back as it was written.
pub proof fn law_optional_account_round_trip(a: Option<Seq<u8>>, rest: Seq<u8>)
    requires
        a matches Some(s) ==> s.len() == 32,
    ensures
        parse_optional_account(optional_account_bytes(a) + rest) == Some((a, rest)),
{
    let b = optional_account_bytes(a) + rest;
    match a {
        None => {
            assert(b.skip(1) =~= rest);
        },
        Some(s) => {
            assert(b.subrange(1, 33) =~= s);
            assert(b.skip(33) =~= rest);
        },
    }
}

pub(crate) proof fn lemma_joined(v: Seq<Seq<u8>>)
    requires
        forall|i: int| 0 <= i < v.len() ==> (#[trigger] v[i]).len() == 32,
    ensures
        joined(v).len() == 32 * v.len(),
        forall|i: int|
            0 <= i < v.len() ==> joined(v).subrange(32 * i, 32 * i + 32) == #[trigger] v[i],
    decreases v.len(),
{
    if v.len() > 0 {
        let tail = v.skip(1);
        lemma_joined(tail);
        assert forall|i: int| 0 <= i < v.len() implies joined(v).subrange(32 * i, 32 * i + 32)
            == #[trigger] v[i] by {
            if i > 0 {
                assert(tail[i - 1] == v[i]);
                assert(joined(v).subrange(32 * i, 32 * i + 32) =~= joined(tail).subrange(
                    32 * (i - 1),
                    32 * (i - 1) + 32,
                ));
            } else {
                assert(joined(v).subrange(0, 32) =~= v[0]);
            }
        }
    }
}

/// A list of accounts reads back as it was written.
pub proof fn law_account_list_round_trip(v: Seq<Seq<u8>>, rest: Seq<u8>)
    requires
        v.len() <= u32::MAX,
        forall|i: int| 0 <= i < v.len() ==> (#[trigger] v[i]).len() == 32,
    ensures
        parse_account_list(account_list_bytes(v) + rest) == Some((v, rest)),
{
    lemma_pow256();
    let tail = joined(v) + rest;
    assert(account_list_bytes(v) + rest =~= compact_bytes(v.len()) + tail);
    law_compact_round_trip(v.len(), 4, tail);
    lemma_joined(v);
    let read = Seq::new(v.len(), |i: int| tail.subrange(32 * i, 32 * i + 32));
    assert forall|i: int| 0 <= i < v.len() implies #[trigger] read[i] == v[i] by {
        assert(read[i] =~= joined(v).subrange(32 * i, 32 * i + 32));
    }
    assert(read =~= v);
    assert(tail.skip(32 * v.len() as int) =~= rest);
}

} // verus!
