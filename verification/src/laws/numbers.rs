//! How numbers, truth values, accounts and lists of accounts are laid out.

use crate::decode_error::Fault;
use crate::multi_block_state_client;
use crate::primitives::AccountId;
use crate::scale;
use vstd::arithmetic::power;
use vstd::prelude::*;

verus! {

/// Bytes count from the least significant on: one byte is its own number, and what stands behind
/// `k` bytes counts `256` to the power of `k` times as much.
pub proof fn law_bytes_are_positional(x: u8, b: Seq<u8>, c: Seq<u8>)
    ensures
        scale::le(Seq::empty()) == 0,
        scale::le(seq![x]) == x,
        scale::le(b + c) == scale::le(b) + power::pow(256, b.len()) * scale::le(c),
    decreases b.len(),
{
    reveal(power::pow);
    reveal_with_fuel(scale::le, 2);
    if b.len() == 0 {
        assert(b + c =~= c);
    } else {
        law_bytes_are_positional(x, b.skip(1), c);
        assert((b + c).skip(1) =~= b.skip(1) + c);
        let p = power::pow(256, b.skip(1).len());
        let n = scale::le(c) as int;
        assert(power::pow(256, b.len()) == 256 * p);
        assert(256 * (p * n) == (256 * p) * n) by (nonlinear_arith);
    }
}

/// How many numbers fit in some bytes.
pub proof fn law_powers(k: nat)
    ensures
        scale::pow256(k) == power::pow(256, k),
    decreases k,
{
    reveal(power::pow);
    if k > 0 {
        law_powers((k - 1) as nat);
    }
}

/// A number that fits is written as that many bytes, which count as the number.
pub proof fn law_numbers_are_written_in_place(n: nat, len: nat)
    requires
        n < power::pow(256, len),
    ensures
        scale::le_bytes(n, len).len() == len,
        scale::le(scale::le_bytes(n, len)) == n,
{
    law_powers(len);
    scale::lemma_le_bytes_len(n, len);
    scale::lemma_le_of_le_bytes(n, len);
}

/// A number of a fixed width takes just that many bytes, whatever they are, and counts as they do.
/// With fewer there is none.
pub proof fn law_numbers_are_read_in_place(b: Seq<u8>, rest: Seq<u8>, len: nat)
    ensures
        scale::parse_number(b + rest, b.len()) == Some((scale::le(b), rest)),
        b.len() < len ==> scale::parse_number(b, len) is None,
{
    assert((b + rest).take(b.len() as int) =~= b);
    assert((b + rest).skip(b.len() as int) =~= rest);
}

/// A `u32` is four bytes, least significant first, whatever stands behind them.
pub proof fn law_u32_is_four_bytes(b0: u8, b1: u8, b2: u8, b3: u8, rest: Seq<u8>)
    ensures
        multi_block_state_client::parse_u32(seq![b0, b1, b2, b3] + rest) == Some(
            (b0 + 0x100 * b1 + 0x1_0000 * b2 + 0x100_0000 * b3) as u32,
        ),
{
    let b = seq![b0, b1, b2, b3];
    law_numbers_are_read_in_place(b, rest, 4);
    reveal_with_fuel(scale::le, 5);
    assert(b.skip(1) =~= seq![b1, b2, b3]);
    assert(b.skip(1).skip(1) =~= seq![b2, b3]);
    assert(b.skip(1).skip(1).skip(1) =~= seq![b3]);
}

/// A `u128` is sixteen bytes, least significant first, whatever stands behind them.
pub proof fn law_u128_is_sixteen_bytes(b: Seq<u8>, rest: Seq<u8>)
    requires
        b.len() == 16,
    ensures
        multi_block_state_client::parse_u128(b + rest) == Some(scale::le(b) as u128),
        scale::le(b) <= u128::MAX,
{
    law_numbers_are_read_in_place(b, rest, 16);
    scale::lemma_pow256();
    scale::lemma_le_bytes_of_le(b);
}

/// With fewer bytes than it takes there is no number.
pub proof fn law_short_numbers_do_not_read(b: Seq<u8>)
    ensures
        multi_block_state_client::parse_u32(b) is None <==> b.len() < 4,
        multi_block_state_client::parse_u128(b) is None <==> b.len() < 16,
        multi_block_state_client::number_error().fault == Fault::NotEnoughData,
        multi_block_state_client::number_error().field is None,
        multi_block_state_client::number_error().inner is None,
{
}

/// A compact number takes one byte below 64, two below 2 to the power of 14, four below 2 to the
/// power of 30, and else one byte with the count and then as few as hold it, but at least four.
/// The two low bits of the first byte tell which.
pub proof fn law_compact_layout(n: nat)
    requires
        n < power::pow(256, 16),
    ensures
        n < 64 ==> scale::compact_bytes(n) == seq![(4 * n) as u8],
        64 <= n < 16_384 ==> scale::compact_bytes(n).len() == 2 && scale::le(
            scale::compact_bytes(n),
        ) == 4 * n + 1,
        16_384 <= n < 1_073_741_824 ==> scale::compact_bytes(n).len() == 4 && scale::le(
            scale::compact_bytes(n),
        ) == 4 * n + 2,
        n >= 1_073_741_824 ==> {
            let b = scale::compact_bytes(n);
            &&& 5 <= b.len() <= 17
            &&& b[0] == 4 * (b.len() - 5) + 3
            &&& scale::le(b.skip(1)) == n
            &&& b.len() > 5 ==> n >= power::pow(256, (b.len() - 2) as nat)
        },
{
    scale::lemma_pow256();
    law_powers(2);
    law_powers(4);
    law_powers(16);
    if 64 <= n < 16_384 {
        law_numbers_are_written_in_place(4 * n + 1, 2);
    } else if 16_384 <= n < 1_073_741_824 {
        law_numbers_are_written_in_place(4 * n + 2, 4);
    } else if n >= 1_073_741_824 {
        let w = scale::long_width(n);
        scale::lemma_long_width(n, 16);
        scale::lemma_le_bytes_len(n, w);
        scale::lemma_le_of_le_bytes(n, w);
        assert(scale::compact_bytes(n).skip(1) =~= scale::le_bytes(n, w));
        if w > 4 {
            law_powers((w - 1) as nat);
        }
    }
}

proof fn lemma_pow256_grows(a: nat, b: nat)
    requires
        a <= b,
    ensures
        scale::pow256(a) <= scale::pow256(b),
    decreases b,
{
    if a < b {
        lemma_pow256_grows(a, (b - 1) as nat);
    }
}

/// A compact number is read only from bytes that begin as it is written, and only where it fits.
pub proof fn law_compact_canonical(b: Seq<u8>, width: nat)
    requires
        4 <= width <= 16,
    ensures
        scale::parse_compact(b, width) matches Some((n, rest)) ==> b == scale::compact_bytes(n)
            + rest && n < power::pow(256, width),
{
    if let Some((n, rest)) = scale::parse_compact(b, width) {
        law_powers(width);
        scale::lemma_pow256();
        lemma_pow256_grows(4, width);
        if b[0] % 4 == 0 {
            assert(b =~= scale::compact_bytes(n) + rest);
        } else if b[0] % 4 == 1 {
            let head = b.take(2);
            scale::lemma_le_bytes_of_le(head);
            reveal_with_fuel(scale::le, 2);
            assert(head[0] == b[0]);
            assert(scale::le(head) == b[0] + 256 * scale::le(head.skip(1)));
            assert(scale::le(head) == 4 * n + 1);
            assert(b =~= head + rest);
        } else if b[0] % 4 == 2 {
            let head = b.take(4);
            scale::lemma_le_bytes_of_le(head);
            reveal_with_fuel(scale::le, 2);
            assert(head[0] == b[0]);
            assert(scale::le(head) == b[0] + 256 * scale::le(head.skip(1)));
            assert(scale::le(head) == 4 * n + 2);
            assert(b =~= head + rest);
        } else {
            let len = (b[0] / 4 + 4) as nat;
            let digits = b.subrange(1, (1 + len) as int);
            scale::lemma_le_bytes_of_le(digits);
            scale::lemma_long_width(n, len);
            let w = scale::long_width(n);
            if w < len {
                lemma_pow256_grows(w, (len - 1) as nat);
            }
            lemma_pow256_grows(len, width);
            assert(b =~= scale::compact_bytes(n) + rest);
        }
    }
}

/// A compact number that fits reads back from the bytes that it is written as.
pub proof fn law_compact_reads(n: nat, width: nat, rest: Seq<u8>)
    requires
        4 <= width <= 16,
        n < power::pow(256, width),
    ensures
        scale::parse_compact(scale::compact_bytes(n) + rest, width) == Some((n, rest)),
{
    law_powers(width);
    scale::law_compact_round_trip(n, width, rest);
}

/// Why bytes are no compact number: there are none, its form is too long for its type, fewer are
/// left than its form takes, or a shorter form would do.
pub proof fn law_compact_faults(x: u8, tail: Seq<u8>)
    ensures
        scale::compact_fault(Seq::empty(), 4) == Fault::NotEnoughData,
        scale::compact_fault(Seq::empty(), 16) == Fault::NotEnoughData,
        x % 4 == 3 && x > 3 ==> scale::compact_fault(seq![x] + tail, 4) == Fault::CompactU32,
        x % 4 == 3 && x > 51 ==> scale::compact_fault(seq![x] + tail, 16)
            == Fault::CompactU128Prefix,
        x % 4 == 1 && tail.len() == 0 ==> {
            &&& scale::compact_fault(seq![x] + tail, 4) == Fault::NotEnoughData
            &&& scale::compact_fault(seq![x] + tail, 16) == Fault::NotEnoughData
        },
        x % 4 == 2 && tail.len() < 3 ==> {
            &&& scale::compact_fault(seq![x] + tail, 4) == Fault::NotEnoughData
            &&& scale::compact_fault(seq![x] + tail, 16) == Fault::NotEnoughData
        },
        x == 3 && tail.len() < 4 ==> scale::compact_fault(seq![x] + tail, 4)
            == Fault::NotEnoughData,
        x % 4 == 3 && x <= 51 && tail.len() < x / 4 + 4 ==> scale::compact_fault(
            seq![x] + tail,
            16,
        ) == Fault::NotEnoughData,
        (x % 4 == 1 && tail.len() >= 1) || (x % 4 == 2 && tail.len() >= 3) || (x == 3
            && tail.len() >= 4) ==> scale::compact_fault(seq![x] + tail, 4) == Fault::CompactU32,
        (x % 4 == 1 && tail.len() >= 1) || (x % 4 == 2 && tail.len() >= 3) || (x % 4 == 3 && x <= 51
            && tail.len() >= x / 4 + 4) ==> scale::compact_fault(seq![x] + tail, 16)
            == Fault::CompactU128,
{
    assert((seq![x] + tail)[0] == x);
    assert((seq![x] + tail).len() == 1 + tail.len());
}

/// A truth value is the byte `0` or the byte `1`, and no other byte is one.
pub proof fn law_bool_is_zero_or_one(x: u8, rest: Seq<u8>)
    ensures
        scale::parse_bool(seq![0u8] + rest) == Some((false, rest)),
        scale::parse_bool(seq![1u8] + rest) == Some((true, rest)),
        x > 1 ==> scale::parse_bool(seq![x] + rest) is None && scale::bool_fault(seq![x] + rest)
            == Fault::InvalidBool,
        scale::parse_bool(Seq::empty()) is None,
        scale::bool_fault(Seq::empty()) == Fault::NotEnoughData,
        scale::bool_bytes(false) == seq![0u8],
        scale::bool_bytes(true) == seq![1u8],
{
    assert((seq![0u8] + rest).skip(1) =~= rest);
    assert((seq![1u8] + rest).skip(1) =~= rest);
    assert((seq![x] + rest)[0] == x);
}

/// An account is 32 bytes as they are; with fewer there is none.
pub proof fn law_account_is_its_bytes(a: Seq<u8>, rest: Seq<u8>)
    ensures
        a.len() == 32 ==> scale::parse_account(a + rest) == Some((a, rest)),
        a.len() < 32 ==> scale::parse_account(a) is None,
{
    if a.len() == 32 {
        scale::law_account_round_trip(a, rest);
    }
}

/// An account that may be absent is the byte `0`, or the byte `1` and the account. Any other first
/// byte, and a cut-off account, is an error.
pub proof fn law_optional_account_layout(x: u8, a: Seq<u8>, rest: Seq<u8>)
    ensures
        scale::parse_optional_account(seq![0u8] + rest) == Some((None::<Seq<u8>>, rest)),
        a.len() == 32 ==> scale::parse_optional_account(seq![1u8] + a + rest) == Some(
            (Some(a), rest),
        ),
        scale::optional_account_bytes(None) == seq![0u8],
        scale::optional_account_bytes(Some(a)) == seq![1u8] + a,
        x > 1 ==> scale::parse_optional_account(seq![x] + rest) is None
            && scale::optional_account_fault(seq![x] + rest) == Fault::OptionByte,
        a.len() < 32 ==> scale::parse_optional_account(seq![1u8] + a) is None
            && scale::optional_account_fault(seq![1u8] + a) == Fault::ShortOptionalAccount,
        scale::parse_optional_account(Seq::empty()) is None,
        scale::optional_account_fault(Seq::empty()) == Fault::ShortOption,
{
    scale::law_optional_account_round_trip(None, rest);
    if a.len() == 32 {
        scale::law_optional_account_round_trip(Some(a), rest);
    }
    assert((seq![x] + rest)[0] == x);
    assert((seq![1u8] + a)[0] == 1);
}

/// What reads as an account that may be absent is laid out as one.
pub proof fn law_optional_account_canonical(b: Seq<u8>)
    ensures
        scale::parse_optional_account(b) matches Some((a, rest)) ==> match a {
            None => b == seq![0u8] + rest,
            Some(a) => a.len() == 32 && b == seq![1u8] + a + rest,
        },
{
    if let Some((a, rest)) = scale::parse_optional_account(b) {
        match a {
            None => {
                assert(b =~= seq![0u8] + rest);
            },
            Some(a) => {
                assert(b =~= seq![1u8] + a + rest);
            },
        }
    }
}

pub(crate) proof fn lemma_joined_is_flatten(v: Seq<Seq<u8>>)
    ensures
        scale::joined(v) == v.flatten(),
    decreases v.len(),
{
    if v.len() > 0 {
        lemma_joined_is_flatten(v.skip(1));
        assert(v.skip(1) =~= v.drop_first());
    }
}

/// A list of accounts is their number in the compact form, then the accounts one after the other.
pub proof fn law_account_list_layout(v: Seq<Seq<u8>>, rest: Seq<u8>)
    requires
        v.len() <= u32::MAX,
        forall|i: int| 0 <= i < v.len() ==> (#[trigger] v[i]).len() == 32,
    ensures
        scale::parse_account_list(scale::compact_bytes(v.len()) + v.flatten() + rest) == Some(
            (v, rest),
        ),
        scale::account_list_bytes(v) == scale::compact_bytes(v.len()) + v.flatten(),
{
    lemma_joined_is_flatten(v);
    scale::law_account_list_round_trip(v, rest);
}

proof fn lemma_slices_flatten(b: Seq<u8>, n: nat)
    requires
        b.len() >= 32 * n,
    ensures
        Seq::new(n, |i: int| b.subrange(32 * i, 32 * i + 32)).flatten() == b.take(32 * n as int),
    decreases n,
{
    let v = Seq::new(n, |i: int| b.subrange(32 * i, 32 * i + 32));
    if n == 0 {
        assert(v.flatten() =~= b.take(0));
    } else {
        let c = b.skip(32);
        lemma_slices_flatten(c, (n - 1) as nat);
        let w = Seq::new((n - 1) as nat, |i: int| c.subrange(32 * i, 32 * i + 32));
        assert forall|i: int| 0 <= i < n - 1 implies v.drop_first()[i] == w[i] by {
            assert(v.drop_first()[i] =~= w[i]);
        }
        assert(v.drop_first() =~= w);
        assert(v.first() =~= b.subrange(0, 32));
        assert(b.subrange(0, 32) + c.take(32 * (n - 1) as int) =~= b.take(32 * n as int));
    }
}

/// What reads as a list of accounts is laid out as one.
pub proof fn law_account_list_canonical(b: Seq<u8>)
    ensures
        scale::parse_account_list(b) matches Some((v, rest)) ==> {
            &&& v.len() <= u32::MAX
            &&& forall|i: int| 0 <= i < v.len() ==> (#[trigger] v[i]).len() == 32
            &&& b == scale::compact_bytes(v.len()) + v.flatten() + rest
        },
{
    law_compact_canonical(b, 4);
    scale::lemma_pow256();
    law_powers(4);
    if let Some((n, tail)) = scale::parse_compact(b, 4) {
        if tail.len() >= 32 * n {
            lemma_slices_flatten(tail, n);
            let (v, rest) = scale::parse_account_list(b)->0;
            assert(v.flatten() + rest =~= tail);
            assert(b =~= scale::compact_bytes(v.len()) + v.flatten() + rest);
        }
    }
}

/// Why bytes are no list of accounts: the number does not read, or accounts are missing.
pub proof fn law_account_list_faults(b: Seq<u8>, n: nat, tail: Seq<u8>)
    ensures
        scale::parse_compact(b, 4) is None ==> scale::parse_account_list(b) is None
            && scale::account_list_fault(b) == scale::compact_fault(b, 4),
        n <= u32::MAX && tail.len() < 32 * n ==> scale::parse_account_list(
            scale::compact_bytes(n) + tail,
        ) is None && scale::account_list_fault(scale::compact_bytes(n) + tail)
            == Fault::ShortAccount,
{
    if n <= u32::MAX {
        scale::lemma_pow256();
        law_powers(4);
        law_compact_reads(n, 4, tail);
    }
}

/// What is said of accounts is their bytes, one by one.
pub proof fn law_accounts_are_their_bytes(v: Seq<AccountId>, a: AccountId, i: int)
    ensures
        scale::accounts(v).len() == v.len(),
        0 <= i < v.len() ==> scale::accounts(v)[i] == v[i]@,
        scale::optional_account(Some(a)) == Some(a@),
        scale::optional_account(None) is None,
{
}

} // verus!
