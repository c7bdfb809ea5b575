//! What the texts of the command line mean.

use crate::cli;
use crate::models::Chain;
use vstd::prelude::*;

verus! {

/// Five names of runtimes are known, and no others: the asset hubs count as the chains that they
/// belong to.
pub proof fn law_known_runtimes(name: Seq<char>)
    ensures
        cli::chain_of(name) == Some(Chain::Polkadot) <==> name == "polkadot"@ || name
            == "statemint"@,
        cli::chain_of(name) == Some(Chain::Kusama) <==> name == "kusama"@ || name == "statemine"@,
        cli::chain_of(name) == Some(Chain::Substrate) <==> name == "substrate"@,
{
    reveal_strlit("polkadot");
    reveal_strlit("statemint");
    reveal_strlit("kusama");
    reveal_strlit("statemine");
    reveal_strlit("substrate");
    assert("polkadot"@[0] == 'p');
    assert("kusama"@[0] == 'k');
    assert("statemint"@[8] == 't');
    assert("statemine"@[8] == 'e');
    assert("statemint"@[1] == 't');
    assert("statemine"@[1] == 't');
    assert("substrate"@[1] == 'u');
    assert("statemint"@[0] == 's');
    assert("statemine"@[0] == 's');
    assert("substrate"@[0] == 's');
}

/// A dash has a result printed; every other path is that of a file.
pub proof fn law_only_a_dash_is_printed(path: Seq<char>)
    ensures
        cli::goes_to_stdout(path) <==> path.len() == 1 && path[0] == '-',
{
    reveal_strlit("-");
    if path.len() == 1 && path[0] == '-' {
        assert(path =~= "-"@);
    }
}

/// The digits from `0` to `9` and the letters from `a` to `f`, large or small, have the values from
/// zero to fifteen; nothing else has one.
pub proof fn law_hex_digits(c: char)
    ensures
        48 <= c as int <= 57 ==> cli::hex_digit(c) == Some(c as int - 48),
        97 <= c as int <= 102 ==> cli::hex_digit(c) == Some(c as int - 87),
        65 <= c as int <= 70 ==> cli::hex_digit(c) == Some(c as int - 55),
        cli::hex_digit(c) is Some ==> 48 <= c as int <= 57 || 97 <= c as int <= 102 || 65
            <= c as int <= 70,
{
}

/// Blanks are dropped and all else is kept: a text is gone through character by character.
pub proof fn law_blanks_are_dropped(s: Seq<char>, c: char)
    ensures
        cli::without_blanks(Seq::empty()) == Seq::<char>::empty(),
        c == ' ' || c == '\t' || c == '\r' || c == '\n' ==> cli::without_blanks(s.push(c))
            == cli::without_blanks(s),
        c != ' ' && c != '\t' && c != '\r' && c != '\n' ==> cli::without_blanks(s.push(c))
            == cli::without_blanks(s).push(c),
{
    reveal(Seq::filter);
    assert(s.push(c).drop_last() =~= s);
}

proof fn lemma_without_blanks_keeps(s: Seq<char>)
    requires
        forall|i: int| 0 <= i < s.len() ==> cli::hex_digit(#[trigger] s[i]) is Some,
    ensures
        cli::without_blanks(s) == s,
    decreases s.len(),
{
    if s.len() == 0 {
        law_blanks_are_dropped(s, 'a');
        assert(s =~= Seq::empty());
    } else {
        let t = s.drop_last();
        assert forall|i: int| 0 <= i < t.len() implies cli::hex_digit(#[trigger] t[i]) is Some by {
            assert(t[i] == s[i]);
        }
        lemma_without_blanks_keeps(t);
        law_blanks_are_dropped(t, s.last());
        assert(cli::hex_digit(s[s.len() - 1]) is Some);
        assert(t.push(s.last()) =~= s);
    }
}

/// Sixty-four digits are a hash of 32 bytes, two digits to a byte, the high one first, behind `0x`
/// or without it.
pub proof fn law_hashes_are_their_digits(s: Seq<char>, i: int)
    requires
        s.len() == 64,
        forall|k: int| 0 <= k < s.len() ==> cli::hex_digit(#[trigger] s[k]) is Some,
        0 <= i < 32,
    ensures
        cli::parse_hash(s) is Some,
        (cli::parse_hash(s)->0).len() == 32,
        (cli::parse_hash(s)->0)[i] == 16 * cli::hex_digit(s[2 * i])->0 + cli::hex_digit(
            s[2 * i + 1],
        )->0,
        cli::parse_hash(seq!['0', 'x'] + s) == cli::parse_hash(s),
{
    lemma_without_blanks_keeps(s);
    law_hex_digits(s[1]);
    let t = seq!['0', 'x'] + s;
    assert(t[0] == '0' && t[1] == 'x');
    assert(t.skip(2) =~= s);
    law_hex_digits(s[2 * i]);
    law_hex_digits(s[2 * i + 1]);
}

/// A text is a hash only where, blanks aside and behind one `0x` at most, it is just sixty-four
/// digits.
pub proof fn law_nothing_else_is_a_hash(s: Seq<char>, k: int)
    requires
        cli::parse_hash(s) is Some,
        0 <= k < 64,
    ensures
        ({
            let body = if s.len() >= 2 && s[0] == '0' && s[1] == 'x' {
                s.skip(2)
            } else {
                s
            };
            let digits = cli::without_blanks(body);
            digits.len() == 64 && cli::hex_digit(digits[k]) is Some
        }),
{
}

/// Blanks behind `0x`, behind a hash, before it, or between its digits, make no difference.
pub proof fn law_blanks_make_no_difference(a: Seq<char>, b: Seq<char>)
    requires
        cli::without_blanks(a) == cli::without_blanks(b),
    ensures
        cli::parse_hash(seq!['0', 'x'] + a) == cli::parse_hash(seq!['0', 'x'] + b),
        !seq!['0', 'x'].is_prefix_of(a) && !seq!['0', 'x'].is_prefix_of(b) ==> cli::parse_hash(a)
            == cli::parse_hash(b),
{
    if a.len() >= 2 && a[0] == '0' && a[1] == 'x' {
        assert(seq!['0', 'x'] =~= a.take(2));
    }
    if b.len() >= 2 && b[0] == '0' && b[1] == 'x' {
        assert(seq!['0', 'x'] =~= b.take(2));
    }
    let s = seq!['0', 'x'] + a;
    let t = seq!['0', 'x'] + b;
    assert(s[0] == '0' && s[1] == 'x' && t[0] == '0' && t[1] == 'x');
    assert(s.skip(2) =~= a);
    assert(t.skip(2) =~= b);
}

} // verus!
