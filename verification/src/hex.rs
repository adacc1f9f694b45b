//! Lower-case hexadecimal notation of unsigned numbers.

use vstd::prelude::*;
use vstd::string::StrSliceExecFns;
use vstd::string::StringExecFns;

verus! {

/// The sixteen digits, each at the place of its value.
pub open spec fn lower_hex_digits() -> Seq<char> {
    seq!['0', '1', '2', '3', '4', '5', '6', '7', '8', '9', 'a', 'b', 'c', 'd', 'e', 'f']
}

/// The digit that stands for `d`, where `d` is below sixteen.
pub open spec fn lower_hex_digit(d: nat) -> char
    recommends
        d < 16,
{
    lower_hex_digits()[d as int]
}

/// The value that the digit `c` stands for; sixteen where `c` is no digit.
pub open spec fn lower_hex_digit_value(c: char) -> nat {
    if '0' <= c <= '9' {
        (c as u32 - '0' as u32) as nat
    } else if 'a' <= c <= 'f' {
        (c as u32 - 'a' as u32 + 10) as nat
    } else {
        16
    }
}

/// The notation of `v` in base sixteen: the most significant digit first, no
/// sign, no prefix, and no leading zero but for zero itself, which is `0`.
pub open spec fn lower_hex(v: nat) -> Seq<char>
    decreases v,
{
    if v < 16 {
        seq![lower_hex_digit(v)]
    } else {
        lower_hex(v / 16).push(lower_hex_digit(v % 16))
    }
}

/// The number that a sequence of digits denotes in base sixteen.
pub open spec fn lower_hex_value(digits: Seq<char>) -> nat
    decreases digits.len(),
{
    if digits.len() == 0 {
        0
    } else {
        lower_hex_value(digits.drop_last()) * 16 + lower_hex_digit_value(digits.last())
    }
}

/// Each digit stands for its own place among the sixteen, and for no other.
pub proof fn lemma_lower_hex_digit_value(d: nat)
    requires
        d < 16,
    ensures
        lower_hex_digit_value(lower_hex_digit(d)) == d,
{
}

/// Reading the notation of `v` gives `v` back.
pub proof fn lemma_lower_hex_value(v: nat)
    ensures
        lower_hex_value(lower_hex(v)) == v,
    decreases v,
{
    let digits = lower_hex(v);
    if v < 16 {
        lemma_lower_hex_digit_value(v);
        assert(digits.drop_last() =~= Seq::<char>::empty());
        assert(lower_hex_value(digits.drop_last()) == 0);
    } else {
        lemma_lower_hex_value(v / 16);
        lemma_lower_hex_digit_value(v % 16);
        assert(digits.drop_last() =~= lower_hex(v / 16));
    }
}

/// The notation is never empty and has one digit for each power of sixteen
/// that `v` reaches.
pub proof fn lemma_lower_hex_len(v: nat)
    ensures
        lower_hex(v).len() >= 1,
        v < 16 <==> lower_hex(v).len() == 1,
        v >= 16 ==> lower_hex(v).len() == lower_hex(v / 16).len() + 1,
    decreases v,
{
    if v >= 16 {
        lemma_lower_hex_len(v / 16);
    }
}

/// The notation holds digits only, and starts with `0` for zero alone.
pub proof fn lemma_lower_hex_canonical(v: nat)
    ensures
        forall|i: int|
            0 <= i < lower_hex(v).len() ==> lower_hex_digit_value(#[trigger] lower_hex(v)[i]) < 16,
        lower_hex(v)[0] == '0' <==> v == 0,
    decreases v,
{
    if v < 16 {
        lemma_lower_hex_digit_value(v);
    } else {
        lemma_lower_hex_canonical(v / 16);
        lemma_lower_hex_len(v / 16);
        lemma_lower_hex_digit_value(v % 16);
        let head = lower_hex(v / 16);
        assert forall|i: int| 0 <= i < lower_hex(v).len() implies lower_hex_digit_value(
            #[trigger] lower_hex(v)[i],
        ) < 16 by {
            if i < head.len() {
                assert(lower_hex(v)[i] == head[i]);
            }
        }
        assert(lower_hex(v)[0] == head[0]);
    }
}

/// Two numbers with the same notation are the same number.
pub proof fn lemma_lower_hex_injective(a: nat, b: nat)
    requires
        lower_hex(a) == lower_hex(b),
    ensures
        a == b,
{
    lemma_lower_hex_value(a);
    lemma_lower_hex_value(b);
}

/// The one-digit text for `d`.
fn lower_hex_digit_text(d: u8) -> (text: &'static str)
    requires
        d < 16,
    ensures
        text@ == seq![lower_hex_digit(d as nat)],
{
    let digits = "0123456789abcdef";
    proof {
        reveal_strlit("0123456789abcdef");
    }
    let text = digits.substring_ascii(d as usize, d as usize + 1);
    assert(text@ =~= seq![lower_hex_digit(d as nat)]);
    text
}

/// Appends the notation of `v` in base sixteen to `out`.
pub fn push_lower_hex(out: &mut String, v: u64)
    ensures
        final(out)@ == old(out)@ + lower_hex(v as nat),
    decreases v,
{
    if v >= 16 {
        push_lower_hex(out, v / 16);
    }
    let digit: u8 = (v % 16) as u8;
    out.append(lower_hex_digit_text(digit));
    assert(out@ =~= old(out)@ + lower_hex(v as nat));
}

} // verus!
