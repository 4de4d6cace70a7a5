//! Byte strings: prefixes, suffixes, concatenation and decimal numbers.

use vstd::prelude::*;
use vstd::utf8::{decode_utf8, encode_utf8, encode_utf8_decode_utf8};

verus! {

/// The decimal digits of `n` as ASCII, without leading zeros.
pub open spec fn decimal(n: nat) -> Seq<u8>
    decreases n,
{
    if n < 10 {
        seq![(48 + n) as u8]
    } else {
        decimal(n / 10).push((48 + n % 10) as u8)
    }
}

/// Whether `data` begins with `prefix`.
pub fn starts_with(data: &[u8], prefix: &[u8]) -> (r: bool)
    ensures
        r == prefix@.is_prefix_of(data@),
{
    if data.len() < prefix.len() {
        return false;
    }
    let mut i: usize = 0;
    while i < prefix.len()
        invariant
            i <= prefix.len() <= data.len(),
            forall|j: int| 0 <= j < i ==> prefix@[j] == data@[j],
        decreases prefix.len() - i,
    {
        if data[i] != prefix[i] {
            assert(prefix@[i as int] != data@.subrange(0, prefix@.len() as int)[i as int]);
            return false;
        }
        i += 1;
    }
    true
}

/// Whether `data` ends with `suffix`.
pub fn ends_with(data: &[u8], suffix: &[u8]) -> (r: bool)
    ensures
        r == suffix@.is_suffix_of(data@),
{
    if data.len() < suffix.len() {
        return false;
    }
    let start: usize = data.len() - suffix.len();
    let mut i: usize = 0;
    while i < suffix.len()
        invariant
            i <= suffix.len(),
            start + suffix.len() == data.len(),
            forall|j: int| 0 <= j < i ==> suffix@[j] == data@[start + j],
        decreases suffix.len() - i,
    {
        if data[start + i] != suffix[i] {
            assert(suffix@[i as int] != data@.subrange(start as int, data@.len() as int)[i as int]);
            return false;
        }
        i += 1;
    }
    true
}

/// Appends `tail` to `data`.
pub fn append(data: &mut Vec<u8>, tail: &[u8])
    ensures
        final(data)@ == old(data)@ + tail@,
{
    data.extend_from_slice(tail);
    assert(data@ =~= old(data)@ + tail@);
}

/// Appends the UTF-8 bytes of `text` to `data`.
pub fn append_text(data: &mut Vec<u8>, text: &str)
    ensures
        final(data)@ == old(data)@ + encode_utf8(text@),
{
    append(data, text.as_bytes());
}

/// Appends the decimal digits of `n` to `data`.
pub fn append_decimal(data: &mut Vec<u8>, n: u16)
    ensures
        final(data)@ == old(data)@ + decimal(n as nat),
    decreases n,
{
    if n >= 10 {
        append_decimal(data, n / 10);
    }
    data.push(48 + (n % 10) as u8);
    assert(data@ =~= old(data)@ + decimal(n as nat));
}

/// The number that decimal digits in ASCII stand for.
pub open spec fn number(digits: Seq<u8>) -> int
    decreases digits.len(),
{
    if digits.len() == 0 {
        0
    } else {
        number(digits.drop_last()) * 10 + (digits.last() - 48)
    }
}

/// Whether `digits` is how `n` is written: at least one digit, no zero in front
/// but for zero itself, and the right value.
pub open spec fn is_numeral(digits: Seq<u8>, n: int) -> bool {
    &&& digits.len() > 0
    &&& forall|i: int| 0 <= i < digits.len() ==> 48 <= #[trigger] digits[i] <= 57
    &&& digits.len() > 1 ==> digits[0] != 48
    &&& number(digits) == n
}

/// The decimal digits of a number are how it is written.
pub proof fn law_decimal_is_the_numeral(n: nat)
    ensures
        is_numeral(decimal(n), n as int),
    decreases n,
{
    reveal_with_fuel(number, 2);
    if n < 10 {
        assert(decimal(n).drop_last() =~= Seq::empty());
    } else {
        let head = decimal(n / 10);
        law_decimal_is_the_numeral(n / 10);
        assert(decimal(n).drop_last() =~= head);
        assert forall|i: int| 0 <= i < decimal(n).len() implies 48 <= #[trigger] decimal(n)[i]
            <= 57 by {
            assert(i < head.len() ==> decimal(n)[i] == head[i]);
        }
        assert(decimal(n)[0] == head[0]);
        if head.len() == 1 {
            assert(head.drop_last() =~= Seq::empty());
            assert(head.last() == head[0]);
        }
    }
}

/// A call of [`starts_with`] is true exactly if `data` is `prefix` and some tail.
pub proof fn law_starts_with(data: &[u8], prefix: &[u8], r: bool)
    requires
        call_ensures(starts_with, (data, prefix), r),
    ensures
        r <==> exists|tail: Seq<u8>| data@ == #[trigger] (prefix@ + tail),
{
    if r {
        assert(data@ =~= prefix@ + data@.skip(prefix@.len() as int));
    }
    if exists|tail: Seq<u8>| data@ == #[trigger] (prefix@ + tail) {
        let tail = choose|tail: Seq<u8>| data@ == #[trigger] (prefix@ + tail);
        assert(prefix@ =~= data@.subrange(0, prefix@.len() as int));
    }
}

/// A call of [`ends_with`] is true exactly if `data` is some head and `suffix`.
pub proof fn law_ends_with(data: &[u8], suffix: &[u8], r: bool)
    requires
        call_ensures(ends_with, (data, suffix), r),
    ensures
        r <==> exists|head: Seq<u8>| data@ == #[trigger] (head + suffix@),
{
    let n = data@.len() - suffix@.len();
    if r {
        assert(data@ =~= data@.take(n) + suffix@);
    }
    if exists|head: Seq<u8>| data@ == #[trigger] (head + suffix@) {
        let head = choose|head: Seq<u8>| data@ == #[trigger] (head + suffix@);
        assert(suffix@ =~= data@.subrange(n, data@.len() as int));
    }
}

/// A call of [`append`] keeps all there was, in front, and adds the tail.
pub proof fn law_append(data: &mut Vec<u8>, tail: &[u8])
    requires
        call_ensures(append, (data, tail), ()),
    ensures
        final(data)@.len() == old(data)@.len() + tail@.len(),
        forall|i: int| 0 <= i < old(data)@.len() ==> final(data)@[i] == old(data)@[i],
        forall|i: int|
            0 <= i < tail@.len() ==> final(data)@[old(data)@.len() + i] == #[trigger] tail@[i],
{
}

/// A call of [`append_text`] keeps all there was, in front, and adds the text in
/// UTF-8.
pub proof fn law_append_text(data: &mut Vec<u8>, text: &str)
    requires
        call_ensures(append_text, (data, text), ()),
    ensures
        old(data)@.is_prefix_of(final(data)@),
        decode_utf8(final(data)@.skip(old(data)@.len() as int)) == text@,
{
    assert(final(data)@.skip(old(data)@.len() as int) =~= encode_utf8(text@));
    encode_utf8_decode_utf8(text@);
}

/// A call of [`append_decimal`] keeps all there was, in front, and adds how the
/// number is written.
pub proof fn law_append_decimal(data: &mut Vec<u8>, n: u16)
    requires
        call_ensures(append_decimal, (data, n), ()),
    ensures
        old(data)@.is_prefix_of(final(data)@),
        is_numeral(final(data)@.skip(old(data)@.len() as int), n as int),
{
    law_decimal_is_the_numeral(n as nat);
    assert(final(data)@.skip(old(data)@.len() as int) =~= decimal(n as nat));
}

} // verus!
