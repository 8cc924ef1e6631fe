//! Reading unsigned numbers from text, as `str::parse` and `from_str_radix`
//! read them: an optional `+`, then at least one digit, nothing else.

use vstd::prelude::*;

verus! {

/// The value of a digit character in the given radix, if it is one.
/// Only radices up to ten are read.
pub open spec fn digit_of(b: u8, radix: int) -> Option<int> {
    if 48 <= b && b - 48 < radix && radix <= 10 {
        Some(b - 48)
    } else {
        None
    }
}

/// Whether every byte is a digit of the radix.
pub open spec fn all_digits(s: Seq<u8>, radix: int) -> bool {
    forall|i: int| 0 <= i < s.len() ==> digit_of(#[trigger] s[i], radix).is_some()
}

/// The number that a string of digits spells.
pub open spec fn value_of(s: Seq<u8>, radix: int) -> int
    decreases s.len(),
{
    if s.len() == 0 {
        0
    } else {
        value_of(s.drop_last(), radix) * radix + (s.last() - 48)
    }
}

/// The text without a leading plus sign.
pub open spec fn unsigned_part(s: Seq<u8>) -> Seq<u8> {
    if s.len() > 0 && s[0] == 43 {
        s.subrange(1, s.len() as int)
    } else {
        s
    }
}

/// The number a text spells, if it spells one that is at most `max`.
pub open spec fn number_of(s: Seq<u8>, radix: int, max: int) -> Option<u64> {
    let d = unsigned_part(s);
    if d.len() > 0 && all_digits(d, radix) && value_of(d, radix) <= max {
        Some(value_of(d, radix) as u64)
    } else {
        None
    }
}

proof fn lemma_value_grows(s: Seq<u8>, radix: int, k: int)
    requires
        0 <= k <= s.len(),
        2 <= radix <= 10,
        all_digits(s, radix),
    ensures
        0 <= value_of(s.subrange(0, k), radix) <= value_of(s, radix),
    decreases s.len() - k,
{
    lemma_value_nonnegative(s.subrange(0, k), radix);
    if k < s.len() {
        let next = s.subrange(0, k + 1);
        assert(next.drop_last() =~= s.subrange(0, k));
        assert(next.last() == s[k]);
        assert(digit_of(s[k], radix).is_some());
        lemma_value_grows(s, radix, k + 1);
        let v = value_of(s.subrange(0, k), radix);
        assert(v * radix >= v) by (nonlinear_arith)
            requires
                v >= 0,
                radix >= 2,
        ;
    } else {
        assert(s.subrange(0, k) =~= s);
    }
}

proof fn lemma_value_nonnegative(s: Seq<u8>, radix: int)
    requires
        2 <= radix <= 10,
        forall|i: int| 0 <= i < s.len() ==> s[i] >= 48,
    ensures
        value_of(s, radix) >= 0,
    decreases s.len(),
{
    if s.len() > 0 {
        assert forall|i: int| 0 <= i < s.drop_last().len() implies s.drop_last()[i] >= 48 by {
            assert(s.drop_last()[i] == s[i]);
        }
        lemma_value_nonnegative(s.drop_last(), radix);
        let v = value_of(s.drop_last(), radix);
        assert(v * radix >= 0) by (nonlinear_arith)
            requires
                v >= 0,
                radix >= 2,
        ;
    }
}

/// Reads an unsigned number in the given radix that is at most `max`.
pub fn parse_number(text: &[u8], radix: u64, max: u64) -> (r: Option<u64>)
    requires
        2 <= radix <= 10,
    ensures
        r == number_of(text@, radix as int, max as int),
        r.is_some() ==> r.unwrap() <= max,
{
    let start: usize = if text.len() > 0 && text[0] == 43 { 1 } else { 0 };
    let ghost d = unsigned_part(text@);
    assert(d =~= text@.subrange(start as int, text@.len() as int));
    if start == text.len() {
        return None;
    }
    let mut acc: u64 = 0;
    let mut i: usize = start;
    assert(d.subrange(0, 0) =~= Seq::<u8>::empty());
    while i < text.len()
        invariant
            start <= i <= text@.len(),
            2 <= radix <= 10,
            d == text@.subrange(start as int, text@.len() as int),
            d == unsigned_part(text@),
            all_digits(d.subrange(0, i - start), radix as int),
            acc == value_of(d.subrange(0, i - start), radix as int),
            acc <= max,
        decreases text@.len() - i,
    {
        let b: u8 = text[i];
        proof {
            let next = d.subrange(0, i + 1 - start);
            assert(next.drop_last() =~= d.subrange(0, i - start));
            assert(next.last() == b);
        }
        if b < 48 || (b - 48) as u64 >= radix {
            proof {
                assert(d[i - start] == b);
                assert(digit_of(d[i - start], radix as int).is_none());
                assert(!all_digits(d, radix as int));
            }
            return None;
        }
        let digit: u64 = (b - 48) as u64;
        proof {
            let next = d.subrange(0, i + 1 - start);
            assert forall|j: int| 0 <= j < next.len() implies digit_of(
                #[trigger] next[j],
                radix as int,
            ).is_some() by {
                if j < next.len() - 1 {
                    assert(next[j] == d.subrange(0, i - start)[j]);
                }
            }
        }
        let grown: Option<u64> = match acc.checked_mul(radix) {
            Some(m) => m.checked_add(digit),
            None => None,
        };
        let too_big: bool = match grown {
            Some(v) => v > max,
            None => true,
        };
        if too_big {
            proof {
                let next = d.subrange(0, i + 1 - start);
                assert(value_of(next, radix as int) == acc * radix + digit);
                assert(value_of(next, radix as int) > max);
                if all_digits(d, radix as int) {
                    lemma_value_grows(d, radix as int, i + 1 - start);
                    assert(value_of(d, radix as int) > max);
                }
                assert(number_of(text@, radix as int, max as int).is_none());
            }
            return None;
        }
        acc = grown.unwrap();
        i = i + 1;
    }
    assert(d.subrange(0, d.len() as int) =~= d);
    Some(acc)
}

} // verus!
