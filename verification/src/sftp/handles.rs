//! The per-session table of open handles.
//!
//! Handle tokens are the ASCII strings `h1`, `h2`, … in order of issue.

use vstd::prelude::*;
use crate::bytes::bytes_eq;
use crate::sftp::wire::NameEntry;

verus! {

/// The open flags of a file as sent by the client.
#[derive(Debug, Clone, Copy, PartialEq, Eq)]
pub struct OpenFlags(pub u32);

impl OpenFlags {
    pub const READ: u32 = 1;
    pub const WRITE: u32 = 2;
    pub const APPEND: u32 = 4;
    pub const CREAT: u32 = 8;
    pub const TRUNC: u32 = 16;

    /// Keeps every bit as sent.
    pub fn from_bits_truncate(bits: u32) -> (f: Self)
        ensures
            f.0 == bits,
    {
        OpenFlags(bits)
    }

    /// The raw bits.
    pub fn bits(&self) -> (b: u32)
        ensures
            b == self.0,
    {
        self.0
    }
}

/// What a handle refers to.
#[derive(Debug, Clone)]
pub enum HandleState {
    /// An open file; the file itself is held by the caller under the token.
    File { flags: OpenFlags },
    /// A directory snapshot and the number of entries already returned.
    Directory { entries: Vec<NameEntry>, position: usize },
}

/// One open handle.
#[derive(Debug, Clone)]
pub struct HandleSlot {
    pub token: Vec<u8>,
    pub number: u64,
    pub state: HandleState,
}

/// The decimal digits of `n`, most significant first.
pub open spec fn decimal(n: nat) -> Seq<u8>
    decreases n,
{
    if n < 10 {
        seq![(48 + n) as u8]
    } else {
        decimal(n / 10).push((48 + n % 10) as u8)
    }
}

/// The number whose decimal digits are `s`.
pub open spec fn digits_value(s: Seq<u8>) -> nat
    decreases s.len(),
{
    if s.len() == 0 {
        0
    } else {
        (digits_value(s.drop_last()) * 10 + (s.last() - 48)) as nat
    }
}

/// The token of the `n`-th handle issued: `h` followed by `n` in decimal.
pub open spec fn token_of(n: nat) -> Seq<u8> {
    seq![104u8] + decimal(n)
}

/// Reading the digits of a number gives the number back.
pub proof fn lemma_decimal_value(n: nat)
    ensures
        digits_value(decimal(n)) == n,
        decimal(n).len() >= 1,
    decreases n,
{
    if n < 10 {
        assert(decimal(n).drop_last() =~= Seq::<u8>::empty());
        assert(decimal(n).last() == (48 + n) as u8);
        assert(digits_value(Seq::<u8>::empty()) == 0);
    } else {
        lemma_decimal_value(n / 10);
        assert(decimal(n).drop_last() =~= decimal(n / 10));
        assert(decimal(n).last() == (48 + n % 10) as u8);
    }
}

/// Distinct handle numbers have distinct tokens.
pub proof fn lemma_token_injective(a: nat, b: nat)
    requires
        token_of(a) == token_of(b),
    ensures
        a == b,
{
    lemma_decimal_value(a);
    lemma_decimal_value(b);
    assert(token_of(a).subrange(1, token_of(a).len() as int) =~= decimal(a));
    assert(token_of(b).subrange(1, token_of(b).len() as int) =~= decimal(b));
}

/// Writes `n` in decimal.
pub fn decimal_digits(n: u64) -> (out: Vec<u8>)
    ensures
        out@ == decimal(n as nat),
    decreases n,
{
    if n < 10 {
        let mut out: Vec<u8> = Vec::new();
        out.push((48 + n) as u8);
        assert(out@ =~= decimal(n as nat));
        out
    } else {
        let mut out = decimal_digits(n / 10);
        out.push((48 + n % 10) as u8);
        out
    }
}

/// Writes the token of handle number `n`.
pub fn make_token(n: u64) -> (out: Vec<u8>)
    ensures
        out@ == token_of(n as nat),
{
    let mut out: Vec<u8> = Vec::new();
    out.push(104u8);
    let digits = decimal_digits(n);
    crate::bytes::append_bytes(&mut out, digits.as_slice());
    assert(out@ =~= token_of(n as nat));
    out
}

/// The position of the slot that carries `token`, if one does.
pub open spec fn position_of(slots: Seq<HandleSlot>, token: Seq<u8>) -> Option<int>
    decreases slots.len(),
{
    if slots.len() == 0 {
        None
    } else {
        match position_of(slots.drop_last(), token) {
            Some(i) => Some(i),
            None => if slots.last().token@ == token {
                Some(slots.len() - 1)
            } else {
                None
            },
        }
    }
}

/// A table is well formed when every slot carries the token of its number,
/// numbers are distinct and were issued, and no directory cursor runs past
/// its snapshot.
pub open spec fn slots_wf(slots: Seq<HandleSlot>, issued: nat) -> bool {
    &&& forall|i: int|
        0 <= i < slots.len() ==> {
            &&& (#[trigger] slots[i]).token@ == token_of(slots[i].number as nat)
            &&& 1 <= slots[i].number <= issued
            &&& (match slots[i].state {
                HandleState::Directory { entries, position } => position <= entries@.len(),
                HandleState::File { .. } => true,
            })
        }
    &&& forall|i: int, j: int|
        0 <= i < j < slots.len() ==> (#[trigger] slots[i]).number != (#[trigger] slots[j]).number
}

/// `position_of` finds a slot with the token, and only slots without it precede it.
pub proof fn lemma_position_of(slots: Seq<HandleSlot>, token: Seq<u8>)
    ensures
        match position_of(slots, token) {
            Some(i) => 0 <= i < slots.len() && slots[i].token@ == token,
            None => forall|j: int| 0 <= j < slots.len() ==> (#[trigger] slots[j]).token@ != token,
        },
    decreases slots.len(),
{
    if slots.len() > 0 {
        lemma_position_of(slots.drop_last(), token);
        match position_of(slots.drop_last(), token) {
            Some(i) => {
                assert(slots.drop_last()[i] == slots[i]);
            },
            None => {
                assert forall|j: int| 0 <= j < slots.len() - 1 implies (#[trigger] slots[j]).token@
                    != token by {
                    assert(slots.drop_last()[j] == slots[j]);
                }
            },
        }
    }
}

/// In a well-formed table the slot at `i` is the one its token finds.
pub proof fn lemma_position_of_unique(slots: Seq<HandleSlot>, issued: nat, i: int)
    requires
        slots_wf(slots, issued),
        0 <= i < slots.len(),
    ensures
        position_of(slots, slots[i].token@) == Some(i),
{
    let token = slots[i].token@;
    lemma_position_of(slots, token);
    let found = position_of(slots, token).unwrap();
    if found != i {
        lemma_token_injective(slots[found].number as nat, slots[i].number as nat);
    }
}

/// Finds the slot that carries `token`.
pub fn find_slot(slots: &Vec<HandleSlot>, token: &[u8]) -> (r: Option<usize>)
    ensures
        match r {
            Some(i) => position_of(slots@, token@) == Some(i as int) && i < slots@.len(),
            None => position_of(slots@, token@).is_none(),
        },
{
    let mut i: usize = 0;
    assert(slots@.subrange(0, 0) =~= Seq::<HandleSlot>::empty());
    while i < slots.len()
        invariant
            i <= slots@.len(),
            position_of(slots@.subrange(0, i as int), token@).is_none(),
        decreases slots@.len() - i,
    {
        let hit = bytes_eq(slots[i].token.as_slice(), token);
        proof {
            let next = slots@.subrange(0, i + 1);
            assert(next.drop_last() =~= slots@.subrange(0, i as int));
            assert(next.last() == slots@[i as int]);
        }
        if hit {
            proof {
                lemma_found_in_prefix(slots@, i as int + 1, token@);
            }
            return Some(i);
        }
        i = i + 1;
    }
    assert(slots@.subrange(0, slots@.len() as int) =~= slots@);
    None
}

proof fn lemma_found_in_prefix(slots: Seq<HandleSlot>, n: int, token: Seq<u8>)
    requires
        0 <= n <= slots.len(),
        position_of(slots.subrange(0, n), token).is_some(),
    ensures
        position_of(slots, token) == position_of(slots.subrange(0, n), token),
    decreases slots.len() - n,
{
    if n < slots.len() {
        assert(slots.subrange(0, n + 1).drop_last() =~= slots.subrange(0, n));
        lemma_found_in_prefix(slots, n + 1, token);
    } else {
        assert(slots.subrange(0, n) =~= slots);
    }
}

} // verus!
