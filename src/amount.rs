//! 256-bit unsigned amounts and the checked / saturating arithmetic the
//! ledger is built on.
use vstd::prelude::*;

verus! {

/// Number of distinct values of one 64-bit word (2^64).
pub open spec fn word_base() -> nat {
    0x1_0000_0000_0000_0000
}

/// The largest value an `Amount` can hold (2^256 - 1).
pub open spec fn amount_max() -> nat {
    (word_base() * (word_base() * (word_base() * word_base())) - 1) as nat
}

/// A 256-bit unsigned quantity held as four 64-bit words, least
/// significant word first.
#[derive(Clone, Copy, PartialEq, Eq, Structural, Debug)]
pub struct Amount {
    pub w0: u64,
    pub w1: u64,
    pub w2: u64,
    pub w3: u64,
}

proof fn lemma_word_step(lo: int, hi: int, m: int) by (nonlinear_arith)
    requires
        0 <= lo < word_base(),
        0 <= hi <= m - 1,
    ensures
        0 <= lo + word_base() * hi <= word_base() * m - 1,
{
}

impl Amount {
    /// The number this amount stands for.
    pub open spec fn value(self) -> nat {
        (self.w0 + word_base() * (self.w1 + word_base() * (self.w2 + word_base() * self.w3))) as nat
    }

    /// Every amount lies between zero and `amount_max()`.
    pub proof fn lemma_value_bounded(self)
        ensures
            self.value() <= amount_max(),
    {
        let w = word_base() as int;
        lemma_word_step(self.w2 as int, self.w3 as int, w);
        lemma_word_step(self.w1 as int, self.w2 + w * self.w3, w * w);
        lemma_word_step(self.w0 as int, self.w1 + w * (self.w2 + w * self.w3), w * (w * w));
        assert(w * (w * (w * w)) - 1 == amount_max());
    }

    /// The amount zero.
    pub fn zero() -> (r: Amount)
        ensures
            r.value() == 0,
    {
        Amount { w0: 0, w1: 0, w2: 0, w3: 0 }
    }

    /// The amount equal to `v`.
    pub fn from_u64(v: u64) -> (r: Amount)
        ensures
            r.value() == v,
    {
        Amount { w0: v, w1: 0, w2: 0, w3: 0 }
    }

    /// The largest amount, 2^256 - 1.
    pub fn max_value() -> (r: Amount)
        ensures
            r.value() == amount_max(),
    {
        let r = Amount { w0: u64::MAX, w1: u64::MAX, w2: u64::MAX, w3: u64::MAX };
        assert(r.value() == amount_max());
        r
    }
}

/// Relies on `primitive_types::U256::checked_add`: `None` when the sum
/// overflows 256 bits, else the sum. `U256` keeps its words least
/// significant first, as `Amount` does.
#[verifier::external_body]
pub(crate) fn checked_add(a: Amount, b: Amount) -> (r: Option<Amount>)
    ensures
        a.value() + b.value() > amount_max() ==> r is None,
        a.value() + b.value() <= amount_max() ==> r is Some && r->Some_0.value() == a.value() + b.value(),
{
    let x = primitive_types::U256([a.w0, a.w1, a.w2, a.w3]);
    match x.checked_add(primitive_types::U256([b.w0, b.w1, b.w2, b.w3])) {
        Some(s) => Some(Amount { w0: s.0[0], w1: s.0[1], w2: s.0[2], w3: s.0[3] }),
        None => None,
    }
}

/// Relies on `primitive_types::U256::saturating_add`: the sum, or
/// `U256::MAX` when the sum overflows 256 bits.
#[verifier::external_body]
pub(crate) fn saturating_add(a: Amount, b: Amount) -> (r: Amount)
    ensures
        r.value() == if a.value() + b.value() <= amount_max() {
            a.value() + b.value()
        } else {
            amount_max()
        },
{
    let x = primitive_types::U256([a.w0, a.w1, a.w2, a.w3]);
    let s = x.saturating_add(primitive_types::U256([b.w0, b.w1, b.w2, b.w3]));
    Amount { w0: s.0[0], w1: s.0[1], w2: s.0[2], w3: s.0[3] }
}

/// Relies on `primitive_types::U256::saturating_sub`: the difference, or
/// zero when `b` exceeds `a`.
#[verifier::external_body]
pub(crate) fn saturating_sub(a: Amount, b: Amount) -> (r: Amount)
    ensures
        r.value() == if a.value() >= b.value() {
            (a.value() - b.value()) as nat
        } else {
            0
        },
{
    let x = primitive_types::U256([a.w0, a.w1, a.w2, a.w3]);
    let s = x.saturating_sub(primitive_types::U256([b.w0, b.w1, b.w2, b.w3]));
    Amount { w0: s.0[0], w1: s.0[1], w2: s.0[2], w3: s.0[3] }
}

/// Relies on `primitive_types::U256::is_zero`: whether every word is zero.
#[verifier::external_body]
pub(crate) fn is_zero(a: Amount) -> (r: bool)
    ensures
        r == (a.value() == 0),
{
    primitive_types::U256([a.w0, a.w1, a.w2, a.w3]).is_zero()
}

/// Relies on `Ord for primitive_types::U256`, which compares the words from
/// the most significant down: numeric order.
#[verifier::external_body]
pub(crate) fn less_than(a: Amount, b: Amount) -> (r: bool)
    ensures
        r == (a.value() < b.value()),
{
    primitive_types::U256([a.w0, a.w1, a.w2, a.w3]) < primitive_types::U256([b.w0, b.w1, b.w2, b.w3])
}

} // verus!
