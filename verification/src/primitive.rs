use vstd::prelude::*;

verus! {

/// The type of each channel in a pixel.
///
/// A channel holds a natural number no larger than `max_value()`; the
/// operations the demosaicer needs are stated over that number.
pub trait FornaxPrimitive: Copy + Sized {
    /// The number a channel value stands for.
    spec fn value(self) -> nat;

    /// The largest number a channel of this type holds.
    spec fn max_value() -> nat;

    proof fn lemma_value_bounded(self)
        ensures
            self.value() <= Self::max_value(),
    ;

    proof fn lemma_max_value_holds_counts()
        ensures
            Self::max_value() >= 4,
    ;

    proof fn lemma_value_injective(a: Self, b: Self)
        ensures
            a.value() == b.value() ==> a == b,
    ;

    /// The channel value zero.
    fn zero() -> (r: Self)
        ensures
            r.value() == 0,
    ;

    /// A small count (a number of neighbours) as a channel value.
    fn from_count(n: u32) -> (r: Self)
        requires
            n <= 4,
        ensures
            r.value() == n,
    ;

    /// Sum of two channel values that fit together.
    fn plus(self, rhs: Self) -> (r: Self)
        requires
            self.value() + rhs.value() <= Self::max_value(),
        ensures
            r.value() == self.value() + rhs.value(),
    ;

    /// Sum of two channel values, or `None` where it does not fit.
    fn checked_plus(self, rhs: Self) -> (r: Option<Self>)
        ensures
            r is Some <==> self.value() + rhs.value() <= Self::max_value(),
            r matches Some(s) ==> s.value() == self.value() + rhs.value(),
    ;

    /// Quotient of two channel values, rounded down.
    fn divide(self, rhs: Self) -> (r: Self)
        requires
            rhs.value() > 0,
        ensures
            r.value() == self.value() / rhs.value(),
    ;
}

impl FornaxPrimitive for u8 {
    open spec fn value(self) -> nat {
        self as nat
    }

    open spec fn max_value() -> nat {
        0xff
    }

    proof fn lemma_value_bounded(self) {
    }

    proof fn lemma_max_value_holds_counts() {
    }

    proof fn lemma_value_injective(a: Self, b: Self) {
    }

    fn zero() -> (r: Self) {
        0
    }

    fn from_count(n: u32) -> (r: Self) {
        n as u8
    }

    fn plus(self, rhs: Self) -> (r: Self) {
        self + rhs
    }

    fn checked_plus(self, rhs: Self) -> (r: Option<Self>) {
        self.checked_add(rhs)
    }

    fn divide(self, rhs: Self) -> (r: Self) {
        self / rhs
    }
}

impl FornaxPrimitive for u16 {
    open spec fn value(self) -> nat {
        self as nat
    }

    open spec fn max_value() -> nat {
        0xffff
    }

    proof fn lemma_value_bounded(self) {
    }

    proof fn lemma_max_value_holds_counts() {
    }

    proof fn lemma_value_injective(a: Self, b: Self) {
    }

    fn zero() -> (r: Self) {
        0
    }

    fn from_count(n: u32) -> (r: Self) {
        n as u16
    }

    fn plus(self, rhs: Self) -> (r: Self) {
        self + rhs
    }

    fn checked_plus(self, rhs: Self) -> (r: Option<Self>) {
        self.checked_add(rhs)
    }

    fn divide(self, rhs: Self) -> (r: Self) {
        self / rhs
    }
}

} // verus!
