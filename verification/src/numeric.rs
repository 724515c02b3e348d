//! The integer types that a slider can select from.
use vstd::prelude::*;

verus! {

/// Slider values stay strictly below this magnitude (two to the power 64), so
/// that the working arithmetic fits in 128 bits.
pub open spec fn magnitude_limit() -> int {
    0x1_0000_0000_0000_0000
}

/// A copyable integer type that converts into the 128-bit working domain and,
/// where the number fits, back.
pub trait Numeric: Copy + Sized {
    /// The integer that this value stands for.
    spec fn as_int(self) -> int;

    /// Whether some value of this type stands for `n`.
    spec fn representable(n: int) -> bool;

    /// Every value stands for a representable integer within the magnitude
    /// limit.
    proof fn lemma_in_domain(self)
        ensures
            Self::representable(self.as_int()),
            -magnitude_limit() < self.as_int() < magnitude_limit(),
    ;

    /// The representable integers have no gaps: what lies between two of them
    /// is representable.
    proof fn lemma_no_gaps(low: int, n: int, high: int)
        requires
            Self::representable(low),
            Self::representable(high),
            low <= n <= high,
        ensures
            Self::representable(n),
    ;

    /// Two values that stand for the same integer are the same value.
    proof fn lemma_injective(a: Self, b: Self)
        requires
            a.as_int() == b.as_int(),
        ensures
            a == b,
    ;

    /// Converts into the working domain; never fails.
    fn widen(self) -> (wide: i128)
        ensures
            wide == self.as_int(),
    ;

    /// Converts back from the working domain; `None` exactly when `wide` is
    /// not representable.
    fn narrow(wide: i128) -> (narrowed: Option<Self>)
        ensures
            narrowed.is_some() == Self::representable(wide as int),
            narrowed matches Some(value) ==> value.as_int() == wide,
    ;

    /// The value that stands for one: the step of a slider unless another is
    /// set.
    fn unit() -> (one: Self)
        ensures
            one.as_int() == 1,
    ;
}

/// The integer that an optional value stands for, if there is a value.
pub open spec fn int_of<T: Numeric>(value: Option<T>) -> Option<int> {
    match value {
        Some(value) => Some(value.as_int()),
        None => None,
    }
}

/// What is left of a number in the working domain after the conversion back to
/// `T`: the number itself where `T` can represent it, otherwise nothing.
pub open spec fn narrowed<T: Numeric>(wide: Option<int>) -> Option<int> {
    match wide {
        Some(n) => if T::representable(n) {
            Some(n)
        } else {
            None
        },
        None => None,
    }
}

/// `num_traits::FromPrimitive::from_i128` for `u8`: the same number as a
/// `u8` where it lies between zero and `u8::MAX`, otherwise `None`.
#[verifier::external_body]
fn u8_from_i128(wide: i128) -> (narrowed: Option<u8>)
    ensures
        narrowed == (if 0 <= wide <= u8::MAX {
            Some(wide as u8)
        } else {
            None
        }),
{
    num_traits::FromPrimitive::from_i128(wide)
}

impl Numeric for u8 {
    open spec fn as_int(self) -> int {
        self as int
    }

    open spec fn representable(n: int) -> bool {
        0 <= n <= u8::MAX
    }

    proof fn lemma_in_domain(self) {
    }

    proof fn lemma_no_gaps(low: int, n: int, high: int) {
    }

    proof fn lemma_injective(a: Self, b: Self) {
    }

    fn widen(self) -> (wide: i128) {
        self as i128
    }

    fn narrow(wide: i128) -> (narrowed: Option<Self>) {
        u8_from_i128(wide)
    }

    fn unit() -> (one: Self) {
        1
    }
}

/// `num_traits::FromPrimitive::from_i128` for `u16`: the same number as a
/// `u16` where it lies between zero and `u16::MAX`, otherwise `None`.
#[verifier::external_body]
fn u16_from_i128(wide: i128) -> (narrowed: Option<u16>)
    ensures
        narrowed == (if 0 <= wide <= u16::MAX {
            Some(wide as u16)
        } else {
            None
        }),
{
    num_traits::FromPrimitive::from_i128(wide)
}

impl Numeric for u16 {
    open spec fn as_int(self) -> int {
        self as int
    }

    open spec fn representable(n: int) -> bool {
        0 <= n <= u16::MAX
    }

    proof fn lemma_in_domain(self) {
    }

    proof fn lemma_no_gaps(low: int, n: int, high: int) {
    }

    proof fn lemma_injective(a: Self, b: Self) {
    }

    fn widen(self) -> (wide: i128) {
        self as i128
    }

    fn narrow(wide: i128) -> (narrowed: Option<Self>) {
        u16_from_i128(wide)
    }

    fn unit() -> (one: Self) {
        1
    }
}

/// `num_traits::FromPrimitive::from_i128` for `u32`: the same number as a
/// `u32` where it lies between zero and `u32::MAX`, otherwise `None`.
#[verifier::external_body]
fn u32_from_i128(wide: i128) -> (narrowed: Option<u32>)
    ensures
        narrowed == (if 0 <= wide <= u32::MAX {
            Some(wide as u32)
        } else {
            None
        }),
{
    num_traits::FromPrimitive::from_i128(wide)
}

impl Numeric for u32 {
    open spec fn as_int(self) -> int {
        self as int
    }

    open spec fn representable(n: int) -> bool {
        0 <= n <= u32::MAX
    }

    proof fn lemma_in_domain(self) {
    }

    proof fn lemma_no_gaps(low: int, n: int, high: int) {
    }

    proof fn lemma_injective(a: Self, b: Self) {
    }

    fn widen(self) -> (wide: i128) {
        self as i128
    }

    fn narrow(wide: i128) -> (narrowed: Option<Self>) {
        u32_from_i128(wide)
    }

    fn unit() -> (one: Self) {
        1
    }
}

/// `num_traits::FromPrimitive::from_i128` for `u64`: the same number as a
/// `u64` where it lies between zero and `u64::MAX`, otherwise `None`.
#[verifier::external_body]
fn u64_from_i128(wide: i128) -> (narrowed: Option<u64>)
    ensures
        narrowed == (if 0 <= wide <= u64::MAX {
            Some(wide as u64)
        } else {
            None
        }),
{
    num_traits::FromPrimitive::from_i128(wide)
}

impl Numeric for u64 {
    open spec fn as_int(self) -> int {
        self as int
    }

    open spec fn representable(n: int) -> bool {
        0 <= n <= u64::MAX
    }

    proof fn lemma_in_domain(self) {
    }

    proof fn lemma_no_gaps(low: int, n: int, high: int) {
    }

    proof fn lemma_injective(a: Self, b: Self) {
    }

    fn widen(self) -> (wide: i128) {
        self as i128
    }

    fn narrow(wide: i128) -> (narrowed: Option<Self>) {
        u64_from_i128(wide)
    }

    fn unit() -> (one: Self) {
        1
    }
}

/// `num_traits::FromPrimitive::from_i128` for `i16`: the same number as a
/// `i16` where it lies between `i16::MIN` and `i16::MAX`, otherwise `None`.
#[verifier::external_body]
fn i16_from_i128(wide: i128) -> (narrowed: Option<i16>)
    ensures
        narrowed == (if i16::MIN <= wide <= i16::MAX {
            Some(wide as i16)
        } else {
            None
        }),
{
    num_traits::FromPrimitive::from_i128(wide)
}

impl Numeric for i16 {
    open spec fn as_int(self) -> int {
        self as int
    }

    open spec fn representable(n: int) -> bool {
        i16::MIN <= n <= i16::MAX
    }

    proof fn lemma_in_domain(self) {
    }

    proof fn lemma_no_gaps(low: int, n: int, high: int) {
    }

    proof fn lemma_injective(a: Self, b: Self) {
    }

    fn widen(self) -> (wide: i128) {
        self as i128
    }

    fn narrow(wide: i128) -> (narrowed: Option<Self>) {
        i16_from_i128(wide)
    }

    fn unit() -> (one: Self) {
        1
    }
}

/// `num_traits::FromPrimitive::from_i128` for `i32`: the same number as a
/// `i32` where it lies between `i32::MIN` and `i32::MAX`, otherwise `None`.
#[verifier::external_body]
fn i32_from_i128(wide: i128) -> (narrowed: Option<i32>)
    ensures
        narrowed == (if i32::MIN <= wide <= i32::MAX {
            Some(wide as i32)
        } else {
            None
        }),
{
    num_traits::FromPrimitive::from_i128(wide)
}

impl Numeric for i32 {
    open spec fn as_int(self) -> int {
        self as int
    }

    open spec fn representable(n: int) -> bool {
        i32::MIN <= n <= i32::MAX
    }

    proof fn lemma_in_domain(self) {
    }

    proof fn lemma_no_gaps(low: int, n: int, high: int) {
    }

    proof fn lemma_injective(a: Self, b: Self) {
    }

    fn widen(self) -> (wide: i128) {
        self as i128
    }

    fn narrow(wide: i128) -> (narrowed: Option<Self>) {
        i32_from_i128(wide)
    }

    fn unit() -> (one: Self) {
        1
    }
}

/// `num_traits::FromPrimitive::from_i128` for `i64`: the same number as a
/// `i64` where it lies between `i64::MIN` and `i64::MAX`, otherwise `None`.
#[verifier::external_body]
fn i64_from_i128(wide: i128) -> (narrowed: Option<i64>)
    ensures
        narrowed == (if i64::MIN <= wide <= i64::MAX {
            Some(wide as i64)
        } else {
            None
        }),
{
    num_traits::FromPrimitive::from_i128(wide)
}

impl Numeric for i64 {
    open spec fn as_int(self) -> int {
        self as int
    }

    open spec fn representable(n: int) -> bool {
        i64::MIN <= n <= i64::MAX
    }

    proof fn lemma_in_domain(self) {
    }

    proof fn lemma_no_gaps(low: int, n: int, high: int) {
    }

    proof fn lemma_injective(a: Self, b: Self) {
    }

    fn widen(self) -> (wide: i128) {
        self as i128
    }

    fn narrow(wide: i128) -> (narrowed: Option<Self>) {
        i64_from_i128(wide)
    }

    fn unit() -> (one: Self) {
        1
    }
}

} // verus!
