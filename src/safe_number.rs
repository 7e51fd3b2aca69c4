use vstd::arithmetic::div_mod::lemma_fundamental_div_mod;
use vstd::arithmetic::div_mod::lemma_fundamental_div_mod_converse;
use vstd::prelude::*;
use vstd::string::StringSliceAdditionalSpecFns;

verus! {

/// Why an arithmetic step on fixed-point numbers was refused.
#[derive(Clone, Copy, Debug, PartialEq, Eq, Structural)]
pub enum MathError {
    /// A product, a scale or a result does not fit its integer type.
    Overflow,
    /// The divisor is zero.
    DivisionByZero,
    /// The text is not a plain decimal literal.
    InvalidLiteral,
}

/// `10^n`.
pub open spec fn pow10(n: nat) -> nat
    decreases n,
{
    if n == 0 {
        1
    } else {
        10 * pow10((n - 1) as nat)
    }
}

/// `a / b` rounded to the nearest integer, halves rounded up.
pub open spec fn round_div(a: nat, b: nat) -> nat
    recommends
        b > 0,
{
    ((2 * a + b) / (2 * b)) as nat
}

pub proof fn lemma_pow10_positive(n: nat)
    ensures
        pow10(n) >= 1,
    decreases n,
{
    if n > 0 {
        lemma_pow10_positive((n - 1) as nat);
    }
}

pub proof fn lemma_pow10_monotonic(a: nat, b: nat)
    requires
        a <= b,
    ensures
        pow10(a) <= pow10(b),
    decreases b,
{
    if a < b {
        lemma_pow10_monotonic(a, (b - 1) as nat);
        lemma_pow10_positive((b - 1) as nat);
    }
}

/// `10^n`, or `None` where it exceeds `u128::MAX`.
pub fn checked_pow10(n: u32) -> (r: Option<u128>)
    ensures
        r is Some <==> pow10(n as nat) <= u128::MAX,
        r matches Some(v) ==> v == pow10(n as nat),
{
    let mut acc: u128 = 1;
    let mut i: u32 = 0;
    while i < n
        invariant
            i <= n,
            acc == pow10(i as nat),
        decreases n - i,
    {
        if acc > u128::MAX / 10 {
            proof {
                lemma_pow10_monotonic((i + 1) as nat, n as nat);
            }
            return None;
        }
        acc = acc * 10;
        i = i + 1;
    }
    Some(acc)
}

/// `a / b` rounded to the nearest integer, halves rounded up.
pub fn rounded_div(a: u128, b: u128) -> (r: u128)
    requires
        b > 0,
    ensures
        r == round_div(a as nat, b as nat),
{
    let q = a / b;
    let m = a % b;
    proof {
        lemma_fundamental_div_mod(a as int, b as int);
    }
    if m >= b - m {
        proof {
            assert(2 * a + b == (q + 1) * (2 * b) + (2 * m - b)) by (nonlinear_arith)
                requires
                    a == b * q + m,
            ;
            lemma_fundamental_div_mod_converse(
                (2 * a + b) as int,
                (2 * b) as int,
                (q + 1) as int,
                (2 * m - b) as int,
            );
            assert(q + 1 <= a) by (nonlinear_arith)
                requires
                    a == b * q + m,
                    b >= 1,
                    m >= 1,
            ;
        }
        q + 1
    } else {
        proof {
            assert(2 * a + b == q * (2 * b) + (2 * m + b)) by (nonlinear_arith)
                requires
                    a == b * q + m,
            ;
            lemma_fundamental_div_mod_converse(
                (2 * a + b) as int,
                (2 * b) as int,
                q as int,
                (2 * m + b) as int,
            );
        }
        q
    }
}

/// `value / 10^precision` rounded to the nearest integer (halves up); the
/// scale `10^precision` must fit in 128 bits.
pub open spec fn rounded_value(value: u128, precision: u32) -> Result<nat, MathError> {
    if pow10(precision as nat) > u128::MAX {
        Err(MathError::Overflow)
    } else {
        Ok(round_div(value as nat, pow10(precision as nat)))
    }
}

/// A non-negative decimal number: `value / 10^precision`.
///
/// Two numbers are equal only when both fields are: `1.0` (value 10,
/// precision 1) and `1` (value 1, precision 0) are different numbers here.
#[derive(Clone, Copy, Debug, PartialEq, Eq, Structural)]
pub struct SafeNumber {
    /// The number scaled by `10^precision`.
    pub value: u128,
    /// How many decimal digits of `value` lie after the point.
    pub precision: u32,
}

impl SafeNumber {
    /// Builds a number from its scaled integer and its digit count.
    pub fn from_parts(value: u128, precision: u32) -> (r: SafeNumber)
        ensures
            r.value == value,
            r.precision == precision,
    {
        SafeNumber { value, precision }
    }

    /// Rounds the number to the nearest integer of type `U`.
    pub fn unwrap<U: Unwrap>(&self) -> (r: Result<U, MathError>)
        ensures
            r == U::spec_unwrap(self.value, self.precision),
    {
        U::unwrap(self.value, self.precision)
    }
}

/// The integer types that a fixed-point number can be rounded into.
pub trait Unwrap: Sized {
    /// The integer nearest to `value / 10^precision`, where it is of this type.
    spec fn spec_unwrap(value: u128, precision: u32) -> Result<Self, MathError>;

    fn unwrap(value: u128, precision: u32) -> (r: Result<Self, MathError>)
        ensures
            r == Self::spec_unwrap(value, precision),
    ;
}

impl Unwrap for u128 {
    open spec fn spec_unwrap(value: u128, precision: u32) -> Result<u128, MathError> {
        match rounded_value(value, precision) {
            Ok(n) => Ok(n as u128),
            Err(e) => Err(e),
        }
    }

    fn unwrap(value: u128, precision: u32) -> (r: Result<u128, MathError>) {
        match checked_pow10(precision) {
            None => Err(MathError::Overflow),
            Some(scale) => {
                proof {
                    lemma_pow10_positive(precision as nat);
                }
                Ok(rounded_div(value, scale))
            },
        }
    }
}

impl Unwrap for u64 {
    open spec fn spec_unwrap(value: u128, precision: u32) -> Result<u64, MathError> {
        match rounded_value(value, precision) {
            Ok(n) => if n <= u64::MAX {
                Ok(n as u64)
            } else {
                Err(MathError::Overflow)
            },
            Err(e) => Err(e),
        }
    }

    fn unwrap(value: u128, precision: u32) -> (r: Result<u64, MathError>) {
        match checked_pow10(precision) {
            None => Err(MathError::Overflow),
            Some(scale) => {
                proof {
                    lemma_pow10_positive(precision as nat);
                }
                let n = rounded_div(value, scale);
                if n <= u64::MAX as u128 {
                    Ok(n as u64)
                } else {
                    Err(MathError::Overflow)
                }
            },
        }
    }
}

/// Arithmetic between a fixed-point number and an integer.
pub trait Math: Sized {
    /// What `mul` returns.
    spec fn spec_mul(&self, other: u128) -> Result<Self, MathError>;

    /// What `div` returns.
    spec fn spec_div(&self, other: u128) -> Result<Self, MathError>;

    /// What `inverse_div` returns.
    spec fn spec_inverse_div(&self, numerator: u128) -> Result<Self, MathError>;

    /// The number times `other`, at the same precision.
    fn mul(&self, other: u128) -> (r: Result<Self, MathError>)
        ensures
            r == self.spec_mul(other),
    ;

    /// The number divided by `other`, truncated at the same precision.
    fn div(&self, other: u128) -> (r: Result<Self, MathError>)
        ensures
            r == self.spec_div(other),
    ;

    /// `numerator` divided by the number, truncated at the same precision.
    fn inverse_div(&self, numerator: u128) -> (r: Result<Self, MathError>)
        ensures
            r == self.spec_inverse_div(numerator),
    ;
}

impl Math for SafeNumber {
    open spec fn spec_mul(&self, other: u128) -> Result<SafeNumber, MathError> {
        if self.value * other > u128::MAX {
            Err(MathError::Overflow)
        } else {
            Ok(SafeNumber { value: (self.value * other) as u128, precision: self.precision })
        }
    }

    open spec fn spec_div(&self, other: u128) -> Result<SafeNumber, MathError> {
        if other == 0 {
            Err(MathError::DivisionByZero)
        } else {
            Ok(SafeNumber { value: self.value / other, precision: self.precision })
        }
    }

    /// `numerator / (value / 10^p)` is `numerator * 10^p / value`; scaled by
    /// `10^p` once more it is `numerator * 10^p * 10^p / value`.
    open spec fn spec_inverse_div(&self, numerator: u128) -> Result<SafeNumber, MathError> {
        let scale = pow10(self.precision as nat);
        if self.value == 0 {
            Err(MathError::DivisionByZero)
        } else if scale > u128::MAX || numerator * scale * scale > u128::MAX {
            Err(MathError::Overflow)
        } else {
            Ok(
                SafeNumber {
                    value: (numerator * scale * scale / (self.value as int)) as u128,
                    precision: self.precision,
                },
            )
        }
    }

    fn mul(&self, other: u128) -> (r: Result<SafeNumber, MathError>) {
        match self.value.checked_mul(other) {
            None => Err(MathError::Overflow),
            Some(v) => Ok(SafeNumber { value: v, precision: self.precision }),
        }
    }

    fn div(&self, other: u128) -> (r: Result<SafeNumber, MathError>) {
        if other == 0 {
            Err(MathError::DivisionByZero)
        } else {
            Ok(SafeNumber { value: self.value / other, precision: self.precision })
        }
    }

    fn inverse_div(&self, numerator: u128) -> (r: Result<SafeNumber, MathError>) {
        if self.value == 0 {
            return Err(MathError::DivisionByZero);
        }
        let scale = match checked_pow10(self.precision) {
            None => {
                return Err(MathError::Overflow);
            },
            Some(s) => s,
        };
        proof {
            lemma_pow10_positive(self.precision as nat);
            assert(numerator * scale <= numerator * scale * scale) by (nonlinear_arith)
                requires
                    scale >= 1,
            ;
        }
        let scaled = match numerator.checked_mul(scale) {
            None => {
                return Err(MathError::Overflow);
            },
            Some(v) => v,
        };
        match scaled.checked_mul(scale) {
            None => Err(MathError::Overflow),
            Some(v) => Ok(SafeNumber { value: v / self.value, precision: self.precision }),
        }
    }
}

/// Integers that convert into a fixed-point number with no fractional digit.
pub trait NewSafeNumber: Sized {
    /// The integer's value.
    spec fn spec_integer(self) -> nat;

    /// The integer as a number of precision 0.
    fn new(value: Self) -> (r: SafeNumber)
        ensures
            r.value == value.spec_integer(),
            r.precision == 0,
    ;
}

impl NewSafeNumber for u64 {
    open spec fn spec_integer(self) -> nat {
        self as nat
    }

    fn new(value: u64) -> (r: SafeNumber) {
        SafeNumber { value: value as u128, precision: 0 }
    }
}

impl NewSafeNumber for u128 {
    open spec fn spec_integer(self) -> nat {
        self as nat
    }

    fn new(value: u128) -> (r: SafeNumber) {
        SafeNumber { value, precision: 0 }
    }
}

/// An ASCII decimal digit.
pub open spec fn is_digit(b: u8) -> bool {
    48 <= b <= 57
}

/// `s` holds a decimal point.
pub open spec fn has_point(s: Seq<u8>) -> bool {
    exists|i: int| 0 <= i < s.len() && s[i] == 46
}

/// `s` is a plain decimal literal: ASCII digits with at most one point,
/// which has a digit on each side.
pub open spec fn is_decimal_literal(s: Seq<u8>) -> bool {
    &&& s.len() > 0
    &&& is_digit(s[0])
    &&& is_digit(s[s.len() - 1])
    &&& forall|i: int| 0 <= i < s.len() ==> is_digit(#[trigger] s[i]) || s[i] == 46
    &&& forall|i: int, j: int|
        #![trigger s[i], s[j]]
        0 <= i < j < s.len() && s[i] == 46 ==> s[j] != 46
}

/// The digits of `s`, read as one integer; anything else is skipped.
pub open spec fn digits_value(s: Seq<u8>) -> nat
    decreases s.len(),
{
    if s.len() == 0 {
        0
    } else if is_digit(s.last()) {
        digits_value(s.drop_last()) * 10 + (s.last() - 48) as nat
    } else {
        digits_value(s.drop_last())
    }
}

/// How many digits follow the point of `s`; 0 where it has none.
pub open spec fn fraction_digits(s: Seq<u8>) -> nat
    decreases s.len(),
{
    if s.len() == 0 {
        0
    } else if s.last() == 46 {
        0
    } else if has_point(s.drop_last()) {
        fraction_digits(s.drop_last()) + 1
    } else {
        0
    }
}

/// The number that the decimal literal `s` writes, with as many fractional
/// digits as it prints.
pub open spec fn spec_from_decimal_literal(s: Seq<u8>) -> Result<SafeNumber, MathError> {
    if !is_decimal_literal(s) {
        Err(MathError::InvalidLiteral)
    } else if digits_value(s) > u128::MAX || fraction_digits(s) > u32::MAX {
        Err(MathError::Overflow)
    } else {
        Ok(SafeNumber { value: digits_value(s) as u128, precision: fraction_digits(s) as u32 })
    }
}

pub proof fn lemma_digits_value_prefix(s: Seq<u8>, j: int)
    requires
        0 <= j <= s.len(),
    ensures
        digits_value(s.take(j)) <= digits_value(s),
    decreases s.len() - j,
{
    if j < s.len() {
        lemma_digits_value_prefix(s, j + 1);
        assert(s.take(j + 1).drop_last() =~= s.take(j));
    } else {
        assert(s.take(j) =~= s);
    }
}

impl SafeNumber {
    /// Reads a decimal literal such as `0.00013656`: its digits become the
    /// scaled value, and the digits after its point the precision.
    pub fn from_decimal_literal(text: &str) -> (r: Result<SafeNumber, MathError>)
        ensures
            r == spec_from_decimal_literal(text.spec_bytes()),
    {
        let b = text.as_bytes();
        let n = b.len();
        if n == 0 {
            return Err(MathError::InvalidLiteral);
        }
        let mut seen_point = false;
        let mut i: usize = 0;
        while i < n
            invariant
                n == b@.len(),
                b@ == text.spec_bytes(),
                i <= n,
                i > 0 ==> is_digit(b@[0]),
                seen_point == (exists|k: int| 0 <= k < i && b@[k] == 46),
                forall|k: int| 0 <= k < i ==> is_digit(#[trigger] b@[k]) || b@[k] == 46,
                forall|k: int, j: int|
                    #![trigger b@[k], b@[j]]
                    0 <= k < j < i && b@[k] == 46 ==> b@[j] != 46,
            decreases n - i,
        {
            let c = b[i];
            if c == 46 {
                if seen_point || i == 0 {
                    return Err(MathError::InvalidLiteral);
                }
                seen_point = true;
            } else if c < 48 || c > 57 {
                return Err(MathError::InvalidLiteral);
            }
            i = i + 1;
        }
        if b[n - 1] < 48 || b[n - 1] > 57 {
            return Err(MathError::InvalidLiteral);
        }
        let ghost s = b@;
        assert(is_decimal_literal(s));
        let mut value: u128 = 0;
        let mut frac: usize = 0;
        let mut seen = false;
        i = 0;
        while i < n
            invariant
                n == s.len(),
                s == b@,
                b@ == text.spec_bytes(),
                is_decimal_literal(s),
                i <= n,
                frac <= i,
                value == digits_value(s.take(i as int)),
                frac == fraction_digits(s.take(i as int)),
                seen == has_point(s.take(i as int)),
            decreases n - i,
        {
            let c = b[i];
            let ghost prefix = s.take(i as int);
            let ghost next = s.take(i + 1);
            assert(next.drop_last() =~= prefix);
            assert(next.last() == c);
            if c == 46 {
                assert(has_point(next)) by {
                    assert(next[i as int] == 46);
                }
                seen = true;
            } else {
                assert(has_point(next) == has_point(prefix)) by {
                    if has_point(next) {
                        let k = choose|k: int| 0 <= k < next.len() && next[k] == 46;
                        assert(k < i);
                        assert(prefix[k] == 46);
                    }
                    if has_point(prefix) {
                        let k = choose|k: int| 0 <= k < prefix.len() && prefix[k] == 46;
                        assert(next[k] == 46);
                    }
                }
                assert(is_digit(s[i as int]));
                let digit = (c - 48) as u128;
                assert(digits_value(next) == value * 10 + digit);
                let v = match value.checked_mul(10) {
                    None => None,
                    Some(t) => t.checked_add(digit),
                };
                match v {
                    None => {
                        proof {
                            lemma_digits_value_prefix(s, i + 1);
                        }
                        return Err(MathError::Overflow);
                    },
                    Some(v) => {
                        value = v;
                    },
                }
                if seen {
                    frac = frac + 1;
                }
            }
            i = i + 1;
        }
        assert(s.take(n as int) =~= s);
        if frac > u32::MAX as usize {
            return Err(MathError::Overflow);
        }
        Ok(SafeNumber { value, precision: frac as u32 })
    }
}

} // verus!
