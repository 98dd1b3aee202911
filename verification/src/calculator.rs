//! A two-operand integer calculator.

use vstd::math::abs;
use vstd::prelude::*;
use crate::text::{decimal, decimal_i64};

verus! {

/// The quotient of `a` by `b`, rounded towards zero: the quotient of the
/// magnitudes, with the sign of the exact quotient. `b` is not zero.
pub open spec fn truncated_quotient(a: int, b: int) -> int {
    let magnitude = (abs(a) / abs(b)) as int;
    if (a >= 0) == (b > 0) {
        magnitude
    } else {
        -magnitude
    }
}

/// The truncated quotient is no larger in magnitude than the dividend, and
/// it is the quotient that executable division of signed integers computes.
proof fn lemma_truncated_quotient(a: int, b: int)
    requires
        b != 0,
    ensures
        -abs(a) <= truncated_quotient(a, b) <= abs(a),
        truncated_quotient(a, b) == if a >= 0 {
            a / b
        } else {
            -((-a) / b)
        },
{
    let x = abs(a) as int;
    let y = abs(b) as int;
    assert(0 <= x / y <= x) by (nonlinear_arith)
        requires
            x >= 0,
            y > 0,
    ;
    if b < 0 {
        assert(x / b == -(x / (-b))) by (nonlinear_arith)
            requires
                x >= 0,
                b < 0,
        ;
    }
}

/// Two operands, `m1` on the left and `m2` on the right.
#[derive(Debug)]
pub struct Calculator {
    pub m1: i32,
    pub m2: i32,
}

/// Addition and subtraction of two operands.
pub trait AdditiveOperations {
    /// The sum of the operands, as an integer.
    spec fn sum(&self) -> int;

    /// The left operand less the right one, as an integer.
    spec fn difference(&self) -> int;

    /// The sum, where it fits.
    fn add(&self) -> (r: i32)
        requires
            i32::MIN <= self.sum() <= i32::MAX,
        ensures
            r == self.sum(),
    ;

    /// The difference, where it fits.
    fn subtract(&self) -> (r: i32)
        requires
            i32::MIN <= self.difference() <= i32::MAX,
        ensures
            r == self.difference(),
    ;
}

/// Multiplication and division of two operands.
pub trait MultiplicativeOperations {
    /// The product of the operands, as an integer.
    spec fn product(&self) -> int;

    /// The left operand divided by the right one and rounded towards zero,
    /// or `None` where the right operand is zero.
    spec fn quotient(&self) -> Option<int>;

    /// The product, where it fits.
    fn multiply(&self) -> (r: i32)
        requires
            i32::MIN <= self.product() <= i32::MAX,
        ensures
            r == self.product(),
    ;

    /// The quotient, or `None` for a division by zero.
    fn divide(&self) -> (r: Option<i32>)
        requires
            self.quotient() matches Some(q) ==> i32::MIN <= q <= i32::MAX,
        ensures
            match r {
                Some(q) => self.quotient() == Some(q as int),
                None => self.quotient() is None,
            },
    ;
}

/// The bitwise operations on two operands.
pub trait BinaryOperations {
    /// The operands, left and right.
    spec fn operands(&self) -> (i32, i32);

    fn bitwise_and(&self) -> (r: i32)
        ensures
            r == self.operands().0 & self.operands().1,
    ;

    fn bitwise_or(&self) -> (r: i32)
        ensures
            r == self.operands().0 | self.operands().1,
    ;

    fn bitwise_xor(&self) -> (r: i32)
        ensures
            r == self.operands().0 ^ self.operands().1,
    ;
}

impl AdditiveOperations for Calculator {
    open spec fn sum(&self) -> int {
        self.m1 + self.m2
    }

    open spec fn difference(&self) -> int {
        self.m1 - self.m2
    }

    fn add(&self) -> (r: i32) {
        self.m1 + self.m2
    }

    fn subtract(&self) -> (r: i32) {
        self.m1 - self.m2
    }
}

impl MultiplicativeOperations for Calculator {
    open spec fn product(&self) -> int {
        self.m1 * self.m2
    }

    open spec fn quotient(&self) -> Option<int> {
        if self.m2 == 0 {
            None
        } else {
            Some(truncated_quotient(self.m1 as int, self.m2 as int))
        }
    }

    fn multiply(&self) -> (r: i32) {
        self.m1 * self.m2
    }

    fn divide(&self) -> (r: Option<i32>) {
        if self.m2 == 0 {
            None
        } else {
            proof {
                lemma_truncated_quotient(self.m1 as int, self.m2 as int);
            }
            Some(self.m1 / self.m2)
        }
    }
}

impl BinaryOperations for Calculator {
    open spec fn operands(&self) -> (i32, i32) {
        (self.m1, self.m2)
    }

    fn bitwise_and(&self) -> (r: i32) {
        self.m1 & self.m2
    }

    fn bitwise_or(&self) -> (r: i32) {
        self.m1 | self.m2
    }

    fn bitwise_xor(&self) -> (r: i32) {
        self.m1 ^ self.m2
    }
}

impl Calculator {
    /// Whether every result fits in an `i32`, so that each operation can be
    /// asked for.
    pub open spec fn in_range(&self) -> bool {
        &&& i32::MIN <= self.sum() <= i32::MAX
        &&& i32::MIN <= self.difference() <= i32::MAX
        &&& i32::MIN <= self.product() <= i32::MAX
        &&& self.quotient() matches Some(q) ==> i32::MIN <= q <= i32::MAX
    }

    /// What the report says of the division.
    pub open spec fn division_text(&self) -> Seq<char> {
        match self.quotient() {
            Some(q) => decimal(q),
            None => "Division by zero"@,
        }
    }

    /// The report on the two operands: a heading and one line per operation.
    pub open spec fn report(&self) -> Seq<char> {
        "Calculator("@ + decimal(self.m1 as int) + ", "@ + decimal(self.m2 as int)
            + "):\nAddition: "@ + decimal(self.sum()) + "\nSubtraction: "@ + decimal(
            self.difference(),
        ) + "\nMultiplication: "@ + decimal(self.product()) + "\nDivision: "@
            + self.division_text() + "\nAND: "@ + decimal((self.m1 & self.m2) as int) + "\nOR: "@
            + decimal((self.m1 | self.m2) as int) + "\nXOR: "@ + decimal(
            (self.m1 ^ self.m2) as int,
        )
    }

    /// Whether every result fits in an `i32`.
    pub fn results_fit(&self) -> (b: bool)
        ensures
            b == self.in_range(),
    {
        let a = self.m1 as i64;
        let b = self.m2 as i64;
        assert(-0x4000_0000_0000_0000 <= a * b <= 0x4000_0000_0000_0000) by (nonlinear_arith)
            requires
                -0x8000_0000 <= a <= 0x7fff_ffff,
                -0x8000_0000 <= b <= 0x7fff_ffff,
        ;
        let lo = i32::MIN as i64;
        let hi = i32::MAX as i64;
        proof {
            if self.m2 != 0 {
                lemma_truncated_quotient(self.m1 as int, self.m2 as int);
            }
        }
        lo <= a + b && a + b <= hi && lo <= a - b && a - b <= hi && lo <= a * b && a * b <= hi && !(
        self.m1 == i32::MIN && self.m2 == -1)
    }

    /// Writes the report.
    pub fn describe(&self) -> (text: String)
        requires
            self.in_range(),
        ensures
            text@ == self.report(),
    {
        let division = match self.divide() {
            Some(q) => decimal_i64(q as i64),
            None => "Division by zero".to_owned(),
        };
        let mut text = "Calculator(".to_owned();
        text.append(decimal_i64(self.m1 as i64).as_str());
        text.append(", ");
        text.append(decimal_i64(self.m2 as i64).as_str());
        text.append("):\nAddition: ");
        text.append(decimal_i64(self.add() as i64).as_str());
        text.append("\nSubtraction: ");
        text.append(decimal_i64(self.subtract() as i64).as_str());
        text.append("\nMultiplication: ");
        text.append(decimal_i64(self.multiply() as i64).as_str());
        text.append("\nDivision: ");
        text.append(division.as_str());
        text.append("\nAND: ");
        text.append(decimal_i64(self.bitwise_and() as i64).as_str());
        text.append("\nOR: ");
        text.append(decimal_i64(self.bitwise_or() as i64).as_str());
        text.append("\nXOR: ");
        text.append(decimal_i64(self.bitwise_xor() as i64).as_str());
        text
    }
}

} // verus!
