//! The six comparison operators and what each one means on a pair of values.

use vstd::prelude::*;
use vstd::std_specs::cmp::PartialEqSpec;
use vstd::std_specs::cmp::PartialOrdIs;
use vstd::std_specs::cmp::PartialOrdSpec;

verus! {

/// One of the six operators that may stand between the operand list and the
/// right-hand side.
#[derive(Clone, Copy, Debug, PartialEq, Eq, Structural)]
pub enum ComparisonOperator {
    /// `==`
    Equal,
    /// `!=`
    NotEqual,
    /// `<`
    Less,
    /// `<=`
    LessOrEqual,
    /// `>`
    Greater,
    /// `>=`
    GreaterOrEqual,
}

impl ComparisonOperator {
    /// Whether `lhs op rhs` is true, by the type's own `==` and ordering.
    pub open spec fn holds<T: PartialOrd>(self, lhs: T, rhs: T) -> bool {
        match self {
            ComparisonOperator::Equal => lhs.eq_spec(&rhs),
            ComparisonOperator::NotEqual => !lhs.eq_spec(&rhs),
            ComparisonOperator::Less => lhs.is_lt(&rhs),
            ComparisonOperator::LessOrEqual => lhs.is_le(&rhs),
            ComparisonOperator::Greater => lhs.is_gt(&rhs),
            ComparisonOperator::GreaterOrEqual => lhs.is_ge(&rhs),
        }
    }

    /// Whether the type says what this operator computes on it. The integers
    /// do for each of the six, `bool` does for `==` and `!=`; floating point
    /// does for none.
    pub open spec fn specified<T: PartialOrd>(self) -> bool {
        match self {
            ComparisonOperator::Equal | ComparisonOperator::NotEqual => T::obeys_eq_spec(),
            _ => T::obeys_partial_cmp_spec(),
        }
    }

    /// The operator that is true exactly where this one is false, on values
    /// that the type can order.
    pub open spec fn spec_complement(self) -> ComparisonOperator {
        match self {
            ComparisonOperator::Equal => ComparisonOperator::NotEqual,
            ComparisonOperator::NotEqual => ComparisonOperator::Equal,
            ComparisonOperator::Less => ComparisonOperator::GreaterOrEqual,
            ComparisonOperator::LessOrEqual => ComparisonOperator::Greater,
            ComparisonOperator::Greater => ComparisonOperator::LessOrEqual,
            ComparisonOperator::GreaterOrEqual => ComparisonOperator::Less,
        }
    }

    /// The source text of the operator.
    pub open spec fn spec_spelling(self) -> Seq<char> {
        match self {
            ComparisonOperator::Equal => "=="@,
            ComparisonOperator::NotEqual => "!="@,
            ComparisonOperator::Less => "<"@,
            ComparisonOperator::LessOrEqual => "<="@,
            ComparisonOperator::Greater => ">"@,
            ComparisonOperator::GreaterOrEqual => ">="@,
        }
    }

    /// Evaluates `lhs op rhs` with the operator of the type itself.
    pub fn compare<T: PartialOrd>(self, lhs: &T, rhs: &T) -> (outcome: bool)
        ensures
            self.specified::<T>() ==> outcome == self.holds(*lhs, *rhs),
    {
        match self {
            ComparisonOperator::Equal => *lhs == *rhs,
            ComparisonOperator::NotEqual => *lhs != *rhs,
            ComparisonOperator::Less => *lhs < *rhs,
            ComparisonOperator::LessOrEqual => *lhs <= *rhs,
            ComparisonOperator::Greater => *lhs > *rhs,
            ComparisonOperator::GreaterOrEqual => *lhs >= *rhs,
        }
    }

    #[verifier::when_used_as_spec(spec_complement)]
    pub fn complement(self) -> (other: ComparisonOperator)
        ensures
            other == self.spec_complement(),
    {
        match self {
            ComparisonOperator::Equal => ComparisonOperator::NotEqual,
            ComparisonOperator::NotEqual => ComparisonOperator::Equal,
            ComparisonOperator::Less => ComparisonOperator::GreaterOrEqual,
            ComparisonOperator::LessOrEqual => ComparisonOperator::Greater,
            ComparisonOperator::Greater => ComparisonOperator::LessOrEqual,
            ComparisonOperator::GreaterOrEqual => ComparisonOperator::Less,
        }
    }

    /// The source text of the operator.
    pub fn spelling(self) -> (text: &'static str)
        ensures
            text@ == self.spec_spelling(),
    {
        match self {
            ComparisonOperator::Equal => "==",
            ComparisonOperator::NotEqual => "!=",
            ComparisonOperator::Less => "<",
            ComparisonOperator::LessOrEqual => "<=",
            ComparisonOperator::Greater => ">",
            ComparisonOperator::GreaterOrEqual => ">=",
        }
    }
}

/// Two values that the type's ordering puts in an order: one is less than
/// the other, or greater, or they are equal. Every pair of integers is such
/// a pair; a floating-point number and a NaN are not.
pub open spec fn comparable<T: PartialOrd>(lhs: T, rhs: T) -> bool {
    lhs.partial_cmp_spec(&rhs) is Some
}

/// On comparable values an operator holds exactly where its complement does
/// not.
pub proof fn complement_negates<T: PartialOrd>(op: ComparisonOperator, lhs: T, rhs: T)
    requires
        comparable(lhs, rhs),
    ensures
        op.spec_complement().holds(lhs, rhs) == !op.holds(lhs, rhs),
        op.spec_complement().spec_complement() == op,
{
}

/// Every two integers are comparable, and the operators mean on them what
/// they mean in arithmetic.
pub proof fn integers_compare(op: ComparisonOperator, lhs: i64, rhs: i64)
    ensures
        comparable(lhs, rhs),
        op.specified::<i64>(),
        op.holds(lhs, rhs) == match op {
            ComparisonOperator::Equal => lhs == rhs,
            ComparisonOperator::NotEqual => lhs != rhs,
            ComparisonOperator::Less => lhs < rhs,
            ComparisonOperator::LessOrEqual => lhs <= rhs,
            ComparisonOperator::Greater => lhs > rhs,
            ComparisonOperator::GreaterOrEqual => lhs >= rhs,
        },
{
}

} // verus!
