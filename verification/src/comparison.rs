//! Comparisons between two sources.

use crate::condition::{
    complement, lemma_and_outcome, lemma_or_outcome, BooleanExpr, IoCondition,
};
use crate::io::{IoError, IoState, IoStateView, SyncIoSystem};
use crate::source::{lemma_source_in_memory, Source};
use crate::value::Value;
use vstd::prelude::*;

verus! {

/// How two values are compared.
#[derive(Debug, Clone, Copy, PartialEq, Eq)]
pub enum Comparator {
    /// `<`
    Less,
    /// `<=`
    LessOrEqual,
    /// `>`
    Greater,
    /// `>=`
    GreaterOrEqual,
    /// `==`
    Equal,
    /// `!=`
    NotEqual,
}

impl Comparator {
    /// Whether `left` stands in this relation to `right`.
    ///
    /// Values of different kinds, and a decimal that is not a number with
    /// anything, are neither ordered nor equal: of such a pair only
    /// `NotEqual` holds.
    pub open spec fn holds(self, left: Value, right: Value) -> bool {
        match self {
            Comparator::Less => left.spec_lt(&right),
            Comparator::LessOrEqual => left.spec_lt(&right) || left.same(&right),
            Comparator::Greater => right.spec_lt(&left),
            Comparator::GreaterOrEqual => right.spec_lt(&left) || left.same(&right),
            Comparator::Equal => left.same(&right),
            Comparator::NotEqual => !left.same(&right),
        }
    }

    /// Whether `left` stands in this relation to `right`.
    pub fn eval(self, left: &Value, right: &Value) -> (b: bool)
        ensures
            b == self.holds(*left, *right),
    {
        match self {
            Comparator::Less => left.lt(right),
            Comparator::LessOrEqual => left.lt(right) || *left == *right,
            Comparator::Greater => right.lt(left),
            Comparator::GreaterOrEqual => right.lt(left) || *left == *right,
            Comparator::Equal => *left == *right,
            Comparator::NotEqual => !(*left == *right),
        }
    }
}

/// How the six comparators hang together: `NotEqual` is the opposite of
/// `Equal`; the two that allow equality hold where the strict one or `Equal`
/// holds; `Greater` is `Less` with the sides exchanged. Of two values that
/// can be compared, `LessOrEqual` is the opposite of `Greater`; of two that
/// cannot, only `NotEqual` holds.
pub proof fn lemma_comparators_agree(left: Value, right: Value)
    ensures
        Comparator::NotEqual.holds(left, right) == !Comparator::Equal.holds(left, right),
        Comparator::LessOrEqual.holds(left, right) == (Comparator::Less.holds(left, right)
            || Comparator::Equal.holds(left, right)),
        Comparator::GreaterOrEqual.holds(left, right) == (Comparator::Greater.holds(left, right)
            || Comparator::Equal.holds(left, right)),
        Comparator::Greater.holds(left, right) == Comparator::Less.holds(right, left),
        left.comparable(&right) ==> Comparator::LessOrEqual.holds(left, right)
            == !Comparator::Greater.holds(left, right),
        !left.comparable(&right) ==> !Comparator::LessOrEqual.holds(left, right)
            && !Comparator::GreaterOrEqual.holds(left, right) && Comparator::NotEqual.holds(
            left,
            right,
        ),
{
}

/// A comparison of two values, each taken from its source at the time of
/// evaluation.
#[derive(Debug, Clone, PartialEq)]
pub struct Comparison {
    pub left: Source,
    pub cmp: Comparator,
    pub right: Source,
}

impl<S: SyncIoSystem> IoCondition<S> for Comparison {
    /// The left source is resolved first, then the right one, both against
    /// the same system; then the comparator is applied to the two values.
    /// Where the left source fails, that failure is the result and the right
    /// source is not resolved; where the right source fails, its failure is
    /// the result.
    open spec fn eval_outcome(&self, pre: &S, post: &S, result: Result<bool, IoError>) -> bool {
        exists|mid: S, left: Result<Value, IoError>|
            {
                &&& #[trigger] self.left.resolve_outcome(pre, &mid, left)
                &&& match left {
                    Ok(l) => exists|right: Result<Value, IoError>|
                        {
                            &&& #[trigger] self.right.resolve_outcome(&mid, post, right)
                            &&& result == match right {
                                Ok(r) => Ok::<bool, IoError>(self.cmp.holds(l, r)),
                                Err(error) => Err(error),
                            }
                        },
                    Err(error) => *post == mid && result == Err::<bool, IoError>(error),
                }
            }
    }

    fn eval(&self, io: &mut S) -> (result: Result<bool, IoError>) {
        let left = match self.left.resolve(io) {
            Ok(value) => value,
            Err(error) => {
                return Err(error);
            },
        };
        match self.right.resolve(io) {
            Ok(right) => Ok(self.cmp.eval(&left, &right)),
            Err(error) => Err(error),
        }
    }
}

impl Comparison {
    /// What the comparison evaluates to against the in-memory state
    /// `state`.
    pub open spec fn value_in(&self, state: IoStateView) -> Result<bool, IoError> {
        match self.left.value_in(state) {
            Ok(l) => match self.right.value_in(state) {
                Ok(r) => Ok(self.cmp.holds(l, r)),
                Err(error) => Err(error),
            },
            Err(error) => Err(error),
        }
    }
}

impl BooleanExpr<Comparison> {
    /// What the expression evaluates to against the in-memory state
    /// `state`: the right operand of an `And` counts only where the left one
    /// is true, that of an `Or` only where the left one is false.
    pub open spec fn value_in(&self, state: IoStateView) -> Result<bool, IoError>
        decreases self,
    {
        match self {
            BooleanExpr::True => Ok(true),
            BooleanExpr::False => Ok(false),
            BooleanExpr::And(a, b) => match a.value_in(state) {
                Ok(true) => b.value_in(state),
                first => first,
            },
            BooleanExpr::Or(a, b) => match a.value_in(state) {
                Ok(false) => b.value_in(state),
                first => first,
            },
            BooleanExpr::Not(x) => complement(x.value_in(state)),
            BooleanExpr::Eval(comparison) => comparison.value_in(state),
        }
    }
}

/// Against the in-memory state a comparison evaluates to one result only,
/// the one that `value_in` gives, and evaluating it changes nothing.
pub proof fn lemma_comparison_in_memory(
    comparison: Comparison,
    pre: IoState,
    post: IoState,
    result: Result<bool, IoError>,
)
    ensures
        comparison.eval_outcome(&pre, &post, result) ==> post@ == pre@ && result
            == comparison.value_in(pre@),
        comparison.eval_outcome(&pre, &pre, comparison.value_in(pre@)),
{
    if comparison.eval_outcome(&pre, &post, result) {
        let (mid, left): (IoState, Result<Value, IoError>) = choose|
            mid: IoState,
            left: Result<Value, IoError>,
        |
            {
                &&& #[trigger] comparison.left.resolve_outcome(&pre, &mid, left)
                &&& match left {
                    Ok(l) => exists|right: Result<Value, IoError>|
                        {
                            &&& #[trigger] comparison.right.resolve_outcome(&mid, &post, right)
                            &&& result == match right {
                                Ok(r) => Ok::<bool, IoError>(comparison.cmp.holds(l, r)),
                                Err(error) => Err(error),
                            }
                        },
                    Err(error) => post == mid && result == Err::<bool, IoError>(error),
                }
            };
        lemma_source_in_memory(comparison.left, pre, mid, left);
        if let Ok(l) = left {
            let right: Result<Value, IoError> = choose|right: Result<Value, IoError>|
                {
                    &&& #[trigger] comparison.right.resolve_outcome(&mid, &post, right)
                    &&& result == match right {
                        Ok(r) => Ok::<bool, IoError>(comparison.cmp.holds(l, r)),
                        Err(error) => Err(error),
                    }
                };
            lemma_source_in_memory(comparison.right, mid, post, right);
        }
    }
    lemma_source_in_memory(comparison.left, pre, pre, comparison.left.value_in(pre@));
    lemma_source_in_memory(comparison.right, pre, pre, comparison.right.value_in(pre@));
}

/// Against the in-memory state an expression over comparisons evaluates to
/// one result only, the one that `value_in` gives, and evaluating it
/// changes nothing: evaluation is a function of the expression and the
/// state.
pub proof fn lemma_expr_in_memory(
    expr: BooleanExpr<Comparison>,
    pre: IoState,
    post: IoState,
    result: Result<bool, IoError>,
)
    ensures
        expr.eval_outcome(&pre, &post, result) ==> post@ == pre@ && result == expr.value_in(pre@),
        expr.eval_outcome(&pre, &pre, expr.value_in(pre@)),
    decreases expr,
{
    match expr {
        BooleanExpr::True => {},
        BooleanExpr::False => {},
        BooleanExpr::And(a, b) => {
            lemma_and_outcome(*a, *b, pre, post, result);
            if expr.eval_outcome(&pre, &post, result) {
                let (mid, first): (IoState, Result<bool, IoError>) = choose|
                    mid: IoState,
                    first: Result<bool, IoError>,
                |
                    {
                        &&& #[trigger] a.eval_outcome(&pre, &mid, first)
                        &&& if first == Ok::<bool, IoError>(true) {
                            b.eval_outcome(&mid, &post, result)
                        } else {
                            post == mid && result == first
                        }
                    };
                lemma_expr_in_memory(*a, pre, mid, first);
                lemma_expr_in_memory(*b, mid, post, result);
            }
            lemma_expr_in_memory(*a, pre, pre, a.value_in(pre@));
            lemma_expr_in_memory(*b, pre, pre, b.value_in(pre@));
            lemma_and_outcome(*a, *b, pre, pre, expr.value_in(pre@));
        },
        BooleanExpr::Or(a, b) => {
            lemma_or_outcome(*a, *b, pre, post, result);
            if expr.eval_outcome(&pre, &post, result) {
                let (mid, first): (IoState, Result<bool, IoError>) = choose|
                    mid: IoState,
                    first: Result<bool, IoError>,
                |
                    {
                        &&& #[trigger] a.eval_outcome(&pre, &mid, first)
                        &&& if first == Ok::<bool, IoError>(false) {
                            b.eval_outcome(&mid, &post, result)
                        } else {
                            post == mid && result == first
                        }
                    };
                lemma_expr_in_memory(*a, pre, mid, first);
                lemma_expr_in_memory(*b, mid, post, result);
            }
            lemma_expr_in_memory(*a, pre, pre, a.value_in(pre@));
            lemma_expr_in_memory(*b, pre, pre, b.value_in(pre@));
            lemma_or_outcome(*a, *b, pre, pre, expr.value_in(pre@));
        },
        BooleanExpr::Not(x) => {
            lemma_expr_in_memory(*x, pre, post, complement(result));
            lemma_expr_in_memory(*x, pre, pre, x.value_in(pre@));
            assert(complement(complement(result)) == result);
            assert(complement(complement(x.value_in(pre@))) == x.value_in(pre@));
        },
        BooleanExpr::Eval(comparison) => {
            lemma_comparison_in_memory(comparison, pre, post, result);
        },
    }
}

} // verus!
