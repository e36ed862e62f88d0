//! Conditions over the state of an I/O system, and boolean expressions that
//! combine them.

use crate::io::{IoError, SyncIoSystem};
use vstd::prelude::*;

verus! {

/// A condition that can be evaluated against an I/O system of type `S`.
///
/// Evaluation may read gates, so like the reads themselves it is described
/// by a relation between the system before, the system after and the
/// result. A condition that does not say otherwise promises nothing: any
/// outcome may be.
pub trait IoCondition<S: SyncIoSystem> {
    /// Whether evaluating `self` against a system in state `pre` may leave
    /// the system in state `post` and return `result`.
    open spec fn eval_outcome(&self, pre: &S, post: &S, result: Result<bool, IoError>) -> bool {
        true
    }

    /// Evaluate the condition against `io`.
    fn eval(&self, io: &mut S) -> (result: Result<bool, IoError>)
        ensures
            self.eval_outcome(old(io), final(io), result),
    ;
}

/// A boolean expression
#[derive(Debug, PartialEq)]
pub enum BooleanExpr<T> {
    /// `true`
    True,
    /// `false`
    False,
    /// The logical AND of two expressions.
    And(Box<BooleanExpr<T>>, Box<BooleanExpr<T>>),
    /// The logical OR of two expressions.
    Or(Box<BooleanExpr<T>>, Box<BooleanExpr<T>>),
    /// The logical complement of the contained expression.
    Not(Box<BooleanExpr<T>>),
    /// Evaluate expr of type `T`
    /// This expression represents a value that is not known until evaluation time.
    Eval(T),
}

impl<T: Clone> BooleanExpr<T> {
    /// Whether `copy` has the shape of `self`, with a clone of each leaf in
    /// the leaf's place.
    pub open spec fn cloned_as(&self, copy: &BooleanExpr<T>) -> bool
        decreases self,
    {
        match (self, copy) {
            (BooleanExpr::True, BooleanExpr::True) => true,
            (BooleanExpr::False, BooleanExpr::False) => true,
            (BooleanExpr::And(a, b), BooleanExpr::And(c, d)) => a.cloned_as(c) && b.cloned_as(d),
            (BooleanExpr::Or(a, b), BooleanExpr::Or(c, d)) => a.cloned_as(c) && b.cloned_as(d),
            (BooleanExpr::Not(x), BooleanExpr::Not(y)) => x.cloned_as(y),
            (BooleanExpr::Eval(leaf), BooleanExpr::Eval(other)) => cloned::<T>(*leaf, *other),
            _ => false,
        }
    }
}

impl<T: Clone> Clone for BooleanExpr<T> {
    fn clone(&self) -> (copy: BooleanExpr<T>)
        ensures
            self.cloned_as(&copy),
        decreases self,
    {
        match self {
            BooleanExpr::True => BooleanExpr::True,
            BooleanExpr::False => BooleanExpr::False,
            BooleanExpr::And(a, b) => BooleanExpr::And(
                Box::new((&**a).clone()),
                Box::new((&**b).clone()),
            ),
            BooleanExpr::Or(a, b) => BooleanExpr::Or(
                Box::new((&**a).clone()),
                Box::new((&**b).clone()),
            ),
            BooleanExpr::Not(x) => BooleanExpr::Not(Box::new((&**x).clone())),
            BooleanExpr::Eval(leaf) => BooleanExpr::Eval(leaf.clone()),
        }
    }
}

/// Names the state `mid` and the result `first` in which the left operand
/// of an `And` or `Or` ends. It holds of every pair: its only use is to tell
/// the solver which pair is meant.
pub open spec fn midpoint<S>(mid: S, first: Result<bool, IoError>) -> bool {
    true
}

/// The complement of a truth value; a failure stays the failure it is.
pub open spec fn complement(result: Result<bool, IoError>) -> Result<bool, IoError> {
    match result {
        Ok(b) => Ok(!b),
        Err(e) => Err(e),
    }
}

impl<S: SyncIoSystem, T: IoCondition<S>> IoCondition<S> for BooleanExpr<T> {
    /// Evaluation goes from left to right and stops as soon as the result is
    /// known:
    /// - a literal is its own value, and the system is not touched;
    /// - `And(a, b)` evaluates `a`, and goes on to `b` only where `a` is
    ///   true: the result is then that of `b`. Where `a` is false or fails,
    ///   that is the result, and the system is as `a` left it;
    /// - `Or(a, b)` likewise goes on to `b` only where `a` is false;
    /// - `Not(x)` evaluates `x` and complements a truth value;
    /// - `Eval(leaf)` is the evaluation of the leaf.
    open spec fn eval_outcome(&self, pre: &S, post: &S, result: Result<bool, IoError>) -> bool
        decreases self,
    {
        match self {
            BooleanExpr::True => post == pre && result == Ok::<bool, IoError>(true),
            BooleanExpr::False => post == pre && result == Ok::<bool, IoError>(false),
            BooleanExpr::And(a, b) => exists|mid: S, first: Result<bool, IoError>|
                {
                    &&& #[trigger] midpoint(mid, first)
                    &&& a.eval_outcome(pre, &mid, first)
                    &&& if first == Ok::<bool, IoError>(true) {
                        b.eval_outcome(&mid, post, result)
                    } else {
                        *post == mid && result == first
                    }
                },
            BooleanExpr::Or(a, b) => exists|mid: S, first: Result<bool, IoError>|
                {
                    &&& #[trigger] midpoint(mid, first)
                    &&& a.eval_outcome(pre, &mid, first)
                    &&& if first == Ok::<bool, IoError>(false) {
                        b.eval_outcome(&mid, post, result)
                    } else {
                        *post == mid && result == first
                    }
                },
            BooleanExpr::Not(x) => x.eval_outcome(pre, post, complement(result)),
            BooleanExpr::Eval(leaf) => leaf.eval_outcome(pre, post, result),
        }
    }

    fn eval(&self, io: &mut S) -> (result: Result<bool, IoError>)
        decreases self,
    {
        match self {
            BooleanExpr::True => Ok(true),
            BooleanExpr::False => Ok(false),
            BooleanExpr::And(a, b) => {
                let first = a.eval(io);
                proof {
                    assert(midpoint(*io, first));
                }
                match first {
                    Ok(true) => b.eval(io),
                    _ => first,
                }
            },
            BooleanExpr::Or(a, b) => {
                let first = a.eval(io);
                proof {
                    assert(midpoint(*io, first));
                }
                match first {
                    Ok(false) => b.eval(io),
                    _ => first,
                }
            },
            BooleanExpr::Not(x) => {
                match x.eval(io) {
                    Ok(value) => Ok(!value),
                    Err(error) => Err(error),
                }
            },
            BooleanExpr::Eval(leaf) => leaf.eval(io),
        }
    }
}

/// A literal is its own value whatever the I/O system holds, and evaluating
/// it leaves the system as it was.
pub proof fn lemma_literals_evaluate_to_themselves<S: SyncIoSystem, T: IoCondition<S>>(
    pre: S,
    post: S,
    result: Result<bool, IoError>,
)
    ensures
        BooleanExpr::<T>::True.eval_outcome(&pre, &post, result) <==> post == pre && result
            == Ok::<bool, IoError>(true),
        BooleanExpr::<T>::False.eval_outcome(&pre, &post, result) <==> post == pre && result
            == Ok::<bool, IoError>(false),
{
}

/// `Not(Not(x))` evaluates as `x` does: the same reads, the same result, the
/// same failures.
pub proof fn lemma_double_negation<S: SyncIoSystem, T: IoCondition<S>>(
    x: BooleanExpr<T>,
    pre: S,
    post: S,
    result: Result<bool, IoError>,
)
    ensures
        BooleanExpr::Not(Box::new(BooleanExpr::Not(Box::new(x)))).eval_outcome(&pre, &post, result)
            <==> x.eval_outcome(&pre, &post, result),
{
    let inner = BooleanExpr::Not(Box::new(x));
    let outer = BooleanExpr::Not(Box::new(inner));
    assert(complement(complement(result)) == result);
    assert(outer.eval_outcome(&pre, &post, result) <==> inner.eval_outcome(
        &pre,
        &post,
        complement(result),
    ));
    assert(inner.eval_outcome(&pre, &post, complement(result)) <==> x.eval_outcome(
        &pre,
        &post,
        complement(complement(result)),
    ));
}

/// What `And(a, b)` does is what `a` does, followed by what `b` does where,
/// and only where, `a` gave true. Where `a` gave false or failed, the system
/// is as `a` left it and the result is that of `a`.
pub proof fn lemma_and_outcome<S: SyncIoSystem, T: IoCondition<S>>(
    a: BooleanExpr<T>,
    b: BooleanExpr<T>,
    pre: S,
    post: S,
    result: Result<bool, IoError>,
)
    ensures
        BooleanExpr::And(Box::new(a), Box::new(b)).eval_outcome(&pre, &post, result) <==> exists|
            mid: S,
            first: Result<bool, IoError>,
        |
            {
                &&& #[trigger] a.eval_outcome(&pre, &mid, first)
                &&& if first == Ok::<bool, IoError>(true) {
                    b.eval_outcome(&mid, &post, result)
                } else {
                    post == mid && result == first
                }
            },
{
    let and = BooleanExpr::And(Box::new(a), Box::new(b));
    if and.eval_outcome(&pre, &post, result) {
        let (mid, first): (S, Result<bool, IoError>) = choose|
            mid: S,
            first: Result<bool, IoError>,
        |
            {
                &&& #[trigger] midpoint(mid, first)
                &&& a.eval_outcome(&pre, &mid, first)
                &&& if first == Ok::<bool, IoError>(true) {
                    b.eval_outcome(&mid, &post, result)
                } else {
                    post == mid && result == first
                }
            };
        assert(a.eval_outcome(&pre, &mid, first));
    }
    assert forall|mid: S, first: Result<bool, IoError>|
        {
            &&& #[trigger] a.eval_outcome(&pre, &mid, first)
            &&& if first == Ok::<bool, IoError>(true) {
                b.eval_outcome(&mid, &post, result)
            } else {
                post == mid && result == first
            }
        } implies and.eval_outcome(&pre, &post, result) by {
        assert(midpoint(mid, first));
    }
}

/// Where `a` may end in state `mid` with anything but true, `And(a, b)` may
/// end there with the same result, whatever `b` is: `b` is not evaluated.
pub proof fn lemma_and_stops_unless_true<S: SyncIoSystem, T: IoCondition<S>>(
    a: BooleanExpr<T>,
    b: BooleanExpr<T>,
    pre: S,
    mid: S,
    first: Result<bool, IoError>,
)
    requires
        a.eval_outcome(&pre, &mid, first),
        first != Ok::<bool, IoError>(true),
    ensures
        BooleanExpr::And(Box::new(a), Box::new(b)).eval_outcome(&pre, &mid, first),
{
    assert(midpoint(mid, first));
}

/// What `Or(a, b)` does is what `a` does, followed by what `b` does where,
/// and only where, `a` gave false. Where `a` gave true or failed, the system
/// is as `a` left it and the result is that of `a`.
pub proof fn lemma_or_outcome<S: SyncIoSystem, T: IoCondition<S>>(
    a: BooleanExpr<T>,
    b: BooleanExpr<T>,
    pre: S,
    post: S,
    result: Result<bool, IoError>,
)
    ensures
        BooleanExpr::Or(Box::new(a), Box::new(b)).eval_outcome(&pre, &post, result) <==> exists|
            mid: S,
            first: Result<bool, IoError>,
        |
            {
                &&& #[trigger] a.eval_outcome(&pre, &mid, first)
                &&& if first == Ok::<bool, IoError>(false) {
                    b.eval_outcome(&mid, &post, result)
                } else {
                    post == mid && result == first
                }
            },
{
    let or = BooleanExpr::Or(Box::new(a), Box::new(b));
    if or.eval_outcome(&pre, &post, result) {
        let (mid, first): (S, Result<bool, IoError>) = choose|
            mid: S,
            first: Result<bool, IoError>,
        |
            {
                &&& #[trigger] midpoint(mid, first)
                &&& a.eval_outcome(&pre, &mid, first)
                &&& if first == Ok::<bool, IoError>(false) {
                    b.eval_outcome(&mid, &post, result)
                } else {
                    post == mid && result == first
                }
            };
        assert(a.eval_outcome(&pre, &mid, first));
    }
    assert forall|mid: S, first: Result<bool, IoError>|
        {
            &&& #[trigger] a.eval_outcome(&pre, &mid, first)
            &&& if first == Ok::<bool, IoError>(false) {
                b.eval_outcome(&mid, &post, result)
            } else {
                post == mid && result == first
            }
        } implies or.eval_outcome(&pre, &post, result) by {
        assert(midpoint(mid, first));
    }
}

/// Where `a` may end in state `mid` with anything but false, `Or(a, b)` may
/// end there with the same result, whatever `b` is: `b` is not evaluated.
pub proof fn lemma_or_stops_unless_false<S: SyncIoSystem, T: IoCondition<S>>(
    a: BooleanExpr<T>,
    b: BooleanExpr<T>,
    pre: S,
    mid: S,
    first: Result<bool, IoError>,
)
    requires
        a.eval_outcome(&pre, &mid, first),
        first != Ok::<bool, IoError>(false),
    ensures
        BooleanExpr::Or(Box::new(a), Box::new(b)).eval_outcome(&pre, &mid, first),
{
    assert(midpoint(mid, first));
}

} // verus!
