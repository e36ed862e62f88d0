//! Where a value that takes part in a comparison comes from.

use crate::comparison::{Comparator, Comparison};
use crate::io::{IoError, IoState, IoStateView, SyncIoSystem};
use crate::value::Value;
use vstd::prelude::*;
use vstd::std_specs::convert::{FromSpecImpl, IntoSpec};

verus! {

/// A data source
#[derive(Debug, Clone, PartialEq)]
pub enum Source {
    /// The input gate with the given identifier.
    In(String),
    /// The output gate with the given identifier.
    Out(String),
    /// A value that is known beforehand.
    Const(Value),
}

/// What a source gets from reading back an output: the value, where there
/// is one; an output without a value is as much a failure as an input
/// without one.
pub open spec fn read_back(read: Result<Option<Value>, IoError>) -> Result<Value, IoError> {
    match read {
        Ok(Some(value)) => Ok(value),
        Ok(None) => Err(IoError::NotFound),
        Err(error) => Err(error),
    }
}

impl Source {
    /// Whether resolving `self` against a system in state `pre` may leave
    /// the system in state `post` and give `result`.
    ///
    /// An input is read and an output is read back, once each and at the
    /// time of the call; a constant is its value and leaves the system alone.
    pub open spec fn resolve_outcome<S: SyncIoSystem>(
        &self,
        pre: &S,
        post: &S,
        result: Result<Value, IoError>,
    ) -> bool {
        match self {
            Source::In(id) => pre.read_outcome(id@, post, result),
            Source::Out(id) => exists|read: Result<Option<Value>, IoError>|
                #[trigger] pre.read_output_outcome(id@, post, read) && result == read_back(read),
            Source::Const(value) => post == pre && result == Ok::<Value, IoError>(*value),
        }
    }

    /// What the source resolves to against the in-memory state `state`.
    pub open spec fn value_in(&self, state: IoStateView) -> Result<Value, IoError> {
        match self {
            Source::In(id) => state.input(id@),
            Source::Out(id) => read_back(Ok(state.output(id@))),
            Source::Const(value) => Ok(*value),
        }
    }

    /// The value that the source stands for at this moment.
    pub fn resolve<S: SyncIoSystem>(&self, io: &mut S) -> (result: Result<Value, IoError>)
        ensures
            self.resolve_outcome(old(io), final(io), result),
    {
        match self {
            Source::In(id) => io.read(id.as_str()),
            Source::Out(id) => match io.read_output(id.as_str()) {
                Ok(Some(value)) => Ok(value),
                Ok(None) => Err(IoError::NotFound),
                Err(error) => Err(error),
            },
            Source::Const(value) => Ok(*value),
        }
    }

    /// The comparison `self == right`.
    pub fn cmp_eq(self, right: Source) -> (c: Comparison)
        ensures
            c.left == self,
            c.cmp == Comparator::Equal,
            c.right == right,
    {
        self.cmp(right, Comparator::Equal)
    }

    /// The comparison `self <= right`.
    pub fn cmp_le(self, right: Source) -> (c: Comparison)
        ensures
            c.left == self,
            c.cmp == Comparator::LessOrEqual,
            c.right == right,
    {
        self.cmp(right, Comparator::LessOrEqual)
    }

    /// The comparison `self >= right`.
    pub fn cmp_ge(self, right: Source) -> (c: Comparison)
        ensures
            c.left == self,
            c.cmp == Comparator::GreaterOrEqual,
            c.right == right,
    {
        self.cmp(right, Comparator::GreaterOrEqual)
    }

    /// The comparison `self != right`.
    pub fn cmp_ne(self, right: Source) -> (c: Comparison)
        ensures
            c.left == self,
            c.cmp == Comparator::NotEqual,
            c.right == right,
    {
        self.cmp(right, Comparator::NotEqual)
    }

    /// The comparison `self < right`.
    pub fn cmp_lt(self, right: Source) -> (c: Comparison)
        ensures
            c.left == self,
            c.cmp == Comparator::Less,
            c.right == right,
    {
        self.cmp(right, Comparator::Less)
    }

    /// The comparison `self > right`.
    pub fn cmp_gt(self, right: Source) -> (c: Comparison)
        ensures
            c.left == self,
            c.cmp == Comparator::Greater,
            c.right == right,
    {
        self.cmp(right, Comparator::Greater)
    }

    fn cmp(self, right: Source, cmp: Comparator) -> (c: Comparison)
        ensures
            c.left == self,
            c.cmp == cmp,
            c.right == right,
    {
        Comparison { left: self, cmp, right }
    }
}

impl<T: Into<Value>> From<T> for Source {
    /// The constant source of the value that `x` converts into.
    fn from(x: T) -> (source: Source) {
        Source::Const(x.into())
    }
}

impl<T: Into<Value>> FromSpecImpl<T> for Source {
    open spec fn obeys_from_spec() -> bool {
        T::obeys_into_spec()
    }

    open spec fn from_spec(x: T) -> Source {
        Source::Const(x.into_spec())
    }
}

/// Against the in-memory state a source resolves to one value only, the one
/// that `value_in` gives, and resolving it changes nothing.
pub proof fn lemma_source_in_memory(
    source: Source,
    pre: IoState,
    post: IoState,
    result: Result<Value, IoError>,
)
    ensures
        source.resolve_outcome(&pre, &post, result) ==> post@ == pre@ && result
            == source.value_in(pre@),
        source.resolve_outcome(&pre, &pre, source.value_in(pre@)),
{
    match source {
        Source::Out(id) => {
            assert(pre.read_output_outcome(
                id@,
                &pre,
                Ok::<Option<Value>, IoError>(pre@.output(id@)),
            ));
        },
        _ => {},
    }
}

} // verus!
