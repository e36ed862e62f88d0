//! Synchronous access to input and output gates, and the in-memory store
//! that serves as the default I/O system.

use crate::value::Value;
use vstd::hash_map::StringHashMap;
use vstd::prelude::*;

verus! {

/// Why an I/O operation failed.
#[derive(Debug, Clone, PartialEq, Eq)]
pub enum IoError {
    /// The input asked for has no value.
    NotFound,
    /// The I/O system behind the interface failed; the text is its own
    /// account of the failure.
    Backend(String),
}

/// An I/O system with synchronous fieldbus access.
///
/// An operation may change the system (a read can be a bus transaction) and
/// need not be repeatable, so each operation is described by a relation
/// between the state before it, the state after it and what it returned.
/// A system that does not say otherwise promises nothing: any outcome may
/// be.
pub trait SyncIoSystem {
    /// Whether reading input `id` in state `self` may leave the system in
    /// state `post` and return `result`.
    open spec fn read_outcome(
        &self,
        id: Seq<char>,
        post: &Self,
        result: Result<Value, IoError>,
    ) -> bool {
        true
    }

    /// Whether reading back output `id` in state `self` may leave the system
    /// in state `post` and return `result`.
    open spec fn read_output_outcome(
        &self,
        id: Seq<char>,
        post: &Self,
        result: Result<Option<Value>, IoError>,
    ) -> bool {
        true
    }

    /// Whether writing `value` to output `id` in state `self` may leave the
    /// system in state `post` and return `result`.
    open spec fn write_outcome(
        &self,
        id: Seq<char>,
        value: Value,
        post: &Self,
        result: Result<(), IoError>,
    ) -> bool {
        true
    }

    /// Read the current state of an input.
    fn read(&mut self, id: &str) -> (result: Result<Value, IoError>)
        ensures
            old(self).read_outcome(id@, final(self), result),
    ;

    /// Read the current state of an output if possible.
    fn read_output(&mut self, id: &str) -> (result: Result<Option<Value>, IoError>)
        ensures
            old(self).read_output_outcome(id@, final(self), result),
    ;

    /// Write a value to the specified output.
    fn write(&mut self, id: &str, value: &Value) -> (result: Result<(), IoError>)
        ensures
            old(self).write_outcome(id@, *value, final(self), result),
    ;
}

/// What an [`IoState`] holds: for each namespace, the identifiers that have
/// a value, with that value.
pub struct IoStateView {
    pub inputs: Map<Seq<char>, Value>,
    pub outputs: Map<Seq<char>, Value>,
}

impl IoStateView {
    /// What reading input `id` gives.
    pub open spec fn input(self, id: Seq<char>) -> Result<Value, IoError> {
        if self.inputs.contains_key(id) {
            Ok(self.inputs[id])
        } else {
            Err(IoError::NotFound)
        }
    }

    /// What reading back output `id` gives.
    pub open spec fn output(self, id: Seq<char>) -> Option<Value> {
        if self.outputs.contains_key(id) {
            Some(self.outputs[id])
        } else {
            None
        }
    }

    /// The state in which input `id` holds `value` and all else is as in
    /// `self`.
    pub open spec fn with_input(self, id: Seq<char>, value: Value) -> IoStateView {
        IoStateView { inputs: self.inputs.insert(id, value), outputs: self.outputs }
    }

    /// The state in which output `id` holds `value` and all else is as in
    /// `self`.
    pub open spec fn with_output(self, id: Seq<char>, value: Value) -> IoStateView {
        IoStateView { inputs: self.inputs, outputs: self.outputs.insert(id, value) }
    }
}

/// The state of all inputs and outputs of a MSR system.
pub struct IoState {
    /// Input gates (sensors)
    pub inputs: StringHashMap<Value>,
    /// Output gates (actuators)
    pub outputs: StringHashMap<Value>,
}

impl View for IoState {
    type V = IoStateView;

    open spec fn view(&self) -> IoStateView {
        IoStateView { inputs: self.inputs@, outputs: self.outputs@ }
    }
}

impl Default for IoState {
    /// The state in which no gate has a value.
    fn default() -> (state: IoState)
        ensures
            state@.inputs == Map::<Seq<char>, Value>::empty(),
            state@.outputs == Map::<Seq<char>, Value>::empty(),
    {
        IoState { inputs: StringHashMap::new(), outputs: StringHashMap::new() }
    }
}

impl SyncIoSystem for IoState {
    open spec fn read_outcome(
        &self,
        id: Seq<char>,
        post: &IoState,
        result: Result<Value, IoError>,
    ) -> bool {
        post@ == self@ && result == self@.input(id)
    }

    open spec fn read_output_outcome(
        &self,
        id: Seq<char>,
        post: &IoState,
        result: Result<Option<Value>, IoError>,
    ) -> bool {
        post@ == self@ && result == Ok::<Option<Value>, IoError>(self@.output(id))
    }

    open spec fn write_outcome(
        &self,
        id: Seq<char>,
        value: Value,
        post: &IoState,
        result: Result<(), IoError>,
    ) -> bool {
        post@ == self@.with_output(id, value) && result == Ok::<(), IoError>(())
    }

    /// The value stored for input `id`, or `NotFound` where there is none.
    /// The state stays as it is.
    fn read(&mut self, id: &str) -> (result: Result<Value, IoError>)
        ensures
            final(self)@ == old(self)@,
            result == old(self)@.input(id@),
    {
        match self.inputs.get(id) {
            Some(value) => Ok(*value),
            None => Err(IoError::NotFound),
        }
    }

    /// The value last written to output `id`, if any. Never fails, and the
    /// state stays as it is.
    fn read_output(&mut self, id: &str) -> (result: Result<Option<Value>, IoError>)
        ensures
            final(self)@ == old(self)@,
            result == Ok::<Option<Value>, IoError>(old(self)@.output(id@)),
    {
        match self.outputs.get(id) {
            Some(value) => Ok(Some(*value)),
            None => Ok(None),
        }
    }

    /// Stores `value` as output `id`, in place of any earlier value. Never
    /// fails, and no input and no other output changes.
    fn write(&mut self, id: &str, value: &Value) -> (result: Result<(), IoError>)
        ensures
            final(self)@ == old(self)@.with_output(id@, *value),
            result == Ok::<(), IoError>(()),
    {
        self.outputs.insert(id.to_owned(), *value);
        Ok(())
    }
}

impl IoState {
    /// Stores `value` as input `id`, in place of any earlier value, as
    /// `inputs.insert` does. No output and no other input changes.
    pub fn set_input(&mut self, id: &str, value: Value)
        ensures
            final(self)@ == old(self)@.with_input(id@, value),
    {
        self.inputs.insert(id.to_owned(), value);
    }
}

/// An input that was never given a value cannot be read: the read fails with
/// `NotFound`.
pub proof fn lemma_read_of_missing_input(
    pre: IoState,
    post: IoState,
    id: Seq<char>,
    result: Result<Value, IoError>,
)
    requires
        !pre@.inputs.contains_key(id),
        pre.read_outcome(id, &post, result),
    ensures
        result == Err::<Value, IoError>(IoError::NotFound),
{
}

/// Reading back an output that was never written is no failure: it gives
/// `None`.
pub proof fn lemma_read_of_missing_output(
    pre: IoState,
    post: IoState,
    id: Seq<char>,
    result: Result<Option<Value>, IoError>,
)
    requires
        !pre@.outputs.contains_key(id),
        pre.read_output_outcome(id, &post, result),
    ensures
        result == Ok::<Option<Value>, IoError>(None),
{
}

/// A write succeeds, and reading the output back after it gives the value
/// written, exactly.
pub proof fn lemma_write_then_read_output(
    pre: IoState,
    written: IoState,
    post: IoState,
    id: Seq<char>,
    value: Value,
    write_result: Result<(), IoError>,
    read_result: Result<Option<Value>, IoError>,
)
    requires
        pre.write_outcome(id, value, &written, write_result),
        written.read_output_outcome(id, &post, read_result),
    ensures
        write_result == Ok::<(), IoError>(()),
        read_result == Ok::<Option<Value>, IoError>(Some(value)),
{
}

/// A second write to an output overwrites the first: the state is as if
/// only the second had been made, and reading the output back gives the
/// second value.
pub proof fn lemma_write_overwrites(
    pre: IoState,
    once: IoState,
    twice: IoState,
    id: Seq<char>,
    first: Value,
    second: Value,
    first_result: Result<(), IoError>,
    second_result: Result<(), IoError>,
)
    requires
        pre.write_outcome(id, first, &once, first_result),
        once.write_outcome(id, second, &twice, second_result),
    ensures
        twice@ == pre@.with_output(id, second),
        twice@.output(id) == Some(second),
{
    assert(pre@.outputs.insert(id, first).insert(id, second) =~= pre@.outputs.insert(id, second));
}

/// A write changes no input and no output but the one written to.
pub proof fn lemma_write_keeps_the_rest(
    pre: IoState,
    post: IoState,
    id: Seq<char>,
    value: Value,
    result: Result<(), IoError>,
)
    requires
        pre.write_outcome(id, value, &post, result),
    ensures
        post@.inputs == pre@.inputs,
        forall|other: Seq<char>| #[trigger] post@.input(other) == pre@.input(other),
        forall|other: Seq<char>| other != id ==> #[trigger] post@.output(other) == pre@.output(other),
{
}

/// Giving an input a value changes no output and no other input.
pub proof fn lemma_input_keeps_the_rest(state: IoStateView, id: Seq<char>, value: Value)
    ensures
        state.with_input(id, value).outputs == state.outputs,
        state.with_input(id, value).input(id) == Ok::<Value, IoError>(value),
        forall|other: Seq<char>| #[trigger]
            state.with_input(id, value).output(other) == state.output(other),
        forall|other: Seq<char>|
            other != id ==> #[trigger] state.with_input(id, value).input(other) == state.input(
                other,
            ),
{
}

} // verus!
