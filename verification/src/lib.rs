//! Building blocks for measurement-and-control loops: software that reads
//! sensors, decides, and writes actuators, cycle after cycle.
//!
//! - [`value`]: what a gate can hold, and how two values compare.
//! - [`io`]: the interface through which gates are read and written, and
//!   an in-memory implementation of it.
//! - [`source`]: a named input, a named output or a constant, resolved to a
//!   value only when it is needed.
//! - [`comparison`]: two sources and a comparator between them.
//! - [`condition`]: what can be evaluated to a truth value against an I/O
//!   system, and boolean expressions over such conditions.
//! - [`controller`]: stateful controllers, stepped with or without the time
//!   that has passed.
//!
//! An I/O system may be a fieldbus: a read can be a transaction that takes
//! effect and whose answer differs from one moment to the next. What a read,
//! a resolution or an evaluation does is therefore stated as a relation
//! between the system before, the system after and the result. For the
//! in-memory [`IoState`] these relations are functions, and
//! [`comparison::lemma_expr_in_memory`] says which.

pub mod comparison;
pub mod condition;
pub mod controller;
pub mod io;
pub mod source;
pub mod value;

pub use crate::comparison::{Comparator, Comparison};
pub use crate::condition::{BooleanExpr, IoCondition};
pub use crate::controller::{Controller, ControllerConfig, ControllerType, TimeStepController};
pub use crate::io::{IoError, IoState, IoStateView, SyncIoSystem};
pub use crate::source::Source;
pub use crate::value::{Decimal, Value};
