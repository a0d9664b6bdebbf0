//! Panics: the faults that end an evaluation.
//!
//! A panic is not a value. No script can hold or catch one: it carries the
//! position of what went wrong up to whoever started the evaluation.

use vstd::prelude::*;
use super::source::SourcePos;
use super::value::{Str, Value, ValueView};

verus! {

/// What a panic is, apart from how its payload is stored.
pub enum PanicView {
    Io { message: Seq<u8>, pos: SourcePos },
    IndexOutOfBounds { index: ValueView, pos: SourcePos },
    TypeError { value: ValueView, pos: SourcePos },
    InvalidCall { function: ValueView, pos: SourcePos },
    DivisionByZero { pos: SourcePos },
    StackOverflow { pos: SourcePos },
}

impl PanicView {
    /// Where the fault happened.
    pub open spec fn pos(self) -> SourcePos {
        match self {
            PanicView::Io { pos, .. } => pos,
            PanicView::IndexOutOfBounds { pos, .. } => pos,
            PanicView::TypeError { pos, .. } => pos,
            PanicView::InvalidCall { pos, .. } => pos,
            PanicView::DivisionByZero { pos } => pos,
            PanicView::StackOverflow { pos } => pos,
        }
    }
}

/// An unrecoverable fault of a running script, with the position of the
/// construct that met it.
#[derive(Debug)]
pub enum Panic {
    /// Reading or writing failed; `message` says how.
    Io { message: Str, pos: SourcePos },
    /// A collection was asked for `index`, which it does not have.
    IndexOutOfBounds { index: Value, pos: SourcePos },
    /// `value` is of a kind that the operation cannot work on.
    TypeError { value: Value, pos: SourcePos },
    /// `function` was called, and is no function.
    InvalidCall { function: Value, pos: SourcePos },
    /// An integer was divided by zero.
    DivisionByZero { pos: SourcePos },
    /// The calls went deeper than the stack allows.
    StackOverflow { pos: SourcePos },
}

impl View for Panic {
    type V = PanicView;

    open spec fn view(&self) -> PanicView {
        match self {
            Panic::Io { message, pos } => PanicView::Io { message: message@, pos: *pos },
            Panic::IndexOutOfBounds { index, pos } => PanicView::IndexOutOfBounds {
                index: index@,
                pos: *pos,
            },
            Panic::TypeError { value, pos } => PanicView::TypeError { value: value@, pos: *pos },
            Panic::InvalidCall { function, pos } => PanicView::InvalidCall {
                function: function@,
                pos: *pos,
            },
            Panic::DivisionByZero { pos } => PanicView::DivisionByZero { pos: *pos },
            Panic::StackOverflow { pos } => PanicView::StackOverflow { pos: *pos },
        }
    }
}

impl Panic {
    /// The panic of a failed read or write at `pos`.
    pub fn io(message: Str, pos: SourcePos) -> (panic: Panic)
        ensures
            panic@ == (PanicView::Io { message: message@, pos }),
    {
        Panic::Io { message, pos }
    }

    /// The panic of asking a collection at `pos` for an index it does not
    /// have.
    pub fn index_out_of_bounds(index: Value, pos: SourcePos) -> (panic: Panic)
        ensures
            panic@ == (PanicView::IndexOutOfBounds { index: index@, pos }),
    {
        Panic::IndexOutOfBounds { index, pos }
    }

    /// The panic of meeting a value of the wrong kind at `pos`.
    pub fn type_error(value: Value, pos: SourcePos) -> (panic: Panic)
        ensures
            panic@ == (PanicView::TypeError { value: value@, pos }),
    {
        Panic::TypeError { value, pos }
    }

    /// The panic of calling at `pos` what is no function.
    pub fn invalid_call(function: Value, pos: SourcePos) -> (panic: Panic)
        ensures
            panic@ == (PanicView::InvalidCall { function: function@, pos }),
    {
        Panic::InvalidCall { function, pos }
    }

    /// Where the fault happened.
    pub fn pos(&self) -> (pos: SourcePos)
        ensures
            pos == self@.pos(),
    {
        match self {
            Panic::Io { pos, .. } => *pos,
            Panic::IndexOutOfBounds { pos, .. } => *pos,
            Panic::TypeError { pos, .. } => *pos,
            Panic::InvalidCall { pos, .. } => *pos,
            Panic::DivisionByZero { pos } => *pos,
            Panic::StackOverflow { pos } => *pos,
        }
    }
}

} // verus!
