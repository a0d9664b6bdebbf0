//! Functions as values.

use vstd::prelude::*;
use crate::runtime::source::SourcePos;
use super::views;
use super::Value;
use super::ValueView;

verus! {

/// A function written in the language: a closure. It is known by the code it
/// runs and the environment it captured; two closures are the same function
/// only if they are the same in both.
#[derive(Debug, Clone, Copy, PartialEq, Eq, Structural, Hash, PartialOrd, Ord)]
pub struct HushFun {
    /// How many parameters the function takes.
    pub params: u32,
    /// Which function body of the program it runs.
    pub body: u64,
    /// Which environment it captured.
    pub env: u64,
    /// Where it was defined.
    pub pos: SourcePos,
}

/// A function of the host: opaque to the language, and known by the number
/// under which the host keeps it.
#[derive(Debug, Clone, Copy, PartialEq, Eq, Structural, Hash, PartialOrd, Ord)]
pub struct RustFun {
    /// The number of the function with the host.
    pub id: u64,
}

/// A function, of the language or of the host. Functions are compared by what
/// they are known by, never by what they compute.
#[derive(Debug, Clone, Copy, PartialEq, Eq, Structural, Hash, PartialOrd, Ord)]
pub enum Function {
    Hush(HushFun),
    Rust(RustFun),
}

impl Function {
    /// Shallow copy: the same function again.
    pub fn copy(&self) -> (function: Function)
        ensures
            function == *self,
    {
        *self
    }

    /// Whether this is a closure of the language.
    pub fn is_hush(&self) -> (hush: bool)
        ensures
            hush == (*self is Hush),
    {
        match self {
            Function::Hush(_) => true,
            Function::Rust(_) => false,
        }
    }
}

impl From<HushFun> for Function {
    fn from(fun: HushFun) -> (function: Function) {
        Function::Hush(fun)
    }
}

impl vstd::std_specs::convert::FromSpecImpl<HushFun> for Function {
    open spec fn obeys_from_spec() -> bool {
        true
    }

    open spec fn from_spec(fun: HushFun) -> Function {
        Function::Hush(fun)
    }
}

impl From<RustFun> for Function {
    fn from(fun: RustFun) -> (function: Function) {
        Function::Rust(fun)
    }
}

impl vstd::std_specs::convert::FromSpecImpl<RustFun> for Function {
    open spec fn obeys_from_spec() -> bool {
        true
    }

    open spec fn from_spec(fun: RustFun) -> Function {
        Function::Rust(fun)
    }
}

/// What a call hands to the function it calls: the arguments, and where the
/// call stands. It lives as long as the call.
#[derive(Debug)]
pub struct CallContext {
    args: Vec<Value>,
    pos: SourcePos,
}

impl CallContext {
    /// The arguments of the call, in their order.
    pub closed spec fn args(&self) -> Seq<ValueView> {
        views(self.args@)
    }

    /// Where the call stands: the position that a panic of the callee is laid
    /// at.
    pub closed spec fn position(&self) -> SourcePos {
        self.pos
    }

    /// The context of a call at `pos` with the arguments `args`.
    pub fn new(args: Vec<Value>, pos: SourcePos) -> (context: CallContext)
        ensures
            context.args() == views(args@),
            context.position() == pos,
    {
        CallContext { args, pos }
    }

    /// Where the call stands.
    pub fn pos(&self) -> (pos: SourcePos)
        ensures
            pos == self.position(),
    {
        self.pos
    }

    /// How many arguments the call has.
    pub fn len(&self) -> (len: usize)
        ensures
            len == self.args().len(),
    {
        self.args.len()
    }

    /// The argument at `index`, counted from 0, if the call has that many.
    pub fn arg(&self, index: usize) -> (arg: Option<&Value>)
        ensures
            match arg {
                Some(value) => index < self.args().len() && value@ == self.args()[index as int],
                None => index >= self.args().len(),
            },
    {
        if index < self.args.len() {
            Some(&self.args[index])
        } else {
            None
        }
    }

    /// The arguments, handed over to the callee.
    pub fn into_args(self) -> (args: Vec<Value>)
        ensures
            views(args@) == self.args(),
    {
        self.args
    }
}

} // verus!
