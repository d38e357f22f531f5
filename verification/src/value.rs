//! Engine value handles and engine exceptions.
use vstd::prelude::*;

use crate::error::BuaError;
use crate::text::push_text;

verus! {

/// A handle on an engine object: its value and context pointers (both zero
/// for a stub).
#[derive(Clone, Copy, PartialEq, Eq, Structural, Debug)]
pub struct ObjectHandle {
    ptr: usize,
    ctx_ptr: usize,
}

/// A handle on an engine array.
#[derive(Clone, Copy, PartialEq, Eq, Structural, Debug)]
pub struct ArrayHandle {
    ptr: usize,
    ctx_ptr: usize,
}

/// A handle on an engine function.
#[derive(Clone, Copy, PartialEq, Eq, Structural, Debug)]
pub struct FunctionHandle {
    ptr: usize,
    ctx_ptr: usize,
}

/// The pointers a handle keeps for `ptr` and `ctx_ptr`: both, or none when
/// either is zero.
pub open spec fn kept(ptr: usize, ctx_ptr: usize) -> (usize, usize) {
    if ptr == 0 || ctx_ptr == 0 {
        (0, 0)
    } else {
        (ptr, ctx_ptr)
    }
}

impl ObjectHandle {
    /// The pointers held.
    pub closed spec fn ptrs(&self) -> (usize, usize) {
        (self.ptr, self.ctx_ptr)
    }

    /// A stub handle.
    pub fn stub() -> (h: Self)
        ensures
            h.ptrs() == (0usize, 0usize),
    {
        ObjectHandle { ptr: 0, ctx_ptr: 0 }
    }

    /// A handle on `ptr` in context `ctx_ptr` (a stub when either is zero).
    pub fn new(ptr: usize, ctx_ptr: usize) -> (h: Self)
        ensures
            h.ptrs() == kept(ptr, ctx_ptr),
    {
        if ptr == 0 || ctx_ptr == 0 {
            Self::stub()
        } else {
            ObjectHandle { ptr, ctx_ptr }
        }
    }

    /// The value pointer.
    pub fn value_ptr(&self) -> (p: usize)
        ensures
            p == self.ptrs().0,
    {
        self.ptr
    }

    /// The context pointer.
    pub fn ctx_ptr(&self) -> (p: usize)
        ensures
            p == self.ptrs().1,
    {
        self.ctx_ptr
    }

    /// Whether this is a stub.
    pub fn is_stub(&self) -> (r: bool)
        ensures
            r == (self.ptrs().0 == 0),
    {
        self.ptr == 0
    }
}

impl ArrayHandle {
    /// The pointers held.
    pub closed spec fn ptrs(&self) -> (usize, usize) {
        (self.ptr, self.ctx_ptr)
    }

    /// A stub handle.
    pub fn stub() -> (h: Self)
        ensures
            h.ptrs() == (0usize, 0usize),
    {
        ArrayHandle { ptr: 0, ctx_ptr: 0 }
    }

    /// A handle on `ptr` in context `ctx_ptr` (a stub when either is zero).
    pub fn new(ptr: usize, ctx_ptr: usize) -> (h: Self)
        ensures
            h.ptrs() == kept(ptr, ctx_ptr),
    {
        if ptr == 0 || ctx_ptr == 0 {
            Self::stub()
        } else {
            ArrayHandle { ptr, ctx_ptr }
        }
    }

    /// The value pointer.
    pub fn value_ptr(&self) -> (p: usize)
        ensures
            p == self.ptrs().0,
    {
        self.ptr
    }

    /// The context pointer.
    pub fn ctx_ptr(&self) -> (p: usize)
        ensures
            p == self.ptrs().1,
    {
        self.ctx_ptr
    }

    /// Whether this is a stub.
    pub fn is_stub(&self) -> (r: bool)
        ensures
            r == (self.ptrs().0 == 0),
    {
        self.ptr == 0
    }
}

impl FunctionHandle {
    /// The pointers held.
    pub closed spec fn ptrs(&self) -> (usize, usize) {
        (self.ptr, self.ctx_ptr)
    }

    /// A stub handle.
    pub fn stub() -> (h: Self)
        ensures
            h.ptrs() == (0usize, 0usize),
    {
        FunctionHandle { ptr: 0, ctx_ptr: 0 }
    }

    /// A handle on `ptr` in context `ctx_ptr` (a stub when either is zero).
    pub fn new(ptr: usize, ctx_ptr: usize) -> (h: Self)
        ensures
            h.ptrs() == kept(ptr, ctx_ptr),
    {
        if ptr == 0 || ctx_ptr == 0 {
            Self::stub()
        } else {
            FunctionHandle { ptr, ctx_ptr }
        }
    }

    /// The value pointer.
    pub fn value_ptr(&self) -> (p: usize)
        ensures
            p == self.ptrs().0,
    {
        self.ptr
    }

    /// The context pointer.
    pub fn ctx_ptr(&self) -> (p: usize)
        ensures
            p == self.ptrs().1,
    {
        self.ctx_ptr
    }

    /// Whether this is a stub.
    pub fn is_stub(&self) -> (r: bool)
        ensures
            r == (self.ptrs().0 == 0),
    {
        self.ptr == 0
    }
}

/// The resolve and reject functions of a deferred promise, and the promise.
#[derive(Clone, Copy, PartialEq, Eq, Structural, Debug)]
pub struct PromiseHandle {
    pub resolve: FunctionHandle,
    pub reject: FunctionHandle,
    pub promise_obj: ObjectHandle,
}

impl PromiseHandle {
    /// A stub promise.
    pub fn stub() -> (p: Self)
        ensures
            p.resolve.ptrs() == (0usize, 0usize) && p.reject.ptrs() == (0usize, 0usize)
                && p.promise_obj.ptrs() == (0usize, 0usize),
    {
        PromiseHandle {
            resolve: FunctionHandle::stub(),
            reject: FunctionHandle::stub(),
            promise_obj: ObjectHandle::stub(),
        }
    }

    /// A promise of its three handles.
    pub fn new(resolve: FunctionHandle, reject: FunctionHandle, promise_obj: ObjectHandle) -> (p: Self)
        ensures
            p == (PromiseHandle { resolve, reject, promise_obj }),
    {
        PromiseHandle { resolve, reject, promise_obj }
    }
}

/// An exception thrown by engine code.
#[derive(Debug)]
pub struct JsException {
    pub message: String,
    pub stack: Option<String>,
    pub name: String,
}

/// The text of an exception: `name: message`, then the stack on a new line.
pub open spec fn exception_text(name: Seq<char>, message: Seq<char>, stack: Option<Seq<char>>) -> Seq<char> {
    name + ": "@ + message + match stack {
        Some(s) => seq!['\n'] + s,
        None => Seq::empty(),
    }
}

impl JsException {
    /// An `Error` with `message` and no stack.
    pub fn new(message: String) -> (e: Self)
        ensures
            e.message@ == message@,
            e.stack is None,
            e.name@ == "Error"@,
    {
        JsException { message, stack: None, name: "Error".to_owned() }
    }

    /// The same exception with a stack.
    pub fn with_stack(self, stack: String) -> (e: Self)
        ensures
            e.message == self.message,
            e.name == self.name,
            e.stack matches Some(s) && s@ == stack@,
    {
        let mut e = self;
        e.stack = Some(stack);
        e
    }

    /// The same exception with another name.
    pub fn with_name(self, name: String) -> (e: Self)
        ensures
            e.message == self.message,
            e.stack == self.stack,
            e.name@ == name@,
    {
        let mut e = self;
        e.name = name;
        e
    }

    /// The text of the exception (see [`exception_text`]).
    pub fn to_text(&self) -> (s: String)
        ensures
            s@ == exception_text(
                self.name@,
                self.message@,
                match self.stack {
                    Some(x) => Some(x@),
                    None => None,
                },
            ),
    {
        let mut s = String::new();
        push_text(&mut s, self.name.as_str());
        push_text(&mut s, ": ");
        push_text(&mut s, self.message.as_str());
        match &self.stack {
            Some(st) => {
                push_text(&mut s, "\n");
                push_text(&mut s, st.as_str());
                proof {
                    reveal_strlit("\n");
                }
                assert(s@ =~= exception_text(self.name@, self.message@, Some(st@)));
            },
            None => {
                assert(s@ =~= exception_text(self.name@, self.message@, None));
            },
        }
        s
    }

    /// The runtime error for this exception: its message and stack.
    pub fn into_error(self) -> (e: BuaError)
        ensures
            e matches BuaError::JsException { message, stack } && message == self.message && stack
                == self.stack,
    {
        BuaError::JsException { message: self.message, stack: self.stack }
    }
}

} // verus!
