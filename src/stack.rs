use vstd::prelude::*;
use crate::error::RuntimeError;
use crate::frame::Frame;
use crate::value::Value;

verus! {

/// The operand stack, shared by the whole call chain. Its last element is the
/// most recently pushed value.
pub struct EvalStack {
    values: Vec<Value>,
}

impl View for EvalStack {
    type V = Seq<Value>;

    closed spec fn view(&self) -> Seq<Value> {
        self.values@
    }
}

impl EvalStack {
    /// An empty stack.
    pub fn new() -> (r: EvalStack)
        ensures
            r@ == Seq::<Value>::empty(),
    {
        EvalStack { values: Vec::new() }
    }

    /// Number of values on the stack.
    pub fn len(&self) -> (r: usize)
        ensures
            r == self@.len(),
    {
        self.values.len()
    }

    /// Pushes `v`; this never fails.
    pub fn push(&mut self, v: Value)
        ensures
            final(self)@ == old(self)@.push(v),
    {
        self.values.push(v);
    }

    /// Removes and returns the most recently pushed value. On an empty stack
    /// it fails with `StackUnderflow` and changes nothing.
    pub fn pop(&mut self) -> (r: Result<Value, RuntimeError>)
        ensures
            old(self)@.len() == 0 ==> r == Err::<Value, RuntimeError>(RuntimeError::StackUnderflow)
                && final(self)@ == old(self)@,
            old(self)@.len() > 0 ==> r == Ok::<Value, RuntimeError>(old(self)@.last())
                && final(self)@ == old(self)@.drop_last(),
    {
        match self.values.pop() {
            Some(v) => Ok(v),
            None => Err(RuntimeError::StackUnderflow),
        }
    }
}

/// The suspended frames of the caller chain, innermost last, with a bound on
/// how many may be suspended at once.
pub struct CallStack {
    frames: Vec<Frame>,
    max_depth: usize,
}

impl View for CallStack {
    type V = Seq<Frame>;

    closed spec fn view(&self) -> Seq<Frame> {
        self.frames@
    }
}

impl CallStack {
    /// An empty call stack that admits any depth memory allows.
    pub fn new() -> (r: CallStack)
        ensures
            r@ == Seq::<Frame>::empty(),
            r.max_depth() == usize::MAX,
    {
        CallStack { frames: Vec::new(), max_depth: usize::MAX }
    }

    /// An empty call stack that holds at most `max_depth` suspended frames.
    pub fn with_max_depth(max_depth: usize) -> (r: CallStack)
        ensures
            r@ == Seq::<Frame>::empty(),
            r.max_depth() == max_depth,
    {
        CallStack { frames: Vec::new(), max_depth }
    }

    /// The bound on the number of suspended frames.
    pub closed spec fn max_depth(&self) -> usize {
        self.max_depth
    }

    /// The bound on the number of suspended frames.
    pub fn max_depth_exec(&self) -> (r: usize)
        ensures
            r == self.max_depth(),
    {
        self.max_depth
    }

    /// Number of suspended frames.
    pub fn len(&self) -> (r: usize)
        ensures
            r == self@.len(),
    {
        self.frames.len()
    }

    /// Suspends `frame` on top. Fails with `CallStackOverflow`, changing
    /// nothing, when the stack already holds its maximum.
    pub fn push(&mut self, frame: Frame) -> (r: Result<(), RuntimeError>)
        ensures
            final(self).max_depth() == old(self).max_depth(),
            old(self)@.len() < old(self).max_depth() ==> r is Ok && final(self)@ == old(self)@.push(frame),
            old(self)@.len() >= old(self).max_depth() ==> r == Err::<(), RuntimeError>(RuntimeError::CallStackOverflow)
                && final(self)@ == old(self)@,
    {
        if self.frames.len() >= self.max_depth {
            return Err(RuntimeError::CallStackOverflow);
        }
        self.frames.push(frame);
        Ok(())
    }

    /// Removes and returns the innermost suspended frame, if any.
    pub fn pop(&mut self) -> (r: Option<Frame>)
        ensures
            final(self).max_depth() == old(self).max_depth(),
            old(self)@.len() == 0 ==> r is None && final(self)@ == old(self)@,
            old(self)@.len() > 0 ==> r == Some(old(self)@.last()) && final(self)@ == old(self)@.drop_last(),
    {
        self.frames.pop()
    }

    /// The innermost suspended frame, if any, for update in place.
    pub fn top_mut(&mut self) -> (r: Option<&mut Frame>)
        ensures
            final(self).max_depth() == old(self).max_depth(),
            old(self)@.len() == 0 ==> r is None && final(self)@ == old(self)@,
            old(self)@.len() > 0 ==> r is Some && *r.unwrap() == old(self)@.last()
                && final(self)@ == old(self)@.update(old(self)@.len() - 1, *final(r.unwrap())),
    {
        self.frames.last_mut()
    }

    /// The innermost suspended frame, if any.
    pub fn top(&self) -> (r: Option<&Frame>)
        ensures
            self@.len() == 0 ==> r is None,
            self@.len() > 0 ==> r == Some(&self@.last()),
    {
        if self.frames.len() == 0 {
            None
        } else {
            Some(&self.frames[self.frames.len() - 1])
        }
    }
}

} // verus!
