//! The call stack: a LIFO of 16-bit return addresses.

use vstd::prelude::*;

verus! {

/// Popping an empty stack: malformed control flow.
#[derive(Debug, Clone, Copy, PartialEq, Eq, Structural)]
pub struct StackErr;

/// A LIFO of 16-bit return addresses.
#[derive(Debug, Clone)]
pub struct Stack {
    data: Vec<u16>,
}

impl View for Stack {
    type V = Seq<u16>;

    closed spec fn view(&self) -> Seq<u16> {
        self.data@
    }
}

impl Stack {
    /// A fresh, empty stack.
    pub fn new() -> (s: Stack)
        ensures
            s@ == Seq::<u16>::empty(),
    {
        let s = Stack { data: Vec::<u16>::new() };
        proof {
            assert(s@ =~= Seq::<u16>::empty());
        }
        s
    }

    /// Pushes a return address.
    pub fn push(&mut self, addr: u16)
        ensures
            final(self)@ == old(self)@.push(addr),
    {
        self.data.push(addr);
    }

    /// Pops the most recently pushed address; popping an empty stack is an
    /// error and leaves the stack unchanged.
    pub fn pop(&mut self) -> (r: Result<u16, StackErr>)
        ensures
            old(self)@.len() == 0 ==> r == Result::<u16, StackErr>::Err(StackErr)
                && final(self)@ == old(self)@,
            old(self)@.len() > 0 ==> r == Result::<u16, StackErr>::Ok(old(self)@.last())
                && final(self)@ == old(self)@.drop_last(),
    {
        match self.data.pop() {
            Some(addr) => Ok(addr),
            None => Err(StackErr),
        }
    }
}

} // verus!
