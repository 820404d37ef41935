//! The fixed-depth stack of return addresses used by subroutine call and return.
use vstd::prelude::*;

verus! {

/// How many return addresses the stack holds at most.
pub const STACK_CAPACITY: usize = 16;

/// Why a stack operation was refused.
#[derive(Clone, Copy, Debug, PartialEq, Eq, Structural)]
pub enum StackError {
    /// A push onto a stack that already holds `STACK_CAPACITY` addresses.
    Overflow,
    /// A pop from a stack that holds nothing.
    Empty,
}

/// A stack of up to `STACK_CAPACITY` return addresses.
pub struct StackPointer {
    array: [usize; 16],
    length: usize,
}

impl View for StackPointer {
    type V = Seq<usize>;

    /// The addresses on the stack, the most recently pushed one last.
    closed spec fn view(&self) -> Seq<usize> {
        self.array@.subrange(0, self.length as int)
    }
}

impl StackPointer {
    #[verifier::type_invariant]
    spec fn inv(self) -> bool {
        self.length <= STACK_CAPACITY
    }

    /// An empty stack.
    pub fn new() -> (r: StackPointer)
        ensures
            r@ == Seq::<usize>::empty(),
    {
        let r = StackPointer { array: [0; 16], length: 0 };
        assert(r@ =~= Seq::<usize>::empty());
        r
    }

    /// The number of addresses on the stack.
    pub fn len(&self) -> (r: usize)
        ensures
            r == self@.len(),
            r <= STACK_CAPACITY,
    {
        proof {
            use_type_invariant(self);
        }
        self.length
    }

    /// Pushes `addr`; fails with `Overflow`, leaving the stack as it was, when
    /// the stack is full.
    pub fn push(&mut self, addr: usize) -> (r: Result<(), StackError>)
        ensures
            old(self)@.len() < STACK_CAPACITY ==> r == Ok::<(), StackError>(()) && final(self)@
                == old(self)@.push(addr),
            old(self)@.len() >= STACK_CAPACITY ==> r == Err::<(), StackError>(StackError::Overflow)
                && final(self)@ == old(self)@,
    {
        proof {
            use_type_invariant(&*self);
        }
        if self.length == STACK_CAPACITY {
            return Err(StackError::Overflow);
        }
        let ghost before = self@;
        self.array[self.length] = addr;
        self.length = self.length + 1;
        assert(self@ =~= before.push(addr));
        Ok(())
    }

    /// Removes and returns the most recently pushed address; fails with
    /// `Empty`, leaving the stack as it was, when the stack holds nothing.
    pub fn pop(&mut self) -> (r: Result<usize, StackError>)
        ensures
            old(self)@.len() > 0 ==> r == Ok::<usize, StackError>(old(self)@.last())
                && final(self)@ == old(self)@.drop_last(),
            old(self)@.len() == 0 ==> r == Err::<usize, StackError>(StackError::Empty)
                && final(self)@ == old(self)@,
    {
        proof {
            use_type_invariant(&*self);
        }
        if self.length == 0 {
            return Err(StackError::Empty);
        }
        let ghost before = self@;
        let top = self.length - 1;
        let result = self.array[top];
        self.array[top] = 0;
        self.length = top;
        assert(self@ =~= before.drop_last());
        Ok(result)
    }
}

} // verus!
