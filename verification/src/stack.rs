//! The call stack: up to sixteen return addresses.

use crate::machine::{CpuError, STACK_DEPTH};
use vstd::prelude::*;

verus! {

/// The return addresses of the calls in progress.
pub struct CallStack {
    sp: u8,
    frames: [u16; 16],
}

impl View for CallStack {
    type V = Seq<u16>;

    /// The return addresses, the oldest first.
    closed spec fn view(&self) -> Seq<u16> {
        self.frames@.take(
            if self.sp <= 16 {
                self.sp as int
            } else {
                16
            },
        )
    }
}

impl CallStack {
    #[verifier::type_invariant]
    spec fn pointer_in_range(self) -> bool {
        self.sp <= 16
    }

    /// No stack holds more than `STACK_DEPTH` addresses.
    pub proof fn lemma_depth(self)
        ensures
            self@.len() <= STACK_DEPTH,
    {
    }

    /// The empty stack.
    pub fn new() -> (stack: Self)
        ensures
            stack@ == Seq::<u16>::empty(),
    {
        let stack = Self { sp: 0, frames: [0; 16] };
        assert(stack@ =~= Seq::<u16>::empty());
        stack
    }

    /// The number of return addresses on the stack.
    pub fn depth(&self) -> (n: u8)
        ensures
            n == self@.len(),
    {
        proof {
            use_type_invariant(self);
        }
        self.sp
    }

    /// Puts `address` on the stack, or reports that the stack is full and
    /// leaves it as it was.
    pub fn push(&mut self, address: u16) -> (r: Result<(), CpuError>)
        ensures
            old(self)@.len() < STACK_DEPTH ==> r is Ok && final(self)@ == old(self)@.push(address),
            old(self)@.len() >= STACK_DEPTH ==> r == Err::<(), CpuError>(CpuError::StackOverflow)
                && final(self)@ == old(self)@,
    {
        proof {
            use_type_invariant(&*self);
        }
        if self.sp >= 16 {
            return Err(CpuError::StackOverflow);
        }
        self.frames[self.sp as usize] = address;
        self.sp += 1;
        assert(self@ =~= old(self)@.push(address));
        Ok(())
    }

    /// Takes the newest address off the stack, or reports that the stack is
    /// empty.
    pub fn pop(&mut self) -> (r: Result<u16, CpuError>)
        ensures
            old(self)@.len() > 0 ==> r == Ok::<u16, CpuError>(old(self)@.last()) && final(self)@
                == old(self)@.drop_last(),
            old(self)@.len() == 0 ==> r == Err::<u16, CpuError>(CpuError::StackUnderflow)
                && final(self)@ == old(self)@,
    {
        proof {
            use_type_invariant(&*self);
        }
        if self.sp == 0 {
            return Err(CpuError::StackUnderflow);
        }
        self.sp -= 1;
        assert(self@ =~= old(self)@.drop_last());
        Ok(self.frames[self.sp as usize])
    }
}

} // verus!
