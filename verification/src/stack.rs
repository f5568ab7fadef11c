//! A fixed-capacity last-in-first-out buffer of 16-bit values with explicit
//! bounds signaling: a push onto a full stack and a pop from an empty stack
//! fail with a numeric stack-pointer diagnostic instead of panicking.

use vstd::prelude::*;

verus! {

/// Call-depth limit of the emulated machine: the stack never holds more
/// than this many return addresses.
pub const STACK_SIZE: u8 = 16;

/// Bounded LIFO storage for subroutine-call bookkeeping.
pub struct Stack {
    entries: Vec<u16>,
}

impl View for Stack {
    type V = Seq<u16>;

    /// A stack is abstractly the sequence of its live values, oldest first;
    /// the stack pointer is its length.
    closed spec fn view(&self) -> Seq<u16> {
        self.entries@
    }
}

impl Stack {
    /// The capacity bound: at most `STACK_SIZE` values are ever live.
    pub open spec fn wf(&self) -> bool {
        self@.len() <= STACK_SIZE
    }

    /// Constructs an empty stack.
    pub fn new() -> (r: Stack)
        ensures
            r@ == Seq::<u16>::empty(),
            r.wf(),
    {
        Stack { entries: Vec::new() }
    }

    /// Pushes a value onto the stack. On a full stack it fails, handing the
    /// caller the current stack pointer.
    pub fn push(&mut self, value: u16) -> (r: Result<(), u8>)
        requires
            old(self).wf(),
        ensures
            final(self).wf(),
            old(self)@.len() < STACK_SIZE ==> r == Ok::<(), u8>(()) && final(self)@ == old(
                self,
            )@.push(value),
            old(self)@.len() == STACK_SIZE ==> r == Err::<(), u8>(STACK_SIZE) && final(self)@
                == old(self)@,
    {
        if self.entries.len() >= STACK_SIZE as usize {
            Err(self.entries.len() as u8)
        } else {
            self.entries.push(value);
            Ok(())
        }
    }

    /// Pops the most recently pushed value. On an empty stack it fails,
    /// handing the caller the stack pointer, which is then 0.
    pub fn pop(&mut self) -> (r: Result<u16, u8>)
        requires
            old(self).wf(),
        ensures
            final(self).wf(),
            old(self)@.len() == 0 ==> r == Err::<u16, u8>(0) && final(self)@ == old(self)@,
            old(self)@.len() > 0 ==> r == Ok::<u16, u8>(old(self)@.last()) && final(self)@ == old(
                self,
            )@.drop_last(),
    {
        match self.entries.pop() {
            Some(value) => Ok(value),
            None => Err(0),
        }
    }
}

/// The values obtained by popping a stack down to empty, in pop order.
pub open spec fn drained(s: Seq<u16>) -> Seq<u16>
    decreases s.len(),
{
    if s.len() == 0 {
        Seq::empty()
    } else {
        seq![s.last()] + drained(s.drop_last())
    }
}

/// LIFO law: popping every value off a stack returns the pushed values in
/// exact reverse order of their pushes.
pub proof fn lemma_lifo(s: Seq<u16>)
    ensures
        drained(s) == s.reverse(),
    decreases s.len(),
{
    if s.len() == 0 {
        assert(drained(s) =~= s.reverse());
    } else {
        lemma_lifo(s.drop_last());
        assert(drained(s) =~= s.reverse());
    }
}

} // verus!
