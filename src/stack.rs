use vstd::prelude::*;
use crate::fault::Fault;

verus! {

/// Call stack of at most sixteen return addresses; `stack[..sp]` holds them, oldest first.
pub struct Stack {
    pub stack: [u16; 16],
    pub sp: usize,
}

impl Stack {
    pub open spec fn wf(&self) -> bool {
        self.sp <= 16
    }

    /// The return addresses on the stack, oldest first.
    pub open spec fn view(&self) -> Seq<u16> {
        self.stack@.subrange(0, self.sp as int)
    }

    pub fn new() -> (r: Self)
        ensures
            r.wf(),
            r@ == Seq::<u16>::empty(),
    {
        let r = Self { stack: [0; 16], sp: 0 };
        assert(r@ =~= Seq::<u16>::empty());
        r
    }

    /// Pushes `val`; fails with `StackOverflow`, changing nothing, when sixteen are held.
    pub fn push(&mut self, val: u16) -> (r: Result<(), Fault>)
        requires
            old(self).wf(),
        ensures
            final(self).wf(),
            old(self)@.len() < 16 ==> r == Ok::<(), Fault>(()) && final(self)@ == old(self)@.push(val),
            old(self)@.len() >= 16 ==> r == Err::<(), Fault>(Fault::StackOverflow) && *final(self) == *old(self),
    {
        if self.sp >= 16 {
            return Err(Fault::StackOverflow);
        }
        self.stack[self.sp] = val;
        self.sp = self.sp + 1;
        assert(self@ =~= old(self)@.push(val));
        Ok(())
    }

    /// Pops the newest return address; fails with `StackUnderflow`, changing nothing, when
    /// the stack is empty.
    pub fn pop(&mut self) -> (r: Result<u16, Fault>)
        requires
            old(self).wf(),
        ensures
            final(self).wf(),
            old(self)@.len() > 0 ==> r == Ok::<u16, Fault>(old(self)@.last()) && final(self)@ == old(self)@.drop_last(),
            old(self)@.len() == 0 ==> r == Err::<u16, Fault>(Fault::StackUnderflow) && *final(self) == *old(self),
    {
        if self.sp == 0 {
            return Err(Fault::StackUnderflow);
        }
        self.sp = self.sp - 1;
        assert(self@ =~= old(self)@.drop_last());
        Ok(self.stack[self.sp])
    }

    /// The newest return address, if any.
    pub fn peek(&self) -> (r: Option<u16>)
        requires
            self.wf(),
        ensures
            self@.len() == 0 ==> r == None::<u16>,
            self@.len() > 0 ==> r == Some(self@.last()),
    {
        if self.sp == 0 {
            None
        } else {
            Some(self.stack[self.sp - 1])
        }
    }
}

} // verus!
