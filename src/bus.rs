use vstd::prelude::*;

verus! {

/// What the CPU sees of the address space. Addresses that `is_memory`
/// admits behave as plain memory: a write stores the byte, which later
/// reads return, and reads change nothing there.
pub trait Bus: Sized {
    spec fn wf(&self) -> bool;

    /// The byte that a read of `addr` returns now.
    spec fn peek_spec(&self, addr: u16) -> u8;

    /// Whether `addr` is plain memory.
    spec fn is_memory(&self, addr: u16) -> bool;

    /// The byte at `addr`, without side effects.
    fn peek(&self, addr: u16) -> (r: u8)
        requires
            self.wf(),
        ensures
            r == self.peek_spec(addr),
    ;

    fn read(&mut self, addr: u16) -> (r: u8)
        requires
            old(self).wf(),
        ensures
            final(self).wf(),
            r == old(self).peek_spec(addr),
            forall|a: u16| #[trigger] final(self).is_memory(a) == old(self).is_memory(a),
            forall|a: u16|
                #[trigger] old(self).is_memory(a) ==> final(self).peek_spec(a) == old(
                    self,
                ).peek_spec(a),
    ;

    fn write(&mut self, addr: u16, val: u8)
        requires
            old(self).wf(),
        ensures
            final(self).wf(),
            forall|a: u16| #[trigger] final(self).is_memory(a) == old(self).is_memory(a),
            old(self).is_memory(addr) ==> final(self).peek_spec(addr) == val,
            forall|a: u16|
                a != addr && #[trigger] old(self).is_memory(a) ==> final(self).peek_spec(a)
                    == old(self).peek_spec(a),
    ;
}

/// Plain memory is the same in `b1` as in `b0`.
pub open spec fn memory_kept<B: Bus>(b0: B, b1: B) -> bool {
    forall|a: u16| #[trigger]
        b1.is_memory(a) == b0.is_memory(a) && (b0.is_memory(a) ==> b1.peek_spec(a)
            == b0.peek_spec(a))
}

/// `b1` is `b0` after a write of `val` to `addr`, as far as plain memory
/// shows it.
pub open spec fn stored<B: Bus>(b0: B, b1: B, addr: u16, val: u8) -> bool {
    &&& forall|a: u16| #[trigger] b1.is_memory(a) == b0.is_memory(a)
    &&& b0.is_memory(addr) ==> b1.peek_spec(addr) == val
    &&& forall|a: u16|
        a != addr && #[trigger] b0.is_memory(a) ==> b1.peek_spec(a) == b0.peek_spec(a)
}

} // verus!
