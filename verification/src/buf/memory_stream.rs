use vstd::prelude::*;

verus! {

/// An in-memory byte buffer handed through the codec chain. Nothing puts
/// bytes into it: it is empty from its creation on.
pub struct MemoryStream {
    buf: Vec<u8>,
}

impl View for MemoryStream {
    type V = Seq<u8>;

    closed spec fn view(&self) -> Seq<u8> {
        self.buf@
    }
}

impl MemoryStream {
    #[verifier::type_invariant]
    spec fn holds_no_bytes(&self) -> bool {
        self.buf@.len() == 0
    }

    pub fn new() -> (s: Self)
        ensures
            s@ == Seq::<u8>::empty(),
    {
        Self { buf: Vec::<u8>::new() }
    }

    /// Leaves the stream empty.
    pub fn clear(&mut self)
        ensures
            final(self)@ == Seq::<u8>::empty(),
            final(self)@ == old(self)@,
    {
        proof {
            use_type_invariant(&*self);
        }
        assert(self.buf@ =~= Seq::<u8>::empty());
    }

    /// Takes `data` and leaves the stream empty, as it was.
    pub fn write<T>(&mut self, data: T)
        ensures
            final(self)@ == Seq::<u8>::empty(),
            final(self)@ == old(self)@,
    {
        proof {
            use_type_invariant(&*self);
        }
        assert(self.buf@ =~= Seq::<u8>::empty());
    }
}

} // verus!
