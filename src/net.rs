use vstd::prelude::*;
use core::marker::PhantomData;

verus! {

/// A transport bound to the message types read from it and written to it.
pub struct FramedStream<T, Incoming = (), Outgoing = ()> {
    inner: T,
    _marker_in: PhantomData<Incoming>,
    _marker_out: PhantomData<Outgoing>,
}

impl<T, Incoming, Outgoing> FramedStream<T, Incoming, Outgoing> {
    pub closed spec fn transport(&self) -> T {
        self.inner
    }

    pub fn new(inner: T) -> (r: Self)
        ensures
            r.transport() == inner,
    {
        FramedStream { inner, _marker_in: PhantomData, _marker_out: PhantomData }
    }

    /// The transport, for reading and writing frames on it.
    pub fn transport_mut(&mut self) -> (r: &mut T)
        ensures
            *r == old(self).transport(),
            final(self).transport() == *final(r),
    {
        &mut self.inner
    }

    pub fn into_inner(self) -> (r: T)
        ensures
            r == self.transport(),
    {
        self.inner
    }
}

} // verus!
