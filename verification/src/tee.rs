use vstd::prelude::*;

verus! {

/// A destination for a stream of bytes; its model is the sequence of
/// bytes it has received so far.
pub trait ByteSink {
    spec fn received(&self) -> Seq<u8>;

    fn write_bytes(&mut self, buf: &[u8])
        ensures
            final(self).received() == old(self).received() + buf@,
    ;
}

/// A sink that keeps the bytes in memory.
pub struct VecSink {
    pub data: Vec<u8>,
}

impl VecSink {
    pub fn new() -> (r: VecSink)
        ensures
            r.received() == Seq::<u8>::empty(),
    {
        VecSink { data: Vec::new() }
    }
}

impl ByteSink for VecSink {
    open spec fn received(&self) -> Seq<u8> {
        self.data@
    }

    fn write_bytes(&mut self, buf: &[u8]) {
        self.data.extend_from_slice(buf);
    }
}

/// A duplex sink: every byte written is forwarded to two independent
/// sinks in one pass, so a stream can be persisted and digested without
/// being buffered or read twice.
pub struct ProxyWrite<A: ByteSink, B: ByteSink> {
    pub a: A,
    pub b: B,
}

impl<A: ByteSink, B: ByteSink> ProxyWrite<A, B> {
    /// Hands the buffer to both sinks.
    pub fn write(&mut self, buf: &[u8])
        ensures
            final(self).a.received() == old(self).a.received() + buf@,
            final(self).b.received() == old(self).b.received() + buf@,
    {
        self.a.write_bytes(buf);
        self.b.write_bytes(buf);
    }
}

} // verus!
