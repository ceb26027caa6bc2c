//! Relay accounting: once a connection is classified and its upstream
//! dialed, every byte must be forwarded unmodified, in order, with the
//! sniffed prefix delivered to the upstream before anything else. Each
//! direction of the full-duplex copy is one [`RelayPipe`]; the pipe hands
//! every chunk back byte-for-byte and keeps a ghost transcript proving
//! that what the far side receives is exactly what was sent.

use vstd::prelude::*;
use vstd::slice::slice_to_vec;

verus! {

/// Size of the scratch buffer the I/O loop reads each chunk into.
pub const RELAY_BUFFER_LEN: usize = 16384;

/// Concatenation of a sequence of chunks, in order.
pub open spec fn concat_chunks(chunks: Seq<Seq<u8>>) -> Seq<u8>
    decreases chunks.len(),
{
    if chunks.len() == 0 {
        Seq::<u8>::empty()
    } else {
        concat_chunks(chunks.drop_last()) + chunks.last()
    }
}

/// One direction of the relay: from one socket toward the other. The
/// client-to-upstream pipe starts with the classification prefix to
/// replay; the upstream-to-client pipe starts empty. The pipe performs no
/// protocol-level interpretation: after the prefix replay it is a pure
/// byte pipe.
pub struct RelayPipe {
    prefix: Ghost<Seq<u8>>,
    chunks: Ghost<Seq<Seq<u8>>>,
    delivered: Ghost<Seq<u8>>,
}

impl RelayPipe {
    /// The bytes this pipe was primed with before any chunk, replayed to
    /// the receiving side first.
    pub closed spec fn spec_prefix(self) -> Seq<u8> {
        self.prefix@
    }

    /// The chunks forwarded so far, in arrival order.
    pub closed spec fn spec_chunks(self) -> Seq<Seq<u8>> {
        self.chunks@
    }

    /// Every byte handed to the receiving side so far, in order.
    pub closed spec fn spec_delivered(self) -> Seq<u8> {
        self.delivered@
    }

    /// The pipe's invariant: what has been delivered is exactly the
    /// prefix followed by every forwarded chunk, in order, with no gaps
    /// and no duplication.
    pub closed spec fn inv(self) -> bool {
        self.delivered@ == self.prefix@ + concat_chunks(self.chunks@)
    }

    /// Primes the client-to-upstream pipe with the classification prefix.
    /// The returned bytes equal the prefix and must be written to the
    /// upstream before any other upstream I/O.
    pub fn with_prefix(prefix: &[u8]) -> (r: (RelayPipe, Vec<u8>))
        ensures
            r.0.inv(),
            r.0.spec_prefix() == prefix@,
            r.0.spec_chunks() == Seq::<Seq<u8>>::empty(),
            r.0.spec_delivered() == prefix@,
            r.1@ == prefix@,
    {
        let pipe = RelayPipe {
            prefix: Ghost(prefix@),
            chunks: Ghost(Seq::empty()),
            delivered: Ghost(prefix@),
        };
        proof {
            assert(pipe.delivered@ =~= pipe.prefix@ + concat_chunks(pipe.chunks@));
        }
        (pipe, slice_to_vec(prefix))
    }

    /// A pipe with nothing to replay: the upstream-to-client direction.
    pub fn new() -> (r: RelayPipe)
        ensures
            r.inv(),
            r.spec_prefix() == Seq::<u8>::empty(),
            r.spec_chunks() == Seq::<Seq<u8>>::empty(),
            r.spec_delivered() == Seq::<u8>::empty(),
    {
        let pipe = RelayPipe {
            prefix: Ghost(Seq::empty()),
            chunks: Ghost(Seq::empty()),
            delivered: Ghost(Seq::empty()),
        };
        proof {
            assert(pipe.delivered@ =~= pipe.prefix@ + concat_chunks(pipe.chunks@));
        }
        pipe
    }

    /// Forwards one chunk read from the sending side: the returned bytes
    /// are the chunk itself, unmodified, to be written to the receiving
    /// side next.
    pub fn forward(&mut self, data: &[u8]) -> (out: Vec<u8>)
        requires
            old(self).inv(),
        ensures
            final(self).inv(),
            out@ == data@,
            final(self).spec_prefix() == old(self).spec_prefix(),
            final(self).spec_chunks() == old(self).spec_chunks().push(data@),
            final(self).spec_delivered() == old(self).spec_delivered() + data@,
    {
        proof {
            self.chunks@ = self.chunks@.push(data@);
            self.delivered@ = self.delivered@ + data@;
            assert(self.chunks@.drop_last() =~= old(self).spec_chunks());
            assert(self.delivered@ =~= self.prefix@ + concat_chunks(self.chunks@));
        }
        slice_to_vec(data)
    }
}

/// Byte-exact relay: however client and upstream writes are interleaved,
/// each side observes, concatenated, exactly the bytes the other side
/// sent, in order — and the upstream sees the classification prefix
/// before any later client bytes.
pub proof fn lemma_relay_byte_exact(pipe: RelayPipe)
    requires
        pipe.inv(),
    ensures
        pipe.spec_delivered() == pipe.spec_prefix() + concat_chunks(pipe.spec_chunks()),
{
}

} // verus!
