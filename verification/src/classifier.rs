//! Connection classifier: the per-connection state machine that
//! accumulates a prefix of the client's bytes in a bounded buffer, re-runs
//! detection as the prefix grows, and decides among "need more data",
//! "classified" and "give up".
//!
//! The surrounding I/O loop waits for either readable data or the
//! detection deadline and feeds the outcome in as a [`ClassifyEvent`]; the
//! state machine here makes every decision. The buffer is always exactly
//! the bytes the client sent, in order and with no gaps, because those
//! same bytes must later be replayed verbatim to the upstream.

use vstd::prelude::*;

use crate::detect::{detect_protocol, spec_detect, Protocol};

verus! {

/// Capacity of the detection buffer: a connection that fills this many
/// bytes without matching any recognizer is given up on.
pub const DETECT_BUFFER_CAPACITY: usize = 1024;

/// What the classifier's surrounding I/O loop observed while waiting.
pub enum ClassifyEvent {
    /// The client socket was readable and this non-empty chunk was read.
    Data(Vec<u8>),
    /// The detection deadline elapsed before the client sent more bytes.
    TimedOut,
    /// The client closed its write side (a zero-byte read).
    Eof,
}

/// The classifier's state. `Collecting` is initial; the other two are
/// terminal. `GaveUp` is terminal and silent by design: the connection is
/// dropped with no response, since there is no default protocol and
/// fabricating one would be incorrect.
#[derive(Debug, PartialEq, Eq, Structural, Copy, Clone)]
pub enum ClassifyState {
    Collecting,
    Classified(Protocol),
    GaveUp,
}

/// Per-connection classification state: the accumulating prefix buffer
/// and the state machine's position.
pub struct ConnectionSession {
    buf: Vec<u8>,
    state: Ghost<ClassifyState>,
}

impl ConnectionSession {
    /// The exact bytes received from the client so far, in order.
    pub closed spec fn prefix(self) -> Seq<u8> {
        self.buf@
    }

    /// The state machine's position.
    pub closed spec fn state(self) -> ClassifyState {
        self.state@
    }

    /// Well-formedness: the buffer never exceeds its capacity, while
    /// collecting no recognizer has succeeded on the buffer yet, and a
    /// classification is always detection's verdict on the buffer.
    pub closed spec fn wf(self) -> bool {
        &&& self.buf@.len() <= DETECT_BUFFER_CAPACITY
        &&& match self.state@ {
            ClassifyState::Collecting => spec_detect(self.buf@) is None,
            ClassifyState::Classified(p) => spec_detect(self.buf@) == Some(p),
            ClassifyState::GaveUp => true,
        }
    }

    /// Creates the session for a freshly accepted connection.
    pub fn new() -> (s: Self)
        ensures
            s.wf(),
            s.prefix() == Seq::<u8>::empty(),
            s.state() is Collecting,
    {
        let buf: Vec<u8> = Vec::new();
        proof {
            crate::detect::lemma_short_prefix_inconclusive(buf@);
        }
        ConnectionSession { buf, state: Ghost(ClassifyState::Collecting) }
    }

    /// How many more bytes the detection buffer can take. The I/O loop
    /// must never read more than this into one `Data` event, and must
    /// stop reading once it reaches zero.
    pub fn remaining_capacity(&self) -> (r: usize)
        requires
            self.wf(),
        ensures
            r == DETECT_BUFFER_CAPACITY - self.prefix().len(),
    {
        DETECT_BUFFER_CAPACITY - self.buf.len()
    }

    /// One transition of the classifier state machine.
    ///
    /// On `Data`, the chunk is appended to the prefix buffer and detection
    /// is re-run over everything accumulated so far: a match classifies
    /// the connection; no match with a full buffer gives up (no further
    /// reads are attempted); otherwise more data is awaited. `TimedOut`
    /// and `Eof` always give up: the connection is dropped and no
    /// upstream is ever dialed for it.
    pub fn classify_step(&mut self, event: ClassifyEvent) -> (r: ClassifyState)
        requires
            old(self).wf(),
            old(self).state() is Collecting,
            event matches ClassifyEvent::Data(d) ==> d@.len() > 0
                && old(self).prefix().len() + d@.len() <= DETECT_BUFFER_CAPACITY,
        ensures
            final(self).wf(),
            r == final(self).state(),
            match event {
                ClassifyEvent::Data(d) => {
                    &&& final(self).prefix() == old(self).prefix() + d@
                    &&& match r {
                        ClassifyState::Collecting => spec_detect(final(self).prefix()) is None
                            && final(self).prefix().len() < DETECT_BUFFER_CAPACITY,
                        ClassifyState::Classified(p) => spec_detect(final(self).prefix())
                            == Some(p),
                        ClassifyState::GaveUp => spec_detect(final(self).prefix()) is None
                            && final(self).prefix().len() == DETECT_BUFFER_CAPACITY,
                    }
                },
                ClassifyEvent::TimedOut => r is GaveUp && final(self).prefix() == old(
                    self,
                ).prefix(),
                ClassifyEvent::Eof => r is GaveUp && final(self).prefix() == old(self).prefix(),
            },
    {
        match event {
            ClassifyEvent::Data(d) => {
                let mut k: usize = 0;
                while k < d.len()
                    invariant
                        0 <= k <= d@.len(),
                        old(self).prefix().len() + d@.len() <= DETECT_BUFFER_CAPACITY,
                        self.buf@ == old(self).prefix() + d@.subrange(0, k as int),
                        self.state@ == old(self).state(),
                    decreases d@.len() - k,
                {
                    self.buf.push(d[k]);
                    proof {
                        assert(self.buf@ =~= old(self).prefix() + d@.subrange(0, k + 1));
                    }
                    k += 1;
                }
                proof {
                    assert(d@.subrange(0, d@.len() as int) =~= d@);
                }
                match detect_protocol(self.buf.as_slice()) {
                    Some(p) => {
                        proof {
                            self.state@ = ClassifyState::Classified(p);
                        }
                        ClassifyState::Classified(p)
                    },
                    None => {
                        if self.buf.len() == DETECT_BUFFER_CAPACITY {
                            proof {
                                self.state@ = ClassifyState::GaveUp;
                            }
                            ClassifyState::GaveUp
                        } else {
                            ClassifyState::Collecting
                        }
                    },
                }
            },
            ClassifyEvent::TimedOut => {
                proof {
                    self.state@ = ClassifyState::GaveUp;
                }
                ClassifyState::GaveUp
            },
            ClassifyEvent::Eof => {
                proof {
                    self.state@ = ClassifyState::GaveUp;
                }
                ClassifyState::GaveUp
            },
        }
    }

    /// A client that has sent fewer bytes than the smallest recognizer
    /// window can never have been classified: whatever else happens —
    /// deadline, EOF — such a connection is dropped and no upstream is
    /// ever dialed for it.
    pub proof fn lemma_short_prefix_never_classified(self)
        requires
            self.wf(),
            self.prefix().len() < 3,
        ensures
            !(self.state() is Classified),
    {
        crate::detect::lemma_short_prefix_inconclusive(self.prefix());
    }

    /// Hands the accumulated prefix over, exactly as received, for replay
    /// to the upstream once the connection has been classified.
    pub fn into_prefix(self) -> (r: Vec<u8>)
        ensures
            r@ == self.prefix(),
    {
        self.buf
    }
}

} // verus!
