use vstd::prelude::*;

verus! {

/// Collects the content of a stream of known size into a buffer.
///
/// The reader seeks to the end of the stream to learn its `size`, rewinds,
/// and keeps a zero-filled buffer of `size` bytes. It then asks the stream
/// for the bytes that are still missing, one read at a time (at most
/// `u32::MAX` bytes per read), and copies each read to the end of what was
/// already received. It stops after a read that delivers nothing, or once
/// `size` bytes have arrived.
///
/// The reads themselves are done by the caller: `next_request` says how
/// many bytes to ask for, `record_read` takes what the stream delivered.
/// What is collected depends only on the reads, not on the buffer the
/// collection started in: reading a stream and copying it into an existing
/// vector give the same bytes.
pub struct StreamCollector {
    size: u64,
    buffer: Vec<u8>,
    total: u64,
    stopped: bool,
    reads: Ghost<Seq<Seq<u8>>>,
}

/// Number of bytes asked of the stream when `remaining` bytes are missing:
/// the count passed to the stream is a 32-bit number, so a read asks for
/// all that is missing, or for `u32::MAX` bytes when more is missing.
pub open spec fn request_len(remaining: int) -> int {
    if remaining <= u32::MAX {
        remaining
    } else {
        u32::MAX as int
    }
}

impl StreamCollector {
    #[verifier::type_invariant]
    spec fn inv(self) -> bool {
        &&& self.buffer@.len() == self.size
        &&& self.total <= self.size
        &&& forall|i: int| self.total <= i < self.size ==> #[trigger] self.buffer@[i] == 0u8
        &&& self.buffer@.subrange(0, self.total as int) == self.reads@.flatten()
    }

    /// Size of the stream, as reported by seeking to its end.
    pub closed spec fn size(&self) -> nat {
        self.size as nat
    }

    /// Number of bytes received so far.
    pub closed spec fn total(&self) -> nat {
        self.total as nat
    }

    /// Whether a read has delivered nothing, which ends the collection.
    pub closed spec fn stopped(&self) -> bool {
        self.stopped
    }

    /// The bytes received so far, in the order the stream delivered them.
    pub closed spec fn received(&self) -> Seq<u8> {
        self.buffer@.subrange(0, self.total as int)
    }

    /// What each read delivered, in order.
    pub closed spec fn reads(&self) -> Seq<Seq<u8>> {
        self.reads@
    }

    /// The whole buffer: the bytes received, then zeros up to `size`.
    pub closed spec fn buffer(&self) -> Seq<u8> {
        self.buffer@
    }

    /// The read that the collector asks for next, if any: as long as no read
    /// came back empty and bytes are missing, the missing count, capped to
    /// what one read can ask for.
    pub open spec fn pending_request(&self) -> Option<u32> {
        if !self.stopped() && self.total() < self.size() {
            Some(request_len(self.size() - self.total()) as u32)
        } else {
            None
        }
    }

    /// Whether the collection is over.
    pub open spec fn is_done(&self) -> bool {
        self.pending_request() is None
    }

    /// A bound on the number of reads still to come: none once the collection
    /// is over, else at most one more than the number of missing bytes.
    pub open spec fn reads_left_bound(&self) -> nat {
        if self.is_done() {
            0
        } else {
            (self.size() - self.total() + 1) as nat
        }
    }

    /// Starts collecting a stream of `size` bytes into `buffer`, whose former
    /// content is discarded: it becomes `size` zero bytes.
    pub fn start_in(buffer: Vec<u8>, size: u64) -> (s: Self)
        requires
            size <= usize::MAX,
        ensures
            s.size() == size,
            s.total() == 0,
            !s.stopped(),
            s.reads() == Seq::<Seq<u8>>::empty(),
            s.received() == Seq::<u8>::empty(),
            s.buffer() == Seq::new(size as nat, |i: int| 0u8),
    {
        let mut buffer = buffer;
        buffer.clear();
        buffer.resize(size as usize, 0u8);
        assert(buffer@ =~= Seq::new(size as nat, |i: int| 0u8));
        assert(buffer@.subrange(0, 0) =~= Seq::<Seq<u8>>::empty().flatten());
        let s = StreamCollector {
            size,
            buffer,
            total: 0,
            stopped: false,
            reads: Ghost(Seq::empty()),
        };
        assert(s.received() =~= Seq::<u8>::empty());
        s
    }

    /// Starts collecting a stream of `size` bytes into a fresh buffer.
    pub fn start(size: u64) -> (s: Self)
        requires
            size <= usize::MAX,
        ensures
            s.size() == size,
            s.total() == 0,
            !s.stopped(),
            s.reads() == Seq::<Seq<u8>>::empty(),
            s.received() == Seq::<u8>::empty(),
            s.buffer() == Seq::new(size as nat, |i: int| 0u8),
    {
        Self::start_in(Vec::new(), size)
    }

    /// Number of bytes received so far.
    pub fn received_len(&self) -> (n: u64)
        ensures
            n == self.total(),
            self.received().len() == self.total(),
            self.received() == self.reads().flatten(),
            self.total() <= self.size(),
            self.buffer().len() == self.size(),
    {
        proof {
            use_type_invariant(self);
        }
        self.total
    }

    /// The read to perform next: `Some(len)` asks the stream for `len` bytes,
    /// `None` ends the collection. A request never asks for more than is
    /// missing; when the collection ends without an empty read, the whole
    /// stream was received.
    pub fn next_request(&self) -> (r: Option<u32>)
        ensures
            r == self.pending_request(),
            r matches Some(len) ==> 0 < len && self.total() + len <= self.size(),
            r is None && !self.stopped() ==> self.received().len() == self.size()
                && self.received() == self.buffer(),
    {
        proof {
            use_type_invariant(self);
        }
        if !self.stopped && self.total < self.size {
            let remaining: u64 = self.size - self.total;
            if remaining <= 0xffff_ffffu64 {
                Some(remaining as u32)
            } else {
                Some(0xffff_ffffu32)
            }
        } else {
            proof {
                if !self.stopped {
                    assert(self.received() =~= self.buffer());
                }
            }
            None
        }
    }

    /// Takes the bytes that the stream delivered for the pending request.
    /// They follow what was received before; an empty read ends the
    /// collection.
    pub fn record_read(self, chunk: &[u8]) -> (next: Self)
        requires
            self.pending_request() matches Some(len) && chunk@.len() <= len,
        ensures
            next.size() == self.size(),
            next.total() == self.total() + chunk@.len(),
            next.reads() == self.reads().push(chunk@),
            next.received() == self.received() + chunk@,
            next.received() == next.reads().flatten(),
            next.stopped() == (chunk@.len() == 0),
            next.reads_left_bound() < self.reads_left_bound(),
    {
        proof {
            use_type_invariant(&self);
        }
        let ghost old_received = self.received();
        let ghost new_reads = self.reads@.push(chunk@);
        proof {
            self.reads@.lemma_flatten_push(chunk@);
        }
        let StreamCollector { size, buffer, total, stopped: _, reads: _ } = self;
        let mut buffer = buffer;
        let n: usize = chunk.len();
        if n == 0 {
            let next = StreamCollector { size, buffer, total, stopped: true, reads: Ghost(new_reads) };
            assert(next.received() =~= old_received + chunk@);
            return next;
        }
        let ghost old_buf = buffer@;
        let blen: usize = buffer.len();
        assert(total <= blen);
        let start: usize = total as usize;
        assert(start + n <= blen);
        let mut j: usize = 0;
        while j < n
            invariant
                n == chunk@.len(),
                start == total,
                start + n <= size,
                buffer@.len() == old_buf.len(),
                old_buf.len() == size,
                start + n <= buffer.len(),
                j <= n,
                forall|i: int| 0 <= i < start ==> #[trigger] buffer@[i] == old_buf[i],
                forall|i: int| start <= i < start + j ==> #[trigger] buffer@[i] == chunk@[i - start],
                forall|i: int| start + j <= i < size ==> #[trigger] buffer@[i] == old_buf[i],
            decreases n - j,
        {
            buffer.set(start + j, chunk[j]);
            j = j + 1;
        }
        let new_total: u64 = total + n as u64;
        assert(buffer@.subrange(0, new_total as int) =~= old_received + chunk@);
        StreamCollector { size, buffer, total: new_total, stopped: false, reads: Ghost(new_reads) }
    }

    /// Ends the collection: the bytes received, in order, which are what
    /// the reads delivered one after another.
    pub fn finish(self) -> (v: Vec<u8>)
        ensures
            v@ == self.received(),
            v@ == self.reads().flatten(),
            v@.len() == self.total(),
            self.total() <= self.size(),
    {
        proof {
            use_type_invariant(&self);
        }
        let total = self.total;
        let mut buffer = self.buffer;
        buffer.truncate(total as usize);
        buffer
    }

    /// Hands back the whole buffer as it stands: the bytes received, then
    /// zeros up to the size of the stream.
    pub fn into_buffer(self) -> (v: Vec<u8>)
        ensures
            v@ == self.buffer(),
            v@ == self.received() + Seq::new((self.size() - self.total()) as nat, |i: int| 0u8),
            v@.len() == self.size(),
    {
        proof {
            use_type_invariant(&self);
        }
        let ghost r = self.received() + Seq::new((self.size() - self.total()) as nat, |i: int| 0u8);
        assert(self.buffer@ =~= r);
        self.buffer
    }
}

/// Two collections of a stream of the same size that received the same
/// reads are in the same state, whatever buffer each started in: they hold
/// the same bytes and ask for the same next read. So reading a stream into a
/// fresh buffer and copying it into an existing vector give the same bytes.
pub proof fn lemma_same_reads_same_state(a: StreamCollector, b: StreamCollector)
    requires
        a.size() == b.size(),
        a.reads() == b.reads(),
        a.stopped() == b.stopped(),
        a.received() == a.reads().flatten(),
        b.received() == b.reads().flatten(),
        a.received().len() == a.total(),
        b.received().len() == b.total(),
    ensures
        a.received() == b.received(),
        a.total() == b.total(),
        a.pending_request() == b.pending_request(),
{
}

} // verus!
