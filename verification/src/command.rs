//! Reassembly of zero-delimited command frames arriving on the serial link.
//!
//! Frames are COBS-encoded, so a zero byte only ever appears as the frame
//! delimiter. Bytes accumulate until a delimiter arrives; the accumulated
//! frame is then handed out for decoding and the buffer starts over. A frame
//! that outgrows the buffer is discarded.

use vstd::prelude::*;

verus! {

/// Capacity of the frame buffer, in bytes.
pub const COMMAND_FRAME_CAPACITY: usize = 512;

/// Serial read chunk size used when polling the link.
pub const READ_CHUNK_CAPACITY: usize = 64;

/// A partial frame is well formed: it fits the buffer and holds no delimiter.
pub open spec fn frame_ok(frame: Seq<u8>) -> bool {
    &&& frame.len() <= COMMAND_FRAME_CAPACITY
    &&& forall|i: int| 0 <= i < frame.len() ==> #[trigger] frame[i] != 0
}

/// One received byte: a delimiter hands out the accumulated frame and starts
/// over; any other byte is appended while there is room, and otherwise the
/// whole partial frame (and the byte) is discarded.
pub open spec fn port_push(frame: Seq<u8>, byte: u8) -> (Seq<u8>, Option<Seq<u8>>) {
    if byte == 0 {
        (Seq::empty(), Some(frame))
    } else if frame.len() < COMMAND_FRAME_CAPACITY {
        (frame.push(byte), None)
    } else {
        (Seq::empty(), None)
    }
}

/// Feeds `bytes` one by one until a frame is handed out: the partial frame
/// afterwards, how many bytes were consumed, and the frame if one completed.
pub open spec fn port_scan(frame: Seq<u8>, bytes: Seq<u8>) -> (Seq<u8>, int, Option<Seq<u8>>)
    decreases bytes.len(),
{
    if bytes.len() == 0 {
        (frame, 0, None)
    } else {
        let (f2, out) = port_push(frame, bytes[0]);
        if out is Some {
            (f2, 1, out)
        } else {
            let (f3, n, o) = port_scan(f2, bytes.drop_first());
            (f3, n + 1, o)
        }
    }
}

/// Feeds all of `bytes`: the frames handed out, in order, and the partial
/// frame after the last byte.
pub open spec fn port_frames(frame: Seq<u8>, bytes: Seq<u8>) -> (Seq<Seq<u8>>, Seq<u8>)
    decreases bytes.len(),
{
    if bytes.len() == 0 {
        (Seq::empty(), frame)
    } else {
        let (f2, out) = port_push(frame, bytes[0]);
        let (fs, p) = port_frames(f2, bytes.drop_first());
        match out {
            Some(f) => (seq![f] + fs, p),
            None => (fs, p),
        }
    }
}

/// The decoder, asked about a frame with bytes `f`, may have answered `out`.
pub open spec fn decoder_answered<T, F: Fn(&Vec<u8>) -> Option<T>>(
    decode: F,
    f: Seq<u8>,
    out: Option<T>,
) -> bool {
    exists|v: Vec<u8>| v@ == f && #[trigger] call_ensures(decode, (&v,), out)
}

/// The bytes of a handed-out frame, if any.
pub open spec fn frame_view(out: Option<Vec<u8>>) -> Option<Seq<u8>> {
    match out {
        Some(f) => Some(f@),
        None => None,
    }
}

/// Accumulates one command frame at a time from the serial byte stream.
pub struct CommandPort {
    frame_buf: Vec<u8>,
}

impl View for CommandPort {
    type V = Seq<u8>;

    closed spec fn view(&self) -> Seq<u8> {
        self.frame_buf@
    }
}

impl CommandPort {
    #[verifier::type_invariant]
    closed spec fn inv(self) -> bool {
        frame_ok(self.frame_buf@)
    }

    /// An empty port.
    pub fn new() -> (p: Self)
        ensures
            p@ == Seq::<u8>::empty(),
            frame_ok(p@),
    {
        CommandPort { frame_buf: Vec::new() }
    }

    /// Number of bytes of the partial frame.
    pub fn pending_len(&self) -> (n: usize)
        ensures
            n == self@.len(),
            frame_ok(self@),
    {
        proof {
            use_type_invariant(self);
        }
        self.frame_buf.len()
    }

    /// Takes one received byte; returns the completed frame when `byte` is the
    /// delimiter.
    pub fn push_byte(&mut self, byte: u8) -> (out: Option<Vec<u8>>)
        ensures
            (final(self)@, frame_view(out)) == port_push(old(self)@, byte),
            frame_ok(old(self)@),
            frame_ok(final(self)@),
            frame_view(out) matches Some(f) ==> frame_ok(f),
    {
        proof {
            use_type_invariant(&*self);
        }
        if byte == 0 {
            let mut frame: Vec<u8> = Vec::new();
            std::mem::swap(&mut frame, &mut self.frame_buf);
            Some(frame)
        } else if self.frame_buf.len() < COMMAND_FRAME_CAPACITY {
            let mut buf: Vec<u8> = Vec::new();
            std::mem::swap(&mut buf, &mut self.frame_buf);
            buf.push(byte);
            proof {
                assert forall|i: int| 0 <= i < buf@.len() implies #[trigger] buf@[i] != 0 by {
                    if i < buf@.len() - 1 {
                        assert(buf@[i] == old(self)@[i]);
                    }
                }
            }
            self.frame_buf = buf;
            None
        } else {
            self.frame_buf = Vec::new();
            None
        }
    }

    /// Feeds `bytes[start..]` until a frame completes. Returns the index just
    /// past the bytes consumed and the completed frame, if any; without a
    /// delimiter every byte is consumed.
    pub fn scan(&mut self, bytes: &[u8], start: usize) -> (r: (usize, Option<Vec<u8>>))
        requires
            start <= bytes@.len(),
        ensures
            ({
                let (f, n, o) = port_scan(old(self)@, bytes@.subrange(start as int, bytes@.len() as int));
                &&& final(self)@ == f
                &&& r.0 == start + n
                &&& frame_view(r.1) == o
            }),
            frame_ok(old(self)@),
            frame_ok(final(self)@),
            frame_view(r.1) matches Some(f) ==> frame_ok(f),
    {
        proof {
            use_type_invariant(&*self);
        }
        let ghost f0 = self@;
        let ghost all = bytes@.subrange(start as int, bytes@.len() as int);
        let mut i = start;
        assert(bytes@.subrange(start as int, bytes@.len() as int) == all);
        while i < bytes.len()
            invariant
                start <= i <= bytes@.len(),
                f0 == old(self)@,
                frame_ok(f0),
                frame_ok(self@),
                all == bytes@.subrange(start as int, bytes@.len() as int),
                ({
                    let (fa, na, oa) = port_scan(f0, all);
                    let (fb, nb, ob) = port_scan(self@, bytes@.subrange(i as int, bytes@.len() as int));
                    fa == fb && na == nb + (i - start) && oa == ob
                }),
            decreases bytes@.len() - i,
        {
            let ghost before = self@;
            let ghost rest = bytes@.subrange(i as int, bytes@.len() as int);
            assert(rest[0] == bytes@[i as int]);
            assert(rest.drop_first() =~= bytes@.subrange(i + 1, bytes@.len() as int));
            let out = self.push_byte(bytes[i]);
            i = i + 1;
            assert(rest.len() > 0);
            if out.is_some() {
                assert(port_scan(before, rest) == (self@, 1int, frame_view(out)));
                return (i, out);
            }
        }
        assert(bytes@.subrange(i as int, bytes@.len() as int) =~= Seq::<u8>::empty());
        (i, None)
    }

    /// Feeds a chunk read from the link and asks `decode` about each frame
    /// that completes, in order. The first frame that decodes gives the
    /// result, and the bytes of the chunk after its delimiter are dropped;
    /// frames that do not decode are dropped. Without a frame that decodes,
    /// every byte is taken and the partial frame is kept for the next chunk.
    pub fn poll<T, F: Fn(&Vec<u8>) -> Option<T>>(&mut self, bytes: &[u8], decode: F) -> (r: Option<T>)
        requires
            forall|v: &Vec<u8>| #[trigger] decode.requires((v,)),
        ensures
            frame_ok(final(self)@),
            ({
                let (fs, p) = port_frames(old(self)@, bytes@);
                match r {
                    None => {
                        &&& final(self)@ == p
                        &&& forall|i: int| 0 <= i < fs.len() ==> decoder_answered(decode, #[trigger] fs[i], None)
                    },
                    Some(t) => exists|k: int| {
                        &&& 0 <= k < fs.len()
                        &&& final(self)@ == Seq::<u8>::empty()
                        &&& decoder_answered(decode, fs[k], Some(t))
                        &&& forall|i: int| 0 <= i < k ==> decoder_answered(decode, #[trigger] fs[i], None)
                    },
                }
            }),
    {
        proof {
            use_type_invariant(&*self);
        }
        let ghost f0 = self@;
        let ghost mut done: Seq<Seq<u8>> = Seq::empty();
        let mut i: usize = 0;
        assert(bytes@.subrange(0, bytes@.len() as int) =~= bytes@);
        while i < bytes.len()
            invariant
                i <= bytes@.len(),
                f0 == old(self)@,
                frame_ok(self@),
                forall|v: &Vec<u8>| #[trigger] decode.requires((v,)),
                ({
                    let (fa, pa) = port_frames(f0, bytes@);
                    let (fb, pb) = port_frames(self@, bytes@.subrange(i as int, bytes@.len() as int));
                    fa == done + fb && pa == pb
                }),
                forall|j: int| 0 <= j < done.len() ==> decoder_answered(decode, #[trigger] done[j], None),
            decreases bytes@.len() - i,
        {
            let ghost before = self@;
            let ghost rest = bytes@.subrange(i as int, bytes@.len() as int);
            assert(rest[0] == bytes@[i as int]);
            assert(rest.drop_first() =~= bytes@.subrange(i + 1, bytes@.len() as int));
            let out = self.push_byte(bytes[i]);
            i = i + 1;
            match out {
                Some(frame) => {
                    let ghost fs2 = port_frames(self@, bytes@.subrange(i as int, bytes@.len() as int)).0;
                    assert(port_frames(before, rest).0 == seq![frame@] + fs2);
                    let decoded = decode(&frame);
                    match decoded {
                        Some(t) => {
                            proof {
                                let fa = port_frames(f0, bytes@).0;
                                assert(fa == done + (seq![frame@] + fs2));
                                assert(fa[done.len() as int] == frame@);
                                assert(decoder_answered(decode, frame@, Some(t)));
                                assert(forall|j: int| 0 <= j < done.len() ==> fa[j] == done[j]);
                            }
                            return Some(t);
                        },
                        None => {
                            proof {
                                assert(decoder_answered(decode, frame@, None::<T>));
                                assert(done + (seq![frame@] + fs2) =~= done.push(frame@) + fs2);
                                done = done.push(frame@);
                            }
                        },
                    }
                },
                None => {},
            }
        }
        proof {
            assert(bytes@.subrange(i as int, bytes@.len() as int) =~= Seq::<u8>::empty());
            let fa = port_frames(f0, bytes@).0;
            assert(done + Seq::<Seq<u8>>::empty() =~= done);
            assert(fa == done);
        }
        None
    }
}

/// Receiving bytes keeps the partial frame well formed, and every frame
/// handed out fits the buffer and holds no delimiter.
pub proof fn lemma_push_keeps_frames_ok(frame: Seq<u8>, byte: u8)
    requires
        frame_ok(frame),
    ensures
        frame_ok(port_push(frame, byte).0),
        port_push(frame, byte).1 matches Some(f) ==> frame_ok(f),
{
    let (f2, _) = port_push(frame, byte);
    if byte != 0 && frame.len() < COMMAND_FRAME_CAPACITY {
        assert forall|i: int| 0 <= i < f2.len() implies #[trigger] f2[i] != 0 by {
            if i < frame.len() {
                assert(f2[i] == frame[i]);
            }
        }
    }
}

/// A well-formed message followed by a delimiter, received after a
/// well-formed partial frame that leaves room for it, is handed out exactly
/// as the partial frame followed by the message, consuming the message and
/// the delimiter; the port is then empty. In particular an empty port hands
/// out every delimiter-free message of at most 512 bytes unchanged.
pub proof fn lemma_message_round_trip(frame: Seq<u8>, message: Seq<u8>)
    requires
        frame_ok(frame + message),
    ensures
        port_scan(frame, message.push(0)) == (
            Seq::<u8>::empty(),
            message.len() + 1int,
            Some(frame + message),
        ),
    decreases message.len(),
{
    let bytes = message.push(0);
    if message.len() == 0 {
        assert(frame + message =~= frame);
        assert(bytes[0] == 0);
    } else {
        let b = message[0];
        assert((frame + message)[frame.len() as int] == b);
        assert(b != 0);
        assert(bytes[0] == b);
        let f2 = frame.push(b);
        let rest = message.drop_first();
        assert(bytes.drop_first() =~= rest.push(0));
        assert(f2 + rest =~= frame + message);
        lemma_message_round_trip(f2, rest);
    }
}

} // verus!
