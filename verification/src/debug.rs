//! Support for debugging kernel code: a writer that collects text in a
//! ring buffer and sends it out over a UART.

use vstd::prelude::*;
use crate::common::queue::Queue;
use crate::common::ring_buffer::RingBuffer;
use crate::hil;
use crate::returncode::ReturnCode;

verus! {

/// The text written to the debug buffer when a message does not fit.
pub const FULL_MSG: &'static str = "\n*** DEBUG BUFFER FULL ***\n";

/// The bytes of `FULL_MSG`.
pub open spec fn full_msg() -> Seq<u8> {
    vstd::utf8::encode_utf8(FULL_MSG@)
}

/// What writing `bytes` adds to a debug buffer with room for `available`
/// more bytes: all of them if they fit together with the full-buffer
/// message; otherwise as many as leave room for that message, then as
/// much of the message as fits.
pub open spec fn debug_text(bytes: Seq<u8>, available: int) -> Seq<u8> {
    let for_msg = if available >= full_msg().len() { available - full_msg().len() } else { 0 };
    if for_msg >= bytes.len() {
        bytes
    } else {
        bytes.take(for_msg) + full_msg().take(if available < full_msg().len() { available } else { full_msg().len() as int })
    }
}

/// Debug text never overflows the buffer: with room `k` for text once the
/// full-buffer message is set aside (none if the message does not fit),
/// text that fits in `k` is written whole; longer text fills the buffer
/// exactly, with its first `k` bytes followed by as much of the message as
/// fits.
pub proof fn law_debug_text_fills_at_most_the_room(bytes: Seq<u8>, available: int)
    requires
        available >= 0,
    ensures
        ({
            let k = if available >= full_msg().len() { available - full_msg().len() } else { 0 };
            &&& bytes.len() <= k ==> debug_text(bytes, available) == bytes
            &&& bytes.len() > k ==> {
                &&& debug_text(bytes, available).len() == available
                &&& debug_text(bytes, available).take(k) == bytes.take(k)
                &&& debug_text(bytes, available).skip(k) == full_msg().take(available - k)
            }
        }),
{
    let k = if available >= full_msg().len() { available - full_msg().len() } else { 0 };
    if bytes.len() > k {
        let t = debug_text(bytes, available);
        let m = full_msg().take(available - k);
        assert(t == bytes.take(k) + m);
        assert(t.take(k) =~= bytes.take(k));
        assert(t.skip(k) =~= m);
    }
}

/// A writer that collects debugging text and sends it over a UART.
pub struct DebugWriter<'a, U: hil::uart::Transmit<'a>> {
    /// What provides the actual writing mechanism.
    uart: &'a U,
    /// The buffer that is passed to the writing mechanism.
    output_buffer: Option<&'static mut [u8]>,
    /// An internal buffer that is used to hold debug!() calls as they come
    /// in.
    internal_buffer: Option<RingBuffer<u8>>,
    /// Number of debug!() calls.
    count: usize,
}

/// Wrapper type that we need a mutable reference to for the `write_str`
/// of a writer.
pub struct DebugWriterWrapper<'a, U: hil::uart::Transmit<'a>> {
    dw: Option<DebugWriter<'a, U>>,
}

impl<'a, U: hil::uart::Transmit<'a>> DebugWriter<'a, U> {
    /// The writer is well formed: its ring buffer is.
    pub closed spec fn wf(&self) -> bool {
        self.internal_buffer matches Some(b) ==> b.wf() && b.capacity() > 0
    }

    pub closed spec fn spec_count(&self) -> usize {
        self.count
    }

    /// The text waiting to be sent, if the writer holds its ring buffer.
    pub closed spec fn spec_pending(&self) -> Option<Seq<u8>> {
        match self.internal_buffer {
            Some(b) => Some(b@),
            None => None,
        }
    }

    /// The room left in the ring buffer.
    pub closed spec fn spec_available(&self) -> int {
        match self.internal_buffer {
            Some(b) => b.capacity() - 1 - b@.len(),
            None => 0,
        }
    }

    /// Whether the writer holds an output buffer (it does not while the
    /// UART sends one).
    pub closed spec fn spec_has_output_buffer(&self) -> bool {
        self.output_buffer is Some
    }

    /// The UART the writer sends over.
    pub closed spec fn spec_uart(&self) -> &'a U {
        self.uart
    }

    /// The output buffer, if the writer holds one.
    pub closed spec fn spec_output_buffer(&self) -> Option<&'static mut [u8]> {
        self.output_buffer
    }

    /// The length of the output buffer, if the writer holds one.
    pub closed spec fn spec_output_len(&self) -> nat {
        match self.output_buffer {
            Some(b) => b@.len(),
            None => 0,
        }
    }

    /// A writer over `uart`, with the given output buffer and ring buffer.
    pub fn new(uart: &'a U, out_buffer: &'static mut [u8], internal_buffer: RingBuffer<u8>) -> (r: DebugWriter<'a, U>)
        requires
            internal_buffer.wf(),
            internal_buffer.capacity() > 0,
        ensures
            r.wf(),
            r.spec_count() == 0,
            r.spec_pending() == Some(internal_buffer@),
            r.spec_has_output_buffer(),
    {
        DebugWriter { uart: uart, output_buffer: Some(out_buffer), internal_buffer: Some(internal_buffer), count: 0 }
    }

    /// Counts one more debug message.
    pub fn increment_count(&mut self)
        requires
            old(self).spec_count() < usize::MAX,
        ensures
            final(self).spec_count() == old(self).spec_count() + 1,
            final(self).spec_pending() == old(self).spec_pending(),
            final(self).wf() == old(self).wf(),
    {
        self.count = self.count + 1;
    }

    /// The number of debug messages.
    pub fn get_count(&self) -> (r: usize)
        ensures
            r == self.spec_count(),
    {
        self.count
    }

    /// Moves as much waiting text as fits into the output buffer and hands
    /// it to the UART. If there is no text, the output buffer is not put
    /// back.
    pub fn publish_str(&mut self)
        requires
            old(self).wf(),
        ensures
            final(self).wf(),
            final(self).spec_count() == old(self).spec_count(),
            !old(self).spec_has_output_buffer() || old(self).spec_pending() is None ==> {
                &&& final(self).spec_pending() == old(self).spec_pending()
                &&& final(self).spec_has_output_buffer() == old(self).spec_has_output_buffer()
            },
            old(self).spec_has_output_buffer() && old(self).spec_pending() is Some ==> {
                let pending = old(self).spec_pending()->Some_0;
                let k = if old(self).spec_output_len() < pending.len() { old(self).spec_output_len() as int } else { pending.len() as int };
                &&& final(self).spec_pending() == Some(pending.skip(k))
                &&& k == 0 ==> !final(self).spec_has_output_buffer()
                &&& k > 0 ==> exists|b: &'static mut [u8], c: usize, res: (ReturnCode, Option<&'static mut [u8]>)| {
                    &&& c == k
                    &&& (*b)@.len() == old(self).spec_output_len()
                    &&& (*b)@.take(k) == pending.take(k)
                    &&& #[trigger] call_ensures(<U as hil::uart::Transmit<'a>>::transmit_buffer,
                        (old(self).spec_uart(), b, c), res)
                    &&& final(self).spec_output_buffer() == res.1
                }
            },
            final(self).spec_uart() == old(self).spec_uart(),
    {
        match &mut self.internal_buffer {
            Some(ring_buffer) => {
                let mut out = None;
                core::mem::swap(&mut out, &mut self.output_buffer);
                match out {
                    Some(out_buffer) => {
                        let ghost pending = ring_buffer@;
                        let mut count: usize = 0;
                        let n = out_buffer.len();
                        while count < n
                            invariant
                                n == out_buffer@.len(),
                                forall|j: int| 0 <= j < count ==> out_buffer@[j] == pending[j],
                                count <= n,
                                count <= pending.len(),
                                ring_buffer.wf(),
                                ring_buffer.capacity() > 0,
                                ring_buffer.capacity() == old(self).internal_buffer->Some_0.capacity(),
                                ring_buffer@ == pending.skip(count as int),
                            ensures
                                n == out_buffer@.len(),
                                forall|j: int| 0 <= j < count ==> out_buffer@[j] == pending[j],
                                count <= n,
                                count <= pending.len(),
                                ring_buffer.wf(),
                                ring_buffer.capacity() > 0,
                                ring_buffer.capacity() == old(self).internal_buffer->Some_0.capacity(),
                                ring_buffer@ == pending.skip(count as int),
                                count < n ==> count == pending.len(),
                            decreases n - count,
                        {
                            match ring_buffer.dequeue() {
                                Some(src) => {
                                    out_buffer[count] = src;
                                    count += 1;
                                    proof {
                                        assert(ring_buffer@ =~= pending.skip(count as int));
                                    }
                                },
                                None => {
                                    break;
                                },
                            }
                        }
                        proof {
                            assert(pending.len() > count ==> count == n);
                        }
                        if count != 0 {
                            proof {
                                assert(out_buffer@.take(count as int) =~= pending.take(count as int));
                            }
                            let res = self.uart.transmit_buffer(out_buffer, count);
                            let ghost sent = res;
                            assert(exists|b: &'static mut [u8]| call_ensures(<U as hil::uart::Transmit<'a>>::transmit_buffer,
                                (self.uart, b, count), sent));
                            let (_rval, opt) = res;
                            self.output_buffer = opt;
                            proof {
                                assert(self.output_buffer == sent.1);
                                assert(self.uart == old(self).uart);
                                assert(count == (if n < pending.len() { n as int } else { pending.len() as int }));
                                assert(exists|b: &'static mut [u8], r: (ReturnCode, Option<&'static mut [u8]>)| {
                                    &&& #[trigger] call_ensures(<U as hil::uart::Transmit<'a>>::transmit_buffer,
                                        (old(self).spec_uart(), b, count), r)
                                    &&& self.spec_output_buffer() == r.1
                                });
                            }
                        }
                    },
                    None => {},
                }
            },
            None => {},
        }
    }

    /// Takes the ring buffer out of the writer.
    pub fn extract(&mut self) -> (r: Option<RingBuffer<u8>>)
        requires
            old(self).wf(),
        ensures
            final(self).wf(),
            final(self).spec_pending() is None,
            final(self).spec_count() == old(self).spec_count(),
            final(self).spec_has_output_buffer() == old(self).spec_has_output_buffer(),
            r matches Some(b) ==> b.wf() && Some(b@) == old(self).spec_pending(),
            r is None <==> old(self).spec_pending() is None,
    {
        let mut out = None;
        core::mem::swap(&mut out, &mut self.internal_buffer);
        out
    }

    /// The UART finished sending `buffer`: it becomes the output buffer
    /// again, and any text that came in meanwhile is sent.
    pub fn transmitted_buffer(&mut self, buffer: &'static mut [u8], _tx_len: usize, _rcode: ReturnCode)
        requires
            old(self).wf(),
        ensures
            final(self).wf(),
            final(self).spec_count() == old(self).spec_count(),
            old(self).spec_pending() is None || old(self).spec_pending()->Some_0.len() == 0 ==> {
                &&& final(self).spec_pending() == old(self).spec_pending()
                &&& final(self).spec_has_output_buffer()
                &&& final(self).spec_output_len() == old(buffer)@.len()
            },
            old(self).spec_pending() is Some && old(self).spec_pending()->Some_0.len() > 0 ==> {
                let pending = old(self).spec_pending()->Some_0;
                let k = if old(buffer)@.len() < pending.len() { old(buffer)@.len() as int } else { pending.len() as int };
                &&& final(self).spec_pending() == Some(pending.skip(k))
                &&& k == 0 ==> !final(self).spec_has_output_buffer()
            },
    {
        self.output_buffer = Some(buffer);
        let has_elements = match &self.internal_buffer {
            Some(buf) => buf.has_elements(),
            None => false,
        };
        if has_elements {
            self.publish_str();
        }
    }

    /// Appends `s` to the waiting text, or, if it does not fit, as much as
    /// fits with room for the full-buffer message, then that message.
    fn write_str(&mut self, s: &str)
        requires
            old(self).wf(),
        ensures
            final(self).wf(),
            final(self).spec_count() == old(self).spec_count(),
            final(self).spec_has_output_buffer() == old(self).spec_has_output_buffer(),
            old(self).spec_pending() is None ==> final(self).spec_pending() is None,
            old(self).spec_pending() matches Some(p) ==> final(self).spec_pending()
                == Some(p + debug_text(vstd::utf8::encode_utf8(s@), old(self).spec_available())),
    {
        let msg_bytes = FULL_MSG.as_bytes();
        proof {
            reveal_strlit("\n*** DEBUG BUFFER FULL ***\n");
        }
        match &mut self.internal_buffer {
            Some(ring_buffer) => {
                let bytes = s.as_bytes();
                let ghost start = ring_buffer@;
                let ghost available = ring_buffer.capacity() - 1 - start.len();
                let available_len_for_msg = ring_buffer.available_len().saturating_sub(msg_bytes.len());
                let take = if available_len_for_msg >= bytes.len() { bytes.len() } else { available_len_for_msg };
                let mut i: usize = 0;
                while i < take
                    invariant
                        i <= take,
                        take <= bytes@.len(),
                        take == bytes@.len() && take <= available || take + msg_bytes@.len() <= available || take == 0,
                        ring_buffer.wf(),
                        ring_buffer.capacity() > 0,
                        ring_buffer.capacity() == old(self).internal_buffer->Some_0.capacity(),
                        ring_buffer@ == start + bytes@.take(i as int),
                        available == ring_buffer.capacity() - 1 - start.len(),
                    decreases take - i,
                {
                    ring_buffer.enqueue(bytes[i]);
                    i += 1;
                    proof {
                        assert(ring_buffer@ =~= start + bytes@.take(i as int));
                    }
                }
                if take < bytes.len() {
                    let ghost mid = ring_buffer@;
                    let mut j: usize = 0;
                    while j < msg_bytes.len()
                        invariant
                            j <= msg_bytes@.len(),
                            ring_buffer.wf(),
                            ring_buffer.capacity() > 0,
                            ring_buffer.capacity() == old(self).internal_buffer->Some_0.capacity(),
                            ring_buffer@ == mid + msg_bytes@.take(
                                if j <= ring_buffer.capacity() - 1 - mid.len() { j as int } else { ring_buffer.capacity() - 1 - mid.len() }),
                            mid.len() < ring_buffer.capacity(),
                        decreases msg_bytes@.len() - j,
                    {
                        ring_buffer.enqueue(msg_bytes[j]);
                        j += 1;
                        proof {
                            let room = ring_buffer.capacity() - 1 - mid.len();
                            assert(ring_buffer@ =~= mid + msg_bytes@.take(if j <= room { j as int } else { room }));
                        }
                    }
                }
                proof {
                    let b = vstd::utf8::encode_utf8(s@);
                    assert(bytes@ == b);
                    assert(msg_bytes@ == full_msg());
                    if take == bytes@.len() {
                        assert(bytes@.take(take as int) =~= bytes@);
                    }
                    assert(ring_buffer@ =~= start + debug_text(b, available));
                }
            },
            None => {},
        }
    }
}

impl<'a, U: hil::uart::Transmit<'a>> DebugWriterWrapper<'a, U> {
    /// The wrapped writer, if any.
    pub closed spec fn spec_writer(&self) -> Option<DebugWriter<'a, U>> {
        self.dw
    }

    /// A wrapper around `dw`.
    pub fn new(dw: DebugWriter<'a, U>) -> (r: DebugWriterWrapper<'a, U>)
        ensures
            r.spec_writer() == Some(dw),
    {
        DebugWriterWrapper { dw: Some(dw) }
    }

    /// Counts one more debug message.
    pub fn increment_count(&mut self)
        requires
            old(self).spec_writer() matches Some(w) ==> w.spec_count() < usize::MAX,
        ensures
            old(self).spec_writer() is None ==> final(self).spec_writer() is None,
            old(self).spec_writer() matches Some(w) ==> final(self).spec_writer() matches Some(v)
                && v.spec_count() == w.spec_count() + 1 && v.spec_pending() == w.spec_pending() && v.wf() == w.wf(),
    {
        match &mut self.dw {
            Some(dw) => dw.increment_count(),
            None => {},
        }
    }

    /// The number of debug messages, or 0 without a writer.
    pub fn get_count(&self) -> (r: usize)
        ensures
            r == match self.spec_writer() {
                Some(w) => w.spec_count(),
                None => 0,
            },
    {
        match &self.dw {
            Some(dw) => dw.get_count(),
            None => 0,
        }
    }

    /// Sends waiting text, as the writer's `publish_str` does.
    pub fn publish_str(&mut self)
        requires
            old(self).spec_writer() matches Some(w) ==> w.wf(),
        ensures
            old(self).spec_writer() is None ==> final(self).spec_writer() is None,
            old(self).spec_writer() matches Some(w) ==> final(self).spec_writer() matches Some(v) && {
                &&& v.wf()
                &&& v.spec_count() == w.spec_count()
                &&& !w.spec_has_output_buffer() || w.spec_pending() is None ==> {
                    &&& v.spec_pending() == w.spec_pending()
                    &&& v.spec_has_output_buffer() == w.spec_has_output_buffer()
                }
                &&& w.spec_has_output_buffer() && w.spec_pending() is Some ==> {
                    let pending = w.spec_pending()->Some_0;
                    let k = if w.spec_output_len() < pending.len() { w.spec_output_len() as int } else { pending.len() as int };
                    &&& v.spec_pending() == Some(pending.skip(k))
                    &&& k == 0 ==> !v.spec_has_output_buffer()
                }
            },
    {
        match &mut self.dw {
            Some(dw) => dw.publish_str(),
            None => {},
        }
    }

    /// Takes the ring buffer out of the writer.
    pub fn extract(&mut self) -> (r: Option<RingBuffer<u8>>)
        requires
            old(self).spec_writer() matches Some(w) ==> w.wf(),
        ensures
            old(self).spec_writer() is None ==> r is None,
            old(self).spec_writer() matches Some(w) ==> {
                &&& r is None <==> w.spec_pending() is None
                &&& r matches Some(b) ==> b.wf() && Some(b@) == w.spec_pending()
            },
    {
        match &mut self.dw {
            Some(dw) => dw.extract(),
            None => None,
        }
    }

    /// Appends `s` to the writer's waiting text, as the writer does.
    pub fn write_str(&mut self, s: &str)
        requires
            old(self).spec_writer() matches Some(w) ==> w.wf(),
        ensures
            old(self).spec_writer() is None ==> final(self).spec_writer() is None,
            old(self).spec_writer() matches Some(w) ==> final(self).spec_writer() matches Some(v) && {
                &&& v.wf()
                &&& v.spec_count() == w.spec_count()
                &&& w.spec_pending() matches Some(p) ==> v.spec_pending()
                    == Some(p + debug_text(vstd::utf8::encode_utf8(s@), w.spec_available()))
            },
    {
        match &mut self.dw {
            Some(dw) => dw.write_str(s),
            None => {},
        }
    }
}

/// A device that can write a buffer of debugging text.
pub trait Debug {
    fn write(&self, buf: &'static mut [u8], len: usize);
}

} // verus!
