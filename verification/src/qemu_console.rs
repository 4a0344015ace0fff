//! BSP console facilities: the board's fixed-address character output
//! device.
//!
//! The device is a write-only, FIFO-like sink behind a single byte-wide
//! register. A store to that register must be volatile — performed exactly
//! once, in order, never elided — because its effect (a character leaving
//! the board) is invisible to data-flow analysis. The verified model
//! captures precisely that observable effect: [`QEMUOutputInner::emitted`]
//! is the ordered sequence of bytes the register has received. The binary
//! that runs on hardware performs the volatile stores themselves outside
//! this crate, one per modeled byte, in the modeled order.

use vstd::prelude::*;
use vstd::string::StringSliceAdditionalSpecFns;

use crate::console::{
    Console, ConsoleState, FmtError, Read, Statistics, Write, lemma_stream_output_congruence,
    stream_output,
};
use crate::null_console::NULL_READ_BYTE;
use crate::synchronization::NullLock;

verus! {

/// Line feed.
pub const LINE_FEED: u8 = 10;

/// Carriage return.
pub const CARRIAGE_RETURN: u8 = 13;

/// The physical bytes one logical byte contributes on the wire: a line feed
/// is preceded by a carriage return, matching conventional serial-terminal
/// expectations; every other byte passes through unchanged.
pub open spec fn crlf_output(b: u8) -> Seq<u8> {
    if b == LINE_FEED {
        seq![CARRIAGE_RETURN, b]
    } else {
        seq![b]
    }
}

/// The number of line feed bytes in `s`.
pub open spec fn lf_count(s: Seq<u8>) -> nat
    decreases s.len(),
{
    if s.len() == 0 {
        0
    } else {
        lf_count(s.drop_last()) + if s.last() == LINE_FEED {
            1nat
        } else {
            0nat
        }
    }
}

/// The mutex-protected part of the device: the model of the output register
/// and the written-byte counter.
struct QEMUOutputInner {
    /// The bytes stored to the output register so far, in order.
    emitted: Vec<u8>,
    /// How many bytes have been stored to the register.
    chars_written: usize,
}

impl QEMUOutputInner {
    /// The counter agrees with the register stream.
    spec fn wf(&self) -> bool {
        self.chars_written == self.emitted@.len()
    }

    /// Create a new instance: nothing emitted, nothing counted.
    fn new() -> (r: QEMUOutputInner)
        ensures
            r.wf(),
            r.emitted@ == Seq::<u8>::empty(),
            r.chars_written == 0,
    {
        QEMUOutputInner { emitted: Vec::new(), chars_written: 0 }
    }

    /// Send a character: store it to the output register — one ordered,
    /// never-elided store, modeled by appending to the register stream —
    /// then count it.
    fn write_byte(&mut self, c: u8)
        requires
            old(self).wf(),
            old(self).chars_written < usize::MAX,
        ensures
            final(self).wf(),
            final(self).emitted@ == old(self).emitted@.push(c),
            final(self).chars_written == old(self).chars_written + 1,
    {
        self.emitted.push(c);
        self.chars_written = self.chars_written + 1;
    }

    /// Write a string slice: iterate its encoded bytes in order, converting
    /// each line feed to carriage return plus line feed.
    fn write_str(&mut self, s: &str)
        requires
            old(self).wf(),
            old(self).chars_written + stream_output(
                |b: u8| crlf_output(b),
                s.spec_bytes(),
            ).len() <= usize::MAX,
        ensures
            final(self).wf(),
            final(self).emitted@ == old(self).emitted@ + stream_output(
                |b: u8| crlf_output(b),
                s.spec_bytes(),
            ),
            final(self).chars_written == old(self).chars_written + stream_output(
                |b: u8| crlf_output(b),
                s.spec_bytes(),
            ).len(),
    {
        let ghost pre = *old(self);
        let ghost sb = s.spec_bytes();
        let bytes: &[u8] = s.as_bytes();
        let mut i: usize = 0;
        while i < bytes.len()
            invariant
                bytes@ == sb,
                i <= bytes.len(),
                self.wf(),
                pre.chars_written + stream_output(|b: u8| crlf_output(b), sb).len()
                    <= usize::MAX,
                self.emitted@ == pre.emitted@ + stream_output(
                    |b: u8| crlf_output(b),
                    sb.take(i as int),
                ),
                self.chars_written == pre.chars_written + stream_output(
                    |b: u8| crlf_output(b),
                    sb.take(i as int),
                ).len(),
            decreases bytes.len() - i,
        {
            let c = bytes[i];
            proof {
                assert(sb.take(i + 1).drop_last() =~= sb.take(i as int));
                assert(sb.take(i + 1).last() == c);
                lemma_stream_take_le(|b: u8| crlf_output(b), sb, i + 1);
            }
            if c == LINE_FEED {
                self.write_byte(CARRIAGE_RETURN);
            }
            self.write_byte(c);
            i = i + 1;
            proof {
                assert(self.emitted@ =~= pre.emitted@ + stream_output(
                    |b: u8| crlf_output(b),
                    sb.take(i as int),
                ));
            }
        }
        proof {
            assert(sb.take(sb.len() as int) =~= sb);
        }
    }
}

/// Law: a prefix of a byte sequence never produces a longer stream than the
/// whole sequence.
proof fn lemma_stream_take_le(out: spec_fn(u8) -> Seq<u8>, s: Seq<u8>, i: int)
    requires
        0 <= i <= s.len(),
    ensures
        stream_output(out, s.take(i)).len() <= stream_output(out, s).len(),
    decreases s.len() - i,
{
    if i < s.len() {
        assert(s.take(i + 1).drop_last() =~= s.take(i));
        lemma_stream_take_le(out, s, i + 1);
    } else {
        assert(s.take(i) =~= s);
    }
}

/// The board's output device: a fixed-address, write-only character sink.
/// Concurrent writers are serialized through the internal lock before the
/// register is touched, so the bytes of one write are never interleaved
/// with another's, and no counter update is lost.
pub struct QEMUOutput {
    inner: NullLock<QEMUOutputInner>,
}

impl QEMUOutput {
    /// Create a new instance: nothing emitted, nothing counted, room for
    /// `usize::MAX` physical bytes.
    pub fn new() -> (r: QEMUOutput)
        ensures
            r.inv(),
            r.emitted() == Seq::<u8>::empty(),
            r.consumed() == Seq::<u8>::empty(),
            r.spec_bytes_written() == 0,
            r.spec_bytes_read() == 0,
            forall|n: nat| r.ready_for(n) <==> n <= usize::MAX,
    {
        QEMUOutput { inner: NullLock::new(QEMUOutputInner::new()) }
    }

    /// The bytes the output register has received so far, in order: the
    /// observable hardware effect of this console.
    pub fn emitted_bytes(&self) -> (r: &Vec<u8>)
        requires
            self.inv(),
        ensures
            r@ == self.emitted(),
    {
        &self.inner.lock_shared().emitted
    }
}

/// Return the board console: a fresh handle to the board's output device,
/// created once by board bring-up code and handed to the registry.
pub fn console() -> (c: QEMUOutput)
    ensures
        c.inv(),
        c.emitted() == Seq::<u8>::empty(),
        c.spec_bytes_written() == 0,
        forall|n: nat| c.ready_for(n) <==> n <= usize::MAX,
{
    QEMUOutput::new()
}

impl ConsoleState for QEMUOutput {
    /// The lock is at rest and the counter agrees with the register stream.
    closed spec fn inv(&self) -> bool {
        self.inner.inv() && self.inner.state().wf()
    }
}

impl Write for QEMUOutput {
    /// The device has received exactly the modeled register stream.
    closed spec fn emitted(&self) -> Seq<u8> {
        self.inner.state().emitted@
    }

    /// Each logical byte reaches the wire carriage-return translated.
    open spec fn byte_output(&self, b: u8) -> Seq<u8> {
        crlf_output(b)
    }

    /// The written-byte counter has room for `n` more bytes.
    closed spec fn ready_for(&self, n: nat) -> bool {
        self.inner.state().chars_written + n <= usize::MAX
    }

    fn write_byte(&mut self, b: u8) {
        self.inner.lock(
            move |inner: QEMUOutputInner| -> (res: (QEMUOutputInner, ()))
                requires
                    inner.wf(),
                    inner.chars_written + crlf_output(b).len() <= usize::MAX,
                ensures
                    res.0.wf(),
                    res.0.emitted@ == inner.emitted@ + crlf_output(b),
                    res.0.chars_written == inner.chars_written + crlf_output(b).len()
                {
                    let mut t = inner;
                    if b == LINE_FEED {
                        t.write_byte(CARRIAGE_RETURN);
                    }
                    t.write_byte(b);
                    proof {
                        assert(t.emitted@ =~= inner.emitted@ + crlf_output(b));
                    }
                    (t, ())
                },
        );
    }

    fn write_str(&mut self, s: &str) {
        let ghost pre = *old(self);
        proof {
            lemma_stream_output_congruence(
                |b: u8| pre.byte_output(b),
                |b: u8| crlf_output(b),
                s.spec_bytes(),
            );
        }
        self.inner.lock(
            move |inner: QEMUOutputInner| -> (res: (QEMUOutputInner, ()))
                requires
                    inner.wf(),
                    inner.chars_written + stream_output(
                        |b: u8| crlf_output(b),
                        s.spec_bytes(),
                    ).len() <= usize::MAX,
                ensures
                    res.0.wf(),
                    res.0.emitted@ == inner.emitted@ + stream_output(
                        |b: u8| crlf_output(b),
                        s.spec_bytes(),
                    ),
                    res.0.chars_written == inner.chars_written + stream_output(
                        |b: u8| crlf_output(b),
                        s.spec_bytes(),
                    ).len()
                {
                    let mut t = inner;
                    t.write_str(s);
                    (t, ())
                },
        );
    }

    fn write_fmt(&mut self, s: &str) -> (r: Result<(), FmtError>) {
        self.write_str(s);
        Ok(())
    }

    /// For a write-only memory-mapped sink there is no transmit-status
    /// register to poll: every stored byte counts as transmitted, and flush
    /// has nothing left to wait for.
    fn flush(&self) {
    }
}

impl Read for QEMUOutput {
    /// The device is write-only: nothing is ever consumed.
    open spec fn consumed(&self) -> Seq<u8> {
        Seq::empty()
    }

    /// A read leaves the device untouched and returns the same placeholder
    /// byte as the null console: there is no receiver to read from.
    open spec fn read_post(&self, post: &Self, b: u8) -> bool {
        post == self && b == NULL_READ_BYTE
    }

    fn read_byte(&mut self) -> (b: u8) {
        NULL_READ_BYTE
    }

    fn clear_rx(&mut self) {
    }
}

impl Statistics for QEMUOutput {
    /// The written-byte counter, as kept under the lock.
    closed spec fn spec_bytes_written(&self) -> nat {
        self.inner.state().chars_written as nat
    }

    /// The device is write-only: the read counter stays at zero.
    open spec fn spec_bytes_read(&self) -> nat {
        0
    }

    fn bytes_written(&self) -> (n: usize) {
        self.inner.lock_shared().chars_written
    }

    fn bytes_read(&self) -> (n: usize) {
        0
    }
}

impl Console for QEMUOutput {
    proof fn bytes_written_counts_emitted(&self) {
    }

    proof fn bytes_read_counts_consumed(&self) {
    }
}

/// Law: writing the byte sequence `s` to the board console puts exactly
/// `s.len()` plus the number of line feed bytes in `s` physical bytes on
/// the wire — the carriage-return doubling.
pub proof fn lemma_crlf_stream_len(s: Seq<u8>)
    ensures
        stream_output(|b: u8| crlf_output(b), s).len() == s.len() + lf_count(s),
    decreases s.len(),
{
    if s.len() > 0 {
        lemma_crlf_stream_len(s.drop_last());
    }
}

/// Law: a completed write of the byte sequence `s` to the board console
/// raises its written-byte counter by exactly `s.len()` plus the number of
/// line feed bytes in `s`.
pub proof fn lemma_write_cost(pre: QEMUOutput, post: QEMUOutput, s: Seq<u8>)
    requires
        pre.inv(),
        post.inv(),
        post.emitted() == pre.emitted() + stream_output(|b: u8| pre.byte_output(b), s),
    ensures
        post.spec_bytes_written() == pre.spec_bytes_written() + s.len() + lf_count(s),
{
    lemma_stream_output_congruence(
        |b: u8| pre.byte_output(b),
        |b: u8| crlf_output(b),
        s,
    );
    lemma_crlf_stream_len(s);
}

/// Law: in a byte sequence without line feeds every byte costs exactly one
/// physical byte.
pub proof fn lemma_lf_count_zero(s: Seq<u8>)
    requires
        forall|i: int| 0 <= i < s.len() ==> s[i] != LINE_FEED,
    ensures
        lf_count(s) == 0,
    decreases s.len(),
{
    if s.len() > 0 {
        lemma_lf_count_zero(s.drop_last());
    }
}

/// Law: no update is lost. However completed single-byte writes are
/// interleaved, and in whatever order they complete, after `n` completed
/// writes of bytes other than line feed the written-byte counter has risen
/// by exactly `n`.
pub proof fn lemma_no_lost_updates(pre: QEMUOutput, post: QEMUOutput, bs: Seq<u8>)
    requires
        pre.inv(),
        post.inv(),
        forall|i: int| 0 <= i < bs.len() ==> bs[i] != LINE_FEED,
        post.emitted() == pre.emitted() + stream_output(|b: u8| pre.byte_output(b), bs),
    ensures
        post.spec_bytes_written() == pre.spec_bytes_written() + bs.len(),
{
    lemma_write_cost(pre, post, bs);
    lemma_lf_count_zero(bs);
}

} // verus!
