//! Null console.

use vstd::prelude::*;
use vstd::string::StringSliceAdditionalSpecFns;

use crate::console::{Console, ConsoleState, FmtError, Read, Statistics, Write, stream_output};

verus! {

/// The placeholder byte a read from the null console returns. The capability
/// interface has no way to say "no data available", so callers must not rely
/// on a byte read from the null console carrying meaning.
pub const NULL_READ_BYTE: u8 = 32;

/// A console that satisfies every capability with no-op, zero-value
/// behaviour: a safe absorbing sink, used as the default console before any
/// real device is registered.
#[derive(Clone, Copy, PartialEq, Eq, Structural, Debug)]
pub struct NullConsole;

impl ConsoleState for NullConsole {
    /// The null console is stateless: it is always well formed.
    open spec fn inv(&self) -> bool {
        true
    }
}

impl Write for NullConsole {
    /// The null console performs no hardware writes: nothing is ever
    /// emitted.
    open spec fn emitted(&self) -> Seq<u8> {
        Seq::empty()
    }

    /// Every byte written is absorbed: it contributes no physical output.
    open spec fn byte_output(&self, b: u8) -> Seq<u8> {
        Seq::empty()
    }

    /// Absorbing bytes costs nothing: the null console is always ready.
    open spec fn ready_for(&self, n: nat) -> bool {
        true
    }

    fn write_byte(&mut self, b: u8) {
        proof {
            assert(old(self).emitted() + old(self).byte_output(b) =~= Seq::<u8>::empty());
        }
    }

    fn write_str(&mut self, s: &str) {
        proof {
            lemma_absorbed_stream_is_empty(*old(self), s.spec_bytes());
            assert(old(self).emitted() + stream_output(|b: u8| old(self).byte_output(b), s.spec_bytes())
                =~= Seq::<u8>::empty());
        }
    }

    fn write_fmt(&mut self, s: &str) -> (r: Result<(), FmtError>) {
        proof {
            lemma_absorbed_stream_is_empty(*old(self), s.spec_bytes());
            assert(old(self).emitted() + stream_output(|b: u8| old(self).byte_output(b), s.spec_bytes())
                =~= Seq::<u8>::empty());
        }
        Ok(())
    }

    fn flush(&self) {
    }
}

impl Read for NullConsole {
    /// The null console has no input device: nothing is ever consumed.
    open spec fn consumed(&self) -> Seq<u8> {
        Seq::empty()
    }

    /// A read leaves the console untouched and returns the placeholder byte.
    open spec fn read_post(&self, post: &Self, b: u8) -> bool {
        post == self && b == NULL_READ_BYTE
    }

    fn read_byte(&mut self) -> (b: u8) {
        NULL_READ_BYTE
    }

    fn clear_rx(&mut self) {
    }
}

impl Statistics for NullConsole {
    /// The null console reports zero statistics, always.
    open spec fn spec_bytes_written(&self) -> nat {
        0
    }

    /// The null console reports zero statistics, always.
    open spec fn spec_bytes_read(&self) -> nat {
        0
    }

    fn bytes_written(&self) -> (n: usize) {
        0
    }

    fn bytes_read(&self) -> (n: usize) {
        0
    }
}

impl Console for NullConsole {
    proof fn bytes_written_counts_emitted(&self) {
    }

    proof fn bytes_read_counts_consumed(&self) {
    }
}

/// Law: writing any byte sequence to the null console produces no observable
/// hardware effect — nothing is ever handed to a device — and its
/// written-byte counter stays at zero.
pub proof fn lemma_absorbed_stream_is_empty(n: NullConsole, s: Seq<u8>)
    ensures
        stream_output(|b: u8| n.byte_output(b), s).len() == 0,
        n.emitted() == Seq::<u8>::empty(),
        n.spec_bytes_written() == 0,
    decreases s.len(),
{
    if s.len() > 0 {
        lemma_absorbed_stream_is_empty(n, s.drop_last());
    }
}

} // verus!
