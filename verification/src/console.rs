//! System console: capability interface and registry.
//!
//! A console is described by three orthogonal capability contracts — [`Write`],
//! [`Read`] and [`Statistics`] — and the combined capability [`Console`]
//! required of anything the kernel can print through. The [`Registry`] holds
//! the currently active console: the null console before registration, the
//! registered backend thereafter.

use vstd::prelude::*;
use vstd::string::*;

use crate::null_console::NullConsole;
use crate::synchronization::NullLock;

verus! {

/// Error type of the formatted-write path. It is propagated through
/// [`Write::write_fmt`] for interface fidelity; for memory-mapped sinks a
/// formatted write always succeeds, and every console of this crate proves
/// that it returns `Ok`.
#[derive(Clone, Copy, PartialEq, Eq, Debug)]
pub struct FmtError;

/// Internal well-formedness shared by the console capabilities: the state a
/// constructor establishes and every operation preserves.
pub trait ConsoleState: Sized {
    /// The console's internal invariant.
    spec fn inv(&self) -> bool;
}

/// The physical bytes that writing the byte sequence `s` hands to the
/// device, when writing one logical byte `b` contributes the run `out(b)`:
/// the concatenation of those runs, in order.
pub open spec fn stream_output(out: spec_fn(u8) -> Seq<u8>, s: Seq<u8>) -> Seq<u8>
    decreases s.len(),
{
    if s.len() == 0 {
        Seq::empty()
    } else {
        stream_output(out, s.drop_last()) + out(s.last())
    }
}

/// Console write functions.
///
/// The observable effect of a console's write side is the ordered sequence of
/// bytes it hands to its device ([`Write::emitted`]); each logical byte
/// written contributes the run [`Write::byte_output`] to that sequence, as a
/// unit that no other write comes between.
pub trait Write: ConsoleState {
    /// The bytes this console has handed to its device so far, in order.
    spec fn emitted(&self) -> Seq<u8>;

    /// The physical bytes that writing one logical byte appends to the
    /// device stream.
    spec fn byte_output(&self, b: u8) -> Seq<u8>;

    /// The console can accept `n` more physical bytes without its counters
    /// overflowing.
    spec fn ready_for(&self, n: nat) -> bool;

    /// Write a single byte.
    fn write_byte(&mut self, b: u8)
        requires
            old(self).inv(),
            old(self).ready_for(old(self).byte_output(b).len()),
        ensures
            final(self).inv(),
            final(self).emitted() == old(self).emitted() + old(self).byte_output(b),
            forall|b2: u8| #[trigger] final(self).byte_output(b2) == old(self).byte_output(b2),
            forall|m: nat|
                old(self).ready_for((old(self).byte_output(b).len() + m) as nat)
                    ==> #[trigger] final(self).ready_for(m),
    ;

    /// Write a string slice, byte by byte and in order.
    fn write_str(&mut self, s: &str)
        requires
            old(self).inv(),
            old(self).ready_for(stream_output(|b: u8| old(self).byte_output(b), s.spec_bytes()).len()),
        ensures
            final(self).inv(),
            final(self).emitted() == old(self).emitted() + stream_output(
                |b: u8| old(self).byte_output(b),
                s.spec_bytes(),
            ),
            forall|b2: u8| #[trigger] final(self).byte_output(b2) == old(self).byte_output(b2),
            forall|m: nat|
                old(self).ready_for(
                    (stream_output(|b: u8| old(self).byte_output(b), s.spec_bytes()).len() + m) as nat,
                ) ==> #[trigger] final(self).ready_for(m),
    ;

    /// Write formatted output. The arguments are formatted by the caller;
    /// the console writes the resulting string as [`Write::write_str`] does
    /// and reports success.
    fn write_fmt(&mut self, s: &str) -> (r: Result<(), FmtError>)
        requires
            old(self).inv(),
            old(self).ready_for(stream_output(|b: u8| old(self).byte_output(b), s.spec_bytes()).len()),
        ensures
            final(self).inv(),
            final(self).emitted() == old(self).emitted() + stream_output(
                |b: u8| old(self).byte_output(b),
                s.spec_bytes(),
            ),
            forall|b2: u8| #[trigger] final(self).byte_output(b2) == old(self).byte_output(b2),
            forall|m: nat|
                old(self).ready_for(
                    (stream_output(|b: u8| old(self).byte_output(b), s.spec_bytes()).len() + m) as nat,
                ) ==> #[trigger] final(self).ready_for(m),
            r is Ok,
    ;

    /// Block until the last emitted byte has been physically transmitted.
    /// Transmission leaves the console's observable state unchanged, so no
    /// contract is stated beyond the signature.
    fn flush(&self);
}

/// Console read functions.
pub trait Read: ConsoleState {
    /// The bytes this console has consumed from its device so far, in order.
    spec fn consumed(&self) -> Seq<u8>;

    /// How one blocking read relates the console before the call (`self`)
    /// and after it (`post`) to the byte returned.
    spec fn read_post(&self, post: &Self, b: u8) -> bool;

    /// Read a single byte, blocking until one is available.
    fn read_byte(&mut self) -> (b: u8)
        requires
            old(self).inv(),
        ensures
            final(self).inv(),
            old(self).read_post(final(self), b),
    ;

    /// Discard any buffered but unread input. Bytes already consumed, and
    /// bytes already emitted, are untouched: the console's observable state
    /// does not change.
    fn clear_rx(&mut self)
        requires
            old(self).inv(),
        ensures
            *final(self) == *old(self),
    ;
}

/// Console statistics: cumulative byte counters since the console was
/// created.
pub trait Statistics: ConsoleState {
    /// The number of bytes written, as counted by the console.
    spec fn spec_bytes_written(&self) -> nat;

    /// The number of bytes read, as counted by the console.
    spec fn spec_bytes_read(&self) -> nat;

    /// Return the number of bytes written.
    fn bytes_written(&self) -> (n: usize)
        requires
            self.inv(),
        ensures
            n == self.spec_bytes_written(),
    ;

    /// Return the number of bytes read.
    fn bytes_read(&self) -> (n: usize)
        requires
            self.inv(),
        ensures
            n == self.spec_bytes_read(),
    ;
}

/// Trait alias for a full-fledged console: a type satisfying all three
/// capability contracts, together with the laws that tie its statistics to
/// its device streams.
pub trait Console: Write + Read + Statistics {
    /// Law: the written-byte counter counts exactly the physical bytes
    /// handed to the device — no update is lost.
    proof fn bytes_written_counts_emitted(&self)
        requires
            self.inv(),
        ensures
            self.spec_bytes_written() == self.emitted().len(),
    ;

    /// Law: the read-byte counter counts exactly the bytes consumed from the
    /// device.
    proof fn bytes_read_counts_consumed(&self)
        requires
            self.inv(),
        ensures
            self.spec_bytes_read() == self.consumed().len(),
    ;
}

/// Law: two per-byte output functions that agree on every byte produce the
/// same stream for every byte sequence.
pub proof fn lemma_stream_output_congruence(
    f: spec_fn(u8) -> Seq<u8>,
    g: spec_fn(u8) -> Seq<u8>,
    s: Seq<u8>,
)
    requires
        forall|b: u8| #[trigger] f(b) == g(b),
    ensures
        stream_output(f, s) == stream_output(g, s),
    decreases s.len(),
{
    if s.len() > 0 {
        lemma_stream_output_congruence(f, g, s.drop_last());
    }
}

/// The single slot of the registry: either the inactive state, holding the
/// null console as a safe absorbing default, or the registered backend. The
/// slot is never empty, so the kernel never observes an absent console.
pub enum ConsoleSlot<C> {
    /// No backend registered yet: operations go to the null console.
    Null(NullConsole),
    /// A backend has been registered: operations go to it.
    Active(C),
}

impl<C: Console> ConsoleState for ConsoleSlot<C> {
    /// A slot is well formed when the console it holds is.
    open spec fn inv(&self) -> bool {
        match self {
            ConsoleSlot::Null(n) => n.inv(),
            ConsoleSlot::Active(c) => c.inv(),
        }
    }
}

impl<C: Console> Write for ConsoleSlot<C> {
    /// A slot emits what the console it holds emits.
    open spec fn emitted(&self) -> Seq<u8> {
        match self {
            ConsoleSlot::Null(n) => n.emitted(),
            ConsoleSlot::Active(c) => c.emitted(),
        }
    }

    open spec fn byte_output(&self, b: u8) -> Seq<u8> {
        match self {
            ConsoleSlot::Null(n) => n.byte_output(b),
            ConsoleSlot::Active(c) => c.byte_output(b),
        }
    }

    open spec fn ready_for(&self, n: nat) -> bool {
        match self {
            ConsoleSlot::Null(x) => x.ready_for(n),
            ConsoleSlot::Active(c) => c.ready_for(n),
        }
    }

    fn write_byte(&mut self, b: u8) {
        match self {
            ConsoleSlot::Null(n) => n.write_byte(b),
            ConsoleSlot::Active(c) => c.write_byte(b),
        }
    }

    fn write_str(&mut self, s: &str) {
        let ghost pre = *self;
        match self {
            ConsoleSlot::Null(n) => {
                proof {
                    lemma_stream_output_congruence(
                        |b: u8| pre.byte_output(b),
                        |b: u8| n.byte_output(b),
                        s.spec_bytes(),
                    );
                }
                n.write_str(s);
            }
            ConsoleSlot::Active(c) => {
                proof {
                    lemma_stream_output_congruence(
                        |b: u8| pre.byte_output(b),
                        |b: u8| c.byte_output(b),
                        s.spec_bytes(),
                    );
                }
                c.write_str(s);
            }
        }
    }

    fn write_fmt(&mut self, s: &str) -> (r: Result<(), FmtError>) {
        let ghost pre = *self;
        match self {
            ConsoleSlot::Null(n) => {
                proof {
                    lemma_stream_output_congruence(
                        |b: u8| pre.byte_output(b),
                        |b: u8| n.byte_output(b),
                        s.spec_bytes(),
                    );
                }
                n.write_fmt(s)
            }
            ConsoleSlot::Active(c) => {
                proof {
                    lemma_stream_output_congruence(
                        |b: u8| pre.byte_output(b),
                        |b: u8| c.byte_output(b),
                        s.spec_bytes(),
                    );
                }
                c.write_fmt(s)
            }
        }
    }

    fn flush(&self) {
        match self {
            ConsoleSlot::Null(n) => n.flush(),
            ConsoleSlot::Active(c) => c.flush(),
        }
    }
}

impl<C: Console> Read for ConsoleSlot<C> {
    /// A slot consumes what the console it holds consumes.
    open spec fn consumed(&self) -> Seq<u8> {
        match self {
            ConsoleSlot::Null(n) => n.consumed(),
            ConsoleSlot::Active(c) => c.consumed(),
        }
    }

    /// A read keeps the slot in its variant and behaves as the held console
    /// does.
    open spec fn read_post(&self, post: &Self, b: u8) -> bool {
        match (self, post) {
            (ConsoleSlot::Null(n), ConsoleSlot::Null(n2)) => n.read_post(n2, b),
            (ConsoleSlot::Active(c), ConsoleSlot::Active(c2)) => c.read_post(c2, b),
            _ => false,
        }
    }

    fn read_byte(&mut self) -> (b: u8) {
        match self {
            ConsoleSlot::Null(n) => n.read_byte(),
            ConsoleSlot::Active(c) => c.read_byte(),
        }
    }

    fn clear_rx(&mut self) {
        match self {
            ConsoleSlot::Null(n) => n.clear_rx(),
            ConsoleSlot::Active(c) => c.clear_rx(),
        }
    }
}

impl<C: Console> Statistics for ConsoleSlot<C> {
    open spec fn spec_bytes_written(&self) -> nat {
        match self {
            ConsoleSlot::Null(n) => n.spec_bytes_written(),
            ConsoleSlot::Active(c) => c.spec_bytes_written(),
        }
    }

    open spec fn spec_bytes_read(&self) -> nat {
        match self {
            ConsoleSlot::Null(n) => n.spec_bytes_read(),
            ConsoleSlot::Active(c) => c.spec_bytes_read(),
        }
    }

    fn bytes_written(&self) -> (n: usize) {
        match self {
            ConsoleSlot::Null(x) => x.bytes_written(),
            ConsoleSlot::Active(c) => c.bytes_written(),
        }
    }

    fn bytes_read(&self) -> (n: usize) {
        match self {
            ConsoleSlot::Null(x) => x.bytes_read(),
            ConsoleSlot::Active(c) => c.bytes_read(),
        }
    }
}

impl<C: Console> Console for ConsoleSlot<C> {
    proof fn bytes_written_counts_emitted(&self) {
        match self {
            ConsoleSlot::Null(n) => n.bytes_written_counts_emitted(),
            ConsoleSlot::Active(c) => c.bytes_written_counts_emitted(),
        }
    }

    proof fn bytes_read_counts_consumed(&self) {
        match self {
            ConsoleSlot::Null(n) => n.bytes_read_counts_consumed(),
            ConsoleSlot::Active(c) => c.bytes_read_counts_consumed(),
        }
    }
}

/// The console registry: the single slot holding the currently active
/// console. It is created pointing at the null console; a single registration
/// during board bring-up replaces the held console. Both the replacement and
/// every read go through the synchronization primitive, so no reader can
/// observe a half-updated slot.
///
/// The registry depends only on the capability interface, never on a concrete
/// backend type: it is the point of indirection that keeps kernel-wide
/// printing hardware-agnostic.
pub struct Registry<C: Console> {
    cur: NullLock<ConsoleSlot<C>>,
}

impl<C: Console> Registry<C> {
    /// The registry's lock is at rest and the console it holds is well
    /// formed.
    pub closed spec fn inv(&self) -> bool {
        self.cur.inv() && self.cur.state().inv()
    }

    /// The currently active console.
    pub closed spec fn current(&self) -> ConsoleSlot<C> {
        self.cur.state()
    }

    /// Create the registry in its initial state: the null console is active,
    /// so the kernel never observes an absent console.
    pub fn new() -> (r: Self)
        ensures
            r.inv(),
            r.current() == ConsoleSlot::<C>::Null(NullConsole),
    {
        Registry { cur: NullLock::new(ConsoleSlot::Null(NullConsole)) }
    }

    /// Register a new console: replace the active console, inside the lock
    /// scope of the synchronization primitive.
    pub fn register_console(&mut self, new_console: C)
        requires
            old(self).inv(),
            new_console.inv(),
        ensures
            final(self).inv(),
            final(self).current() == ConsoleSlot::Active(new_console),
    {
        self.cur.lock(
            move |cur: ConsoleSlot<C>| -> (res: (ConsoleSlot<C>, ()))
                ensures
                    res == (ConsoleSlot::Active(new_console), ())
                {
                    (ConsoleSlot::Active(new_console), ())
                },
        );
    }

    /// Return a borrow of the currently active console, read under the lock.
    /// Until the next registration every call returns the same, always-valid
    /// console.
    pub fn console(&self) -> (r: &ConsoleSlot<C>)
        requires
            self.inv(),
        ensures
            *r == self.current(),
            r.inv(),
    {
        self.cur.lock_shared()
    }

    /// Exclusive access to the currently active console, for the write path:
    /// the lock is held for the duration of the returned borrow.
    pub fn console_mut(&mut self) -> (r: &mut ConsoleSlot<C>)
        requires
            old(self).inv(),
        ensures
            *r == old(self).current(),
            final(self).current() == *final(r),
            (*final(r)).inv() ==> final(self).inv(),
    {
        self.cur.lock_exclusive()
    }
}

/// Law: a registration determines what the registry hands out. While the
/// current console is the one a `register_console(c)` call installed, every
/// query returns exactly `ConsoleSlot::Active(c)` — so queries without an
/// intervening registration all agree.
pub proof fn lemma_registered_console_is_current<C: Console>(
    r: Registry<C>,
    c: C,
    q1: ConsoleSlot<C>,
    q2: ConsoleSlot<C>,
)
    requires
        r.current() == ConsoleSlot::Active(c),
        q1 == r.current(),
        q2 == r.current(),
    ensures
        q1 == ConsoleSlot::Active(c),
        q1 == q2,
{
}

} // verus!
