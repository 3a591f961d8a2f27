//! UART debug output: a ring of 256 bytes between the code that writes and
//! the interrupt handler that feeds the UART.
//!
//! The writer owns the write index and the bytes before it, the interrupt
//! handler owns the read index.  One slot of the ring stays empty, so that a
//! full ring and an empty one can be told apart.

use vstd::prelude::*;
use vstd::string::StringSliceAdditionalSpecFns;

verus! {

/// The number of bytes that the TX FIFO of the UART takes.
pub const FIFO_SIZE: usize = 8;

/// The most bytes that the ring holds.
pub const RING_CAPACITY: usize = 255;

/// What the debug output needs to know of the crate that uses it.
pub trait Meta: Sized {
    /// Bring the UART up, if that has not been done yet.
    fn lazy_init(&self);

    /// What `is_init` may answer.  An implementation that says nothing of
    /// itself leaves this at `true`.
    open spec fn may_be_init(&self, b: bool) -> bool {
        true
    }

    /// Has the UART been brought up?
    fn is_init(&self) -> (b: bool)
        ensures
            self.may_be_init(b),
    ;

    /// The number of the UART's interrupt.
    fn interrupt(&self) -> u32;

    /// Whether there is debug output at all.
    const ENABLE: bool;
}

/// The flags of the UART's status register that the handlers go by.
#[derive(Clone, Copy, PartialEq, Eq, Structural, Debug)]
pub struct UartStatus {
    /// Transmission complete.
    pub tc: bool,
    /// The TX FIFO is empty.
    pub txfe: bool,
}

/// One operation on the UART.  A handler returns the operations that its
/// caller has to carry out, in their order.
#[derive(Clone, Copy, PartialEq, Eq, Structural, Debug)]
pub enum UartAction {
    /// Switch off the interrupt on transmission complete.
    ClearTcie,
    /// Put this byte into the TX FIFO.
    Send(u8),
    /// Switch off the interrupt on an empty TX FIFO.
    ClearTxfeie,
}

/// The ring.
pub struct Debug<M> {
    /// Where the next byte is written.
    pub w: u8,
    /// Where the next byte is read.
    pub r: u8,
    /// The bytes; those from `r` up to `w` wait to be sent.
    pub buf: [u8; 256],
    /// The crate's own data.
    pub meta: M,
}

/// The bytes that a handler sends: one operation for each.
pub open spec fn sends(bytes: Seq<u8>) -> Seq<UartAction> {
    Seq::new(bytes.len(), |i: int| UartAction::Send(bytes[i]))
}

/// The operations of the interrupt handler on the status `sr`, with the
/// bytes `pending` in the ring: as many bytes as the FIFO takes are sent
/// when it is empty, and the interrupt that asks for more is switched off
/// when the ring has run dry.
pub open spec fn isr_actions(sr: UartStatus, pending: Seq<u8>) -> Seq<UartAction> {
    let first = if sr.tc {
        seq![UartAction::ClearTcie]
    } else {
        Seq::empty()
    };
    if !sr.txfe {
        first
    } else if pending.len() <= FIFO_SIZE {
        first + sends(pending).push(UartAction::ClearTxfeie)
    } else {
        first + sends(pending.subrange(0, FIFO_SIZE as int))
    }
}

/// The number of bytes that the interrupt handler takes from a ring of
/// `count` bytes: none while the FIFO is busy, else as many as the FIFO
/// takes, or all there are.
pub open spec fn isr_taken(sr: UartStatus, count: int) -> int {
    if !sr.txfe {
        0
    } else if count <= FIFO_SIZE {
        count
    } else {
        FIFO_SIZE as int
    }
}

/// What the interrupt handler leaves in the ring.
pub open spec fn isr_pending(sr: UartStatus, pending: Seq<u8>) -> Seq<u8> {
    if !sr.txfe {
        pending
    } else if pending.len() <= FIFO_SIZE {
        Seq::empty()
    } else {
        pending.subrange(FIFO_SIZE as int, pending.len() as int)
    }
}

/// The `count` bytes of a ring that start at index `r`, the oldest first.
pub open spec fn ring(buf: Seq<u8>, r: int, count: int) -> Seq<u8> {
    Seq::new(count as nat, |i: int| buf[(r + i) % 256])
}

/// A byte that is stored behind the last one comes out last.
pub proof fn lemma_ring_push(buf: Seq<u8>, r: int, count: int, b: u8)
    requires
        buf.len() == 256,
        0 <= r < 256,
        0 <= count < 256,
    ensures
        ring(buf.update((r + count) % 256, b), r, count + 1) == ring(buf, r, count).push(b),
{
    let after = buf.update((r + count) % 256, b);
    assert forall|i: int| 0 <= i < count + 1 implies ring(after, r, count + 1)[i] == ring(
        buf,
        r,
        count,
    ).push(b)[i] by {
        if i < count {
            assert((r + i) % 256 != (r + count) % 256);
        }
    }
    assert(ring(after, r, count + 1) =~= ring(buf, r, count).push(b));
}

/// What is left when the `done` oldest bytes are gone.
pub proof fn lemma_ring_skip(buf: Seq<u8>, r: int, count: int, done: int)
    requires
        0 <= r < 256,
        0 <= done <= count,
    ensures
        ring(buf, (r + done) % 256, count - done) == ring(buf, r, count).subrange(done, count),
{
    assert forall|i: int| 0 <= i < count - done implies ring(buf, (r + done) % 256, count - done)[i]
        == ring(buf, r, count).subrange(done, count)[i] by {
        assert(((r + done) % 256 + i) % 256 == (r + done + i) % 256);
    }
    assert(ring(buf, (r + done) % 256, count - done) =~= ring(buf, r, count).subrange(done, count));
}

/// Where the read index stands when `done` bytes of a ring have gone, and
/// how many bytes are left then.
pub proof fn lemma_ring_index(r: int, w: int, done: int)
    requires
        0 <= r < 256,
        0 <= w < 256,
        0 <= done <= (w - r) % 256,
    ensures
        ((r + done) % 256 == w) == (done == (w - r) % 256),
        (w - (r + done) % 256) % 256 == (w - r) % 256 - done,
{
    if w >= r {
        assert((w - r) % 256 == w - r);
        assert((r + done) % 256 == r + done);
    } else {
        assert((w - r) % 256 == w - r + 256);
        if r + done < 256 {
            assert((r + done) % 256 == r + done);
        } else {
            assert((r + done) % 256 == r + done - 256);
        }
    }
}

/// The ring is full when the write index stands just before the read index,
/// and that is when it holds 255 bytes.
pub proof fn lemma_ring_full(r: int, w: int, count: int)
    requires
        0 <= r < 256,
        0 <= count <= 255,
        w == (r + count) % 256,
    ensures
        ((r - w) % 256 == 1) == (count == 255),
        (w - r) % 256 == count,
{
    if r + count < 256 {
        assert(w == r + count);
    } else {
        assert(w == r + count - 256);
    }
}

/// Sending one byte more is one operation more.
pub proof fn lemma_sends_push(bytes: Seq<u8>, done: int)
    requires
        0 <= done < bytes.len(),
    ensures
        sends(bytes.subrange(0, done + 1)) == sends(bytes.subrange(0, done)).push(
            UartAction::Send(bytes[done]),
        ),
{
    assert(sends(bytes.subrange(0, done + 1)) =~= sends(bytes.subrange(0, done)).push(
        UartAction::Send(bytes[done]),
    ));
}

impl<M: Meta> Debug<M> {
    /// The number of bytes in the ring.
    pub open spec fn count(&self) -> int {
        (self.w - self.r) % 256
    }

    /// The bytes in the ring, the oldest first.
    pub open spec fn pending(&self) -> Seq<u8> {
        ring(self.buf@, self.r as int, self.count())
    }

    /// An empty ring.
    pub fn new(meta: M) -> (d: Self)
        ensures
            d.pending() == Seq::<u8>::empty(),
            d.w == 0,
            d.r == 0,
            d.meta == meta,
    {
        let d = Debug { w: 0, r: 0, buf: [0u8; 256], meta };
        assert(d.pending() =~= Seq::<u8>::empty());
        d
    }

    /// Puts the bytes of `s` into the ring, as many as there is room for,
    /// and returns how many of them are dealt with.  Where that is not all
    /// of `s`, the ring is full: the caller lets the UART take some and
    /// comes back with the rest.  Without debug output all of `s` is dropped.
    pub fn write_bytes(&mut self, s: &[u8]) -> (n: usize)
        ensures
            !M::ENABLE ==> n == s@.len() && *final(self) == *old(self),
            M::ENABLE ==> {
                &&& n == if s@.len() <= RING_CAPACITY - old(self).count() {
                    s@.len() as int
                } else {
                    RING_CAPACITY - old(self).count()
                }
                &&& final(self).pending() == old(self).pending() + s@.subrange(0, n as int)
                &&& final(self).r == old(self).r
                &&& final(self).w == (old(self).w + n) % 256
                &&& final(self).meta == old(self).meta
            },
    {
        if !M::ENABLE {
            return s.len();
        }
        self.meta.lazy_init();
        let mut w: u8 = self.w;
        let mut n: usize = 0;
        let ghost r = self.r as int;
        let ghost count = self.count();
        assert(ring(self.buf@, r, count) =~= old(self).pending() + s@.subrange(0, 0));
        proof {
            lemma_ring_full(r, w as int, count);
        }
        while n < s.len() && self.r.wrapping_sub(w) != 1
            invariant
                n <= s@.len(),
                self.r == r,
                self.meta == old(self).meta,
                0 <= count,
                count + n <= RING_CAPACITY,
                w == (r + count + n) % 256,
                (self.r.wrapping_sub(w) == 1) == (count + n == RING_CAPACITY),
                ring(self.buf@, r, count + n) == old(self).pending() + s@.subrange(0, n as int),
            ensures
                n == s@.len() || count + n == RING_CAPACITY,
            decreases s@.len() - n,
        {
            let b = s[n];
            proof {
                lemma_ring_push(self.buf@, r, count + n, b);
                assert(s@.subrange(0, n + 1) =~= s@.subrange(0, n as int).push(b));
                assert((old(self).pending() + s@.subrange(0, n as int)).push(b) =~= old(
                    self,
                ).pending() + s@.subrange(0, n + 1));
            }
            self.buf[w as usize] = b;
            w = w.wrapping_add(1);
            n += 1;
            proof {
                lemma_ring_full(r, w as int, count + n);
            }
        }
        proof {
            lemma_ring_full(r, w as int, count + n);
        }
        self.w = w;
        n
    }

    /// The interrupt handler of the UART, for the status `sr`.
    pub fn isr(&mut self, sr: &UartStatus) -> (actions: Vec<UartAction>)
        ensures
            !M::ENABLE ==> actions@ == Seq::<UartAction>::empty() && *final(self) == *old(self),
            M::ENABLE ==> {
                &&& actions@ == isr_actions(*sr, old(self).pending())
                &&& final(self).pending() == isr_pending(*sr, old(self).pending())
                &&& final(self).r == (old(self).r + isr_taken(*sr, old(self).count())) % 256
                &&& final(self).w == old(self).w
                &&& final(self).buf == old(self).buf
                &&& final(self).meta == old(self).meta
            },
    {
        let mut actions: Vec<UartAction> = Vec::new();
        if !M::ENABLE {
            return actions;
        }
        if sr.tc {
            actions.push(UartAction::ClearTcie);
        }
        if !sr.txfe {
            assert(actions@ =~= isr_actions(*sr, old(self).pending()));
            return actions;
        }
        let ghost first = actions@;
        let ghost pending = self.pending();
        let ghost count = self.count();
        let mut r: usize = self.r as usize;
        let w: usize = self.w as usize;
        let mut done: usize = 0;
        assert(actions@ =~= first + sends(pending.subrange(0, 0)));
        while r != w && done < FIFO_SIZE
            invariant
                *self == *old(self),
                pending == ring(self.buf@, self.r as int, count),
                count == (self.w - self.r) % 256,
                w == self.w,
                done <= FIFO_SIZE,
                done <= count,
                r == (self.r + done) % 256,
                actions@ == first + sends(pending.subrange(0, done as int)),
            decreases FIFO_SIZE - done,
        {
            proof {
                lemma_ring_index(self.r as int, w as int, done as int);
                lemma_sends_push(pending, done as int);
                assert(pending[done as int] == self.buf@[r as int]);
            }
            actions.push(UartAction::Send(self.buf[r]));
            let next: usize = r + 1;
            assert(next & 0xff == next % 256) by (bit_vector);
            r = next & 0xff;
            done += 1;
            assert(actions@ =~= first + sends(pending.subrange(0, done as int)));
        }
        proof {
            lemma_ring_index(old(self).r as int, w as int, done as int);
            lemma_ring_skip(old(self).buf@, old(self).r as int, count, done as int);
        }
        self.r = r as u8;
        if r == w {
            actions.push(UartAction::ClearTxfeie);
        }
        assert(self.pending() == isr_pending(*sr, pending)) by {
            assert(self.count() == count - done);
            assert(pending.len() == count);
            if done == count {
                assert(pending.subrange(count, count) =~= Seq::<u8>::empty());
            }
        }
        assert(actions@ == isr_actions(*sr, pending)) by {
            assert(pending.len() == count);
            if done == count {
                assert(pending.subrange(0, count) =~= pending);
                assert(actions@ =~= first + sends(pending).push(UartAction::ClearTxfeie));
            } else {
                assert(done == FIFO_SIZE);
                assert(actions@ =~= first + sends(pending.subrange(0, FIFO_SIZE as int)));
            }
        }
        actions
    }

    /// Whether a flush has more to wait for: it has until the ring is empty
    /// and the UART has sent its last byte.
    pub fn busy(&self, sr: &UartStatus) -> (b: bool)
        ensures
            b == !(self.pending().len() == 0 && sr.tc && sr.txfe),
    {
        !(self.r == self.w && sr.tc && sr.txfe)
    }
}

/// The interrupt handler of the UART.
pub fn debug_isr<M: Meta>(debug: &mut Debug<M>, sr: &UartStatus) -> (actions: Vec<UartAction>)
    ensures
        !M::ENABLE ==> actions@ == Seq::<UartAction>::empty() && *final(debug) == *old(debug),
        M::ENABLE ==> {
            &&& actions@ == isr_actions(*sr, old(debug).pending())
            &&& final(debug).pending() == isr_pending(*sr, old(debug).pending())
            &&& final(debug).r == (old(debug).r + isr_taken(*sr, old(debug).count())) % 256
            &&& final(debug).w == old(debug).w
            &&& final(debug).buf == old(debug).buf
            &&& final(debug).meta == old(debug).meta
        },
{
    debug.isr(sr)
}

/// One turn of a flush: whether the caller has to let the UART take more and
/// ask again.  There is nothing to wait for without debug output, nor
/// before the UART has been brought up.
pub fn flush<M: Meta>(debug: &Debug<M>, sr: &UartStatus) -> (more: bool)
    ensures
        more ==> M::ENABLE && debug.meta.may_be_init(true) && !(debug.pending().len() == 0
            && sr.tc && sr.txfe),
        !more ==> !M::ENABLE || debug.meta.may_be_init(false) || (debug.pending().len() == 0
            && sr.tc && sr.txfe),
{
    if !M::ENABLE || !debug.meta.is_init() {
        return false;
    }
    debug.busy(sr)
}

/// Puts the bytes of a string into the ring, as `write_bytes` does.
pub fn write_str<M: Meta>(debug: &mut Debug<M>, s: &str) -> (n: usize)
    ensures
        !M::ENABLE ==> n == s.spec_bytes().len() && *final(debug) == *old(debug),
        M::ENABLE ==> {
            &&& n == if s.spec_bytes().len() <= RING_CAPACITY - old(debug).count() {
                s.spec_bytes().len() as int
            } else {
                RING_CAPACITY - old(debug).count()
            }
            &&& final(debug).pending() == old(debug).pending() + s.spec_bytes().subrange(
                0,
                n as int,
            )
            &&& final(debug).r == old(debug).r
            &&& final(debug).w == (old(debug).w + n) % 256
            &&& final(debug).meta == old(debug).meta
        },
{
    debug.write_bytes(s.as_bytes())
}

} // verus!
