//! Bounded sample queue between the capture callback and the analysis loop.

use ringbuf::traits::{Consumer, Observer, Producer};
use vstd::prelude::*;

verus! {

/// Number of samples the capture ring holds (about 185 ms at 44.1 kHz).
pub const RING_BUFFER_CAPACITY: usize = 8192;

/// Bounded first-in first-out queue of audio samples.
///
/// A sample is carried as the bit pattern of a single-precision float, so the
/// queue never looks at its value. Pushing never overwrites what is held: the
/// part of a block that does not fit is dropped.
#[verifier::external_body]
pub struct SampleRing {
    rb: ringbuf::HeapRb<u32>,
}

/// The samples a ring holds, oldest first.
pub uninterp spec fn ring_contents(r: SampleRing) -> Seq<u32>;

/// The number of places a ring was created with.
pub uninterp spec fn ring_capacity(r: SampleRing) -> nat;

/// Relies on ringbuf's `HeapRb::new`: an empty ring with exactly `capacity` places.
#[verifier::external_body]
fn rb_new(capacity: usize) -> (r: SampleRing)
    requires
        capacity > 0,
    ensures
        ring_contents(r) == Seq::<u32>::empty(),
        ring_capacity(r) == capacity,
{
    SampleRing { rb: ringbuf::HeapRb::<u32>::new(capacity) }
}

/// Relies on ringbuf's `Observer::capacity`: the number of places.
#[verifier::external_body]
fn rb_capacity(ring: &SampleRing) -> (n: usize)
    ensures
        n == ring_capacity(*ring),
        ring_contents(*ring).len() <= n,
{
    ring.rb.capacity().get()
}

/// Relies on ringbuf's `Observer::occupied_len`: the number of samples held.
#[verifier::external_body]
fn rb_occupied_len(ring: &SampleRing) -> (n: usize)
    ensures
        n == ring_contents(*ring).len(),
{
    ring.rb.occupied_len()
}

/// Relies on ringbuf's `Producer::push_slice`: appends the longest prefix of
/// `samples` that fits in the vacant places and returns its length.
#[verifier::external_body]
fn rb_push_slice(ring: &mut SampleRing, samples: &[u32]) -> (n: usize)
    ensures
        n <= samples@.len(),
        n == samples@.len() || ring_contents(*final(ring)).len() == ring_capacity(*final(ring)),
        ring_contents(*final(ring)) == ring_contents(*old(ring)) + samples@.take(n as int),
        ring_capacity(*final(ring)) == ring_capacity(*old(ring)),
        ring_contents(*final(ring)).len() <= ring_capacity(*final(ring)),
{
    ring.rb.push_slice(samples)
}

/// Relies on ringbuf's `Consumer::pop_slice`: moves the oldest samples into the
/// front of `out`, as many as fit and are held, and returns how many.
#[verifier::external_body]
fn rb_pop_slice(ring: &mut SampleRing, out: &mut Vec<u32>) -> (n: usize)
    ensures
        n as int == if old(out)@.len() < ring_contents(*old(ring)).len() {
            old(out)@.len() as int
        } else {
            ring_contents(*old(ring)).len() as int
        },
        final(out)@ == ring_contents(*old(ring)).take(n as int) + old(out)@.skip(n as int),
        ring_contents(*final(ring)) == ring_contents(*old(ring)).skip(n as int),
        ring_capacity(*final(ring)) == ring_capacity(*old(ring)),
{
    ring.rb.pop_slice(out.as_mut_slice())
}

/// How many of `incoming` samples a ring with `capacity` places holding
/// `held` samples takes in.
pub open spec fn accepted_count(held: nat, capacity: nat, incoming: nat) -> nat {
    if held >= capacity {
        0
    } else if incoming <= capacity - held {
        incoming
    } else {
        (capacity - held) as nat
    }
}

/// What a ring holds after a push: the longest prefix of `incoming` that fits is
/// appended behind `held`, the rest is dropped.
pub open spec fn after_push(held: Seq<u32>, capacity: nat, incoming: Seq<u32>) -> Seq<u32> {
    held + incoming.take(accepted_count(held.len(), capacity, incoming.len()) as int)
}

/// How many samples a pop asking for `max_n` takes out of `held`.
pub open spec fn taken_count(held: Seq<u32>, max_n: nat) -> nat {
    if max_n <= held.len() {
        max_n
    } else {
        held.len()
    }
}

/// The samples a pop asking for `max_n` returns: the oldest ones, in order.
pub open spec fn popped(held: Seq<u32>, max_n: nat) -> Seq<u32> {
    held.take(taken_count(held, max_n) as int)
}

/// What a ring holds after a pop asking for `max_n`.
pub open spec fn after_pop(held: Seq<u32>, max_n: nat) -> Seq<u32> {
    held.skip(taken_count(held, max_n) as int)
}

impl View for SampleRing {
    type V = Seq<u32>;

    open spec fn view(&self) -> Seq<u32> {
        ring_contents(*self)
    }
}

impl SampleRing {
    /// The number of places of this ring.
    pub open spec fn capacity_spec(&self) -> nat {
        ring_capacity(*self)
    }

    /// A ring never holds more samples than it has places.
    pub open spec fn wf(&self) -> bool {
        self@.len() <= self.capacity_spec()
    }

    /// An empty ring with `capacity` places.
    pub fn with_capacity(capacity: usize) -> (r: SampleRing)
        requires
            capacity > 0,
        ensures
            r.wf(),
            r@ == Seq::<u32>::empty(),
            r.capacity_spec() == capacity,
    {
        rb_new(capacity)
    }

    /// The number of places of this ring.
    pub fn capacity(&self) -> (n: usize)
        ensures
            n == self.capacity_spec(),
    {
        rb_capacity(self)
    }

    /// The number of samples held.
    pub fn len(&self) -> (n: usize)
        ensures
            n == self@.len(),
    {
        rb_occupied_len(self)
    }

    /// The number of places still free.
    pub fn free_space(&self) -> (n: usize)
        ensures
            n == self.capacity_spec() - self@.len(),
    {
        let cap = rb_capacity(self);
        let held = rb_occupied_len(self);
        cap - held
    }

    /// Appends the longest prefix of `samples` that fits and returns its length,
    /// `min(samples.len(), free_space)`. Held samples are never overwritten.
    pub fn push_block(&mut self, samples: &[u32]) -> (written: usize)
        ensures
            final(self).wf(),
            written == accepted_count(old(self)@.len(), old(self).capacity_spec(), samples@.len()),
            final(self)@ == after_push(old(self)@, old(self).capacity_spec(), samples@),
            final(self).capacity_spec() == old(self).capacity_spec(),
    {
        rb_push_slice(self, samples)
    }

    /// Removes and returns the oldest `min(max_n, len)` samples, in order; fewer
    /// than asked for, or none, when fewer are held.
    pub fn pop_block(&mut self, max_n: usize) -> (out: Vec<u32>)
        ensures
            out@ == popped(old(self)@, max_n as nat),
            final(self)@ == after_pop(old(self)@, max_n as nat),
            final(self).capacity_spec() == old(self).capacity_spec(),
    {
        let mut out: Vec<u32> = vec![0u32; max_n];
        let n = rb_pop_slice(self, &mut out);
        out.truncate(n);
        proof {
            assert(out@ =~= popped(old(self)@, max_n as nat));
        }
        out
    }
}

/// An empty capture ring of `RING_BUFFER_CAPACITY` places.
pub fn create_ring_buffer() -> (r: SampleRing)
    ensures
        r.wf(),
        r@ == Seq::<u32>::empty(),
        r.capacity_spec() == RING_BUFFER_CAPACITY,
{
    SampleRing::with_capacity(RING_BUFFER_CAPACITY)
}

/// Samples pushed into a ring with room for all of them are all taken in, and a
/// pop of everything held returns them behind what was there before, in the
/// order they were pushed, each exactly once, leaving the ring empty.
pub proof fn lemma_push_then_pop_in_order(held: Seq<u32>, capacity: nat, incoming: Seq<u32>)
    requires
        held.len() + incoming.len() <= capacity,
    ensures
        accepted_count(held.len(), capacity, incoming.len()) == incoming.len(),
        after_push(held, capacity, incoming) == held + incoming,
        popped(after_push(held, capacity, incoming), (held.len() + incoming.len()) as nat) == held
            + incoming,
        after_pop(after_push(held, capacity, incoming), (held.len() + incoming.len()) as nat)
            == Seq::<u32>::empty(),
{
    assert(incoming.take(incoming.len() as int) =~= incoming);
    assert((held + incoming).take((held + incoming).len() as int) =~= held + incoming);
    assert((held + incoming).skip((held + incoming).len() as int) =~= Seq::<u32>::empty());
}

} // verus!
