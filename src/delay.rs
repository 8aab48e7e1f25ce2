//! Circular storage of a feedback delay line.
//!
//! The buffer holds the most recent samples written to it, a write cursor and
//! the delay in samples at which it is read. The sample arithmetic (feedback
//! and wet/dry mixing) is done by the caller on the values that `read` hands
//! out and `write` takes in.
use vstd::prelude::*;
use vstd::arithmetic::div_mod::{
    lemma_add_mod_noop,
    lemma_add_mod_noop_right,
    lemma_mod_self_0,
    lemma_fundamental_div_mod,
    lemma_mod_add_multiples_vanish,
};

verus! {

/// The abstract state of a delay buffer.
pub struct DelayState<T> {
    /// The stored samples; the length is the capacity.
    pub contents: Seq<T>,
    /// Index at which the next sample is written.
    pub write_pos: int,
    /// How many samples back the buffer is read.
    pub delay: int,
}

impl<T> DelayState<T> {
    pub open spec fn capacity(self) -> int {
        self.contents.len() as int
    }

    /// Capacity is positive, the cursor is an index, the delay is below capacity.
    pub open spec fn wf(self) -> bool {
        &&& self.capacity() > 0
        &&& 0 <= self.write_pos < self.capacity()
        &&& 0 <= self.delay < self.capacity()
    }

    /// Index that is read: `delay` places behind the write cursor, circularly.
    pub open spec fn read_pos(self) -> int {
        (self.write_pos + self.capacity() - self.delay) % self.capacity()
    }

    /// The sample that a read returns.
    pub open spec fn delayed(self) -> T {
        self.contents[self.read_pos()]
    }

    /// The state after `v` is stored at the cursor and the cursor advances.
    pub open spec fn write(self, v: T) -> DelayState<T> {
        DelayState {
            contents: self.contents.update(self.write_pos, v),
            write_pos: (self.write_pos + 1) % self.capacity(),
            delay: self.delay,
        }
    }

    /// The state after each sample of `xs` is written in order.
    pub open spec fn after(self, xs: Seq<T>) -> DelayState<T>
        decreases xs.len(),
    {
        if xs.len() == 0 {
            self
        } else {
            self.after(xs.drop_last()).write(xs.last())
        }
    }
}

/// Fixed-capacity circular buffer read at a fixed delay behind its write cursor.
pub struct DelayBuffer<T> {
    buffer: Vec<T>,
    write_pos: usize,
    delay_samples: usize,
}

impl<T> View for DelayBuffer<T> {
    type V = DelayState<T>;

    closed spec fn view(&self) -> DelayState<T> {
        DelayState {
            contents: self.buffer@,
            write_pos: self.write_pos as int,
            delay: self.delay_samples as int,
        }
    }
}

impl<T: Copy> DelayBuffer<T> {
    /// A buffer of `capacity` copies of `fill`, read at half its capacity.
    /// A zero capacity is refused.
    pub fn new(capacity: usize, fill: T) -> (r: Option<Self>)
        ensures
            capacity == 0 <==> r is None,
            r matches Some(d) ==> {
                &&& d@.wf()
                &&& d@.contents == Seq::new(capacity as nat, |i: int| fill)
                &&& d@.write_pos == 0
                &&& d@.delay == capacity / 2
            },
    {
        if capacity == 0 {
            return None;
        }
        let mut buffer: Vec<T> = Vec::with_capacity(capacity);
        while buffer.len() < capacity
            invariant
                buffer.len() <= capacity,
                forall|i: int| 0 <= i < buffer.len() ==> buffer@[i] == fill,
            decreases capacity - buffer.len(),
        {
            buffer.push(fill);
        }
        let r = DelayBuffer { buffer, write_pos: 0, delay_samples: capacity / 2 };
        assert(r@.contents =~= Seq::new(capacity as nat, |i: int| fill));
        Some(r)
    }

    pub fn capacity(&self) -> (r: usize)
        requires
            self@.wf(),
        ensures
            r == self@.capacity(),
    {
        self.buffer.len()
    }

    pub fn delay_samples(&self) -> (r: usize)
        requires
            self@.wf(),
        ensures
            r == self@.delay,
    {
        self.delay_samples
    }

    /// Sets the delay, clamped to at most one less than the capacity.
    pub fn set_delay(&mut self, samples: usize)
        requires
            old(self)@.wf(),
        ensures
            final(self)@.wf(),
            final(self)@.contents == old(self)@.contents,
            final(self)@.write_pos == old(self)@.write_pos,
            final(self)@.delay == if samples < old(self)@.capacity() {
                samples as int
            } else {
                old(self)@.capacity() - 1
            },
    {
        let last = self.buffer.len() - 1;
        self.delay_samples = if samples < last { samples } else { last };
    }

    /// The sample stored `delay` places behind the write cursor.
    pub fn read(&self) -> (r: T)
        requires
            self@.wf(),
        ensures
            r == self@.delayed(),
    {
        let len = self.buffer.len();
        let pos = if self.write_pos >= self.delay_samples {
            self.write_pos - self.delay_samples
        } else {
            self.write_pos + (len - self.delay_samples)
        };
        proof {
            let w = self.write_pos as int;
            let d = self.delay_samples as int;
            if w >= d {
                lemma_mod_add_multiples_vanish(w - d, len as int);
            }
            vstd::arithmetic::div_mod::lemma_small_mod(pos as nat, len as nat);
        }
        self.buffer[pos]
    }

    /// Stores `v` at the write cursor and advances the cursor circularly.
    pub fn write(&mut self, v: T)
        requires
            old(self)@.wf(),
        ensures
            final(self)@.wf(),
            final(self)@ == old(self)@.write(v),
    {
        let len = self.buffer.len();
        let pos = self.write_pos;
        self.buffer.set(pos, v);
        self.write_pos = if pos + 1 == len { 0 } else { pos + 1 };
        proof {
            if pos + 1 < len {
                vstd::arithmetic::div_mod::lemma_small_mod((pos + 1) as nat, len as nat);
            } else {
                lemma_mod_self_0(len as int);
            }
        }
    }
}

proof fn lemma_mod_distinct(a: int, b: int, n: int)
    requires
        n > 0,
        0 <= b < a < b + n,
    ensures
        a % n != b % n,
{
    lemma_fundamental_div_mod(a, n);
    lemma_fundamental_div_mod(b, n);
    if a % n == b % n {
        let k = a / n - b / n;
        assert(a - b == n * k) by (nonlinear_arith)
            requires
                a == n * (a / n) + a % n,
                b == n * (b / n) + b % n,
                a % n == b % n,
                k == a / n - b / n,
        ;
        assert(false) by (nonlinear_arith)
            requires
                a - b == n * k,
                0 < a - b < n,
                n > 0,
        ;
    }
}

/// What writing `xs` does: the cursor moves `xs.len()` places, and each of the
/// last `capacity - 1` samples written sits at its own place.
proof fn lemma_after_writes<T>(s: DelayState<T>, xs: Seq<T>)
    requires
        s.wf(),
    ensures
        s.after(xs).wf(),
        s.after(xs).capacity() == s.capacity(),
        s.after(xs).delay == s.delay,
        s.after(xs).write_pos == (s.write_pos + xs.len()) % s.capacity(),
        forall|j: int|
            0 <= j < xs.len() && xs.len() - j < s.capacity() ==> s.after(xs).contents[(
            s.write_pos + j) % s.capacity()] == #[trigger] xs[j],
    decreases xs.len(),
{
    let n = s.capacity();
    let t = xs.len() as int;
    if t == 0 {
        vstd::arithmetic::div_mod::lemma_small_mod(s.write_pos as nat, n as nat);
    } else {
        let prev = xs.drop_last();
        lemma_after_writes(s, prev);
        let p = s.after(prev);
        assert(p.write_pos == (s.write_pos + t - 1) % n);
        lemma_add_mod_noop_right(1, s.write_pos + t - 1, n);
        assert((p.write_pos + 1) % n == (s.write_pos + t) % n);
        assert forall|j: int| 0 <= j < t && t - j < n implies s.after(xs).contents[(s.write_pos
            + j) % n] == #[trigger] xs[j] by {
            if j < t - 1 {
                lemma_mod_distinct(s.write_pos + t - 1, s.write_pos + j, n);
                assert(prev[j] == xs[j]);
            }
        }
    }
}

/// A delay buffer read before each write returns, from the `delay`-th write
/// on, the sample written `delay` writes earlier: with no feedback the line
/// replays its input `delay` samples late. A zero delay is left out: it reads
/// the slot about to be overwritten, which holds the sample written a whole
/// capacity earlier.
pub proof fn lemma_delay_replays_input<T>(s: DelayState<T>, xs: Seq<T>)
    requires
        s.wf(),
        1 <= s.delay <= xs.len(),
    ensures
        s.after(xs).delayed() == xs[xs.len() - s.delay],
{
    lemma_after_writes(s, xs);
    let n = s.capacity();
    let t = xs.len() as int;
    let a = s.after(xs);
    lemma_add_mod_noop(s.write_pos + t, n - s.delay, n);
    vstd::arithmetic::div_mod::lemma_small_mod((n - s.delay) as nat, n as nat);
    lemma_mod_add_multiples_vanish(s.write_pos + t - s.delay, n);
    assert(a.read_pos() == (s.write_pos + (t - s.delay)) % n);
    assert(a.contents[(s.write_pos + (t - s.delay)) % n] == xs[t - s.delay]);
}

} // verus!
