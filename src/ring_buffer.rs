//! Fixed-capacity circular sample store shared between the capture callback
//! (which appends) and the analysis worker (which copies the newest samples).

use vstd::prelude::*;

verus! {

/// The last `n` elements of `s` (all of `s` when it is shorter).
pub open spec fn last_n<T>(s: Seq<T>, n: nat) -> Seq<T> {
    if n <= s.len() {
        s.subrange(s.len() - n, s.len() as int)
    } else {
        s
    }
}

/// The concatenation of a sequence of blocks, in order.
pub open spec fn flatten<T>(blocks: Seq<Seq<T>>) -> Seq<T>
    decreases blocks.len(),
{
    if blocks.len() == 0 {
        Seq::empty()
    } else {
        flatten(blocks.drop_last()) + blocks.last()
    }
}

/// Position in the backing store of the `i`-th oldest sample of the window
/// that starts at `start`.
pub open spec fn slot(start: int, i: int, cap: int) -> int {
    if start + i < cap {
        start + i
    } else {
        start + i - cap
    }
}

/// A circular buffer that keeps the `capacity` most recent samples.
pub struct AudioBuffer<T> {
    samples: Vec<T>,
    write_pos: usize,
    capacity: usize,
    /// Every sample the buffer has held: `capacity` initial values followed by
    /// all pushed samples, oldest first.
    history: Ghost<Seq<T>>,
}

impl<T: Copy + Default> AudioBuffer<T> {
    /// The samples the buffer has ever held, oldest first: `capacity`
    /// default values, then every pushed sample.
    pub closed spec fn history(&self) -> Seq<T> {
        self.history@
    }

    pub closed spec fn spec_capacity(&self) -> nat {
        self.capacity as nat
    }

    /// The samples currently stored, oldest first.
    pub closed spec fn window(&self) -> Seq<T> {
        Seq::new(
            self.capacity as nat,
            |i: int| self.samples@[slot(self.write_pos as int, i, self.capacity as int)],
        )
    }

    pub closed spec fn wf(&self) -> bool {
        &&& self.capacity > 0
        &&& self.samples@.len() == self.capacity
        &&& self.write_pos < self.capacity
        &&& self.history@.len() >= self.capacity
        &&& self.window() == last_n(self.history@, self.capacity as nat)
    }

    /// A buffer of `capacity` samples, all the type's default value.
    pub fn new(capacity: usize) -> (r: Self)
        requires
            capacity > 0,
        ensures
            r.wf(),
            r.spec_capacity() == capacity,
            r.history().len() == capacity,
            forall|i: int| 0 <= i < capacity ==> #[trigger] r.history()[i] == r.history()[0],
    {
        let fill = T::default();
        let mut samples: Vec<T> = Vec::new();
        let mut i: usize = 0;
        while i < capacity
            invariant
                i <= capacity,
                samples@ == Seq::new(i as nat, |j: int| fill),
            decreases capacity - i,
        {
            samples.push(fill);
            i = i + 1;
            assert(samples@ =~= Seq::new(i as nat, |j: int| fill));
        }
        let ghost h = Seq::new(capacity as nat, |j: int| fill);
        let r = AudioBuffer { samples, write_pos: 0, capacity, history: Ghost(h) };
        assert(r.window() =~= last_n(h, capacity as nat));
        r
    }

    /// Appends one sample, overwriting the oldest.
    fn push_one(&mut self, x: T)
        requires
            old(self).wf(),
        ensures
            final(self).wf(),
            final(self).spec_capacity() == old(self).spec_capacity(),
            final(self).history() == old(self).history().push(x),
    {
        let ghost before = self.window();
        let cap = self.capacity;
        let wp = self.write_pos;
        self.samples.set(wp, x);
        self.write_pos = if wp + 1 == cap { 0 } else { wp + 1 };
        self.history = Ghost(self.history@.push(x));
        proof {
            let h = self.history@;
            let c = cap as int;
            assert(self.window() =~= before.drop_first().push(x)) by {
                assert forall|i: int| 0 <= i < c implies self.window()[i]
                    == before.drop_first().push(x)[i] by {
                    if i < c - 1 {
                        assert(slot(self.write_pos as int, i, c) == slot(wp as int, i + 1, c));
                    } else {
                        assert(slot(self.write_pos as int, i, c) == wp);
                    }
                }
            }
            assert(h.drop_last() =~= old(self).history@);
            assert(last_n(h, cap as nat) =~= last_n(h.drop_last(), cap as nat).drop_first().push(x));
        }
    }

    /// Appends the samples in order, overwriting the oldest ones once the
    /// buffer is full.
    pub fn push_samples(&mut self, data: &[T])
        requires
            old(self).wf(),
        ensures
            final(self).wf(),
            final(self).spec_capacity() == old(self).spec_capacity(),
            final(self).history() == old(self).history() + data@,
    {
        let ghost h0 = self.history();
        let mut k: usize = 0;
        while k < data.len()
            invariant
                self.wf(),
                self.spec_capacity() == old(self).spec_capacity(),
                h0 == old(self).history(),
                k <= data@.len(),
                self.history() == h0 + data@.subrange(0, k as int),
            decreases data.len() - k,
        {
            self.push_one(data[k]);
            assert(h0 + data@.subrange(0, k + 1) =~= (h0 + data@.subrange(0, k as int)).push(data@[k as int]));
            k = k + 1;
        }
        assert(data@.subrange(0, data@.len() as int) =~= data@);
    }

    /// The `count` most recent samples in time order; `count` is capped at
    /// the capacity.
    pub fn get_latest(&self, count: usize) -> (r: Vec<T>)
        requires
            self.wf(),
        ensures
            r@ == last_n(self.history(), if count <= self.spec_capacity() { count as nat } else { self.spec_capacity() }),
    {
        let cap = self.capacity;
        let n = if count < cap { count } else { cap };
        let start = if self.write_pos >= n { self.write_pos - n } else { cap - (n - self.write_pos) };
        let mut result: Vec<T> = Vec::new();
        let mut i: usize = 0;
        while i < n
            invariant
                self.wf(),
                cap == self.capacity,
                n <= cap,
                start < cap,
                start as int == slot(self.write_pos as int, cap - n, cap as int),
                i <= n,
                result@ == self.window().subrange(cap - n, cap - n + i),
            decreases n - i,
        {
            let idx = if i < cap - start { start + i } else { i - (cap - start) };
            assert(idx as int == slot(self.write_pos as int, cap - n + i, cap as int));
            result.push(self.samples[idx]);
            i = i + 1;
            assert(result@ =~= self.window().subrange(cap - n, cap - n + i));
        }
        proof {
            let h = self.history@;
            assert(last_n(h, n as nat) =~= last_n(h, cap as nat).subrange(cap - n, cap as int));
        }
        result
    }

    /// The number of samples the buffer keeps.
    pub fn capacity(&self) -> (r: usize)
        ensures
            r == self.spec_capacity(),
    {
        self.capacity
    }
}

/// Law of the ring buffer: after any sequence of pushes into a new buffer,
/// the `n` latest samples (`n` at most the capacity and at most the number
/// of samples pushed) are the last `n` elements of the concatenation of all
/// pushed blocks.
pub proof fn lemma_latest_is_tail_of_pushes<T>(initial: Seq<T>, pushes: Seq<Seq<T>>, cap: nat, n: nat)
    requires
        initial.len() == cap,
        n <= cap,
        n <= flatten(pushes).len(),
    ensures
        last_n(initial + flatten(pushes), n) == last_n(flatten(pushes), n),
{
    let all = initial + flatten(pushes);
    let p = flatten(pushes);
    assert(last_n(all, n) =~= last_n(p, n));
}

} // verus!
