//! Baseline filter: a ring of the most recent readings and their running
//! mean.

use vstd::prelude::*;

verus! {

/// The contents of a window of capacity `cap` after `value` has entered it:
/// while there is room the window grows, afterwards its oldest entry leaves.
pub open spec fn pushed<T>(window: Seq<T>, cap: nat, value: T) -> Seq<T> {
    if window.len() < cap {
        window.push(value)
    } else {
        window.subrange(1, window.len() as int).push(value)
    }
}

/// The contents of a window of capacity `cap` after the entries of `values`
/// have entered it one by one, first entry first.
pub open spec fn fed<T>(window: Seq<T>, cap: nat, values: Seq<T>) -> Seq<T>
    decreases values.len(),
{
    if values.len() == 0 {
        window
    } else {
        pushed(fed(window, cap, values.drop_last()), cap, values.last())
    }
}

/// The last `n` entries of `s`, or all of `s` where it has fewer.
pub open spec fn tail<T>(s: Seq<T>, n: nat) -> Seq<T> {
    if s.len() <= n {
        s
    } else {
        s.subrange(s.len() - n, s.len() as int)
    }
}

/// Sum of the entries of `window`.
pub open spec fn total(window: Seq<u32>) -> nat
    decreases window.len(),
{
    if window.len() == 0 {
        0
    } else {
        total(window.drop_last()) + window.last() as nat
    }
}

/// Mean of the entries of `window`, rounded down; zero for an empty window.
pub open spec fn mean(window: Seq<u32>) -> nat {
    if window.len() == 0 {
        0
    } else {
        total(window) / window.len()
    }
}

/// A window never holds more than the most recent entries: whatever it held
/// before, after `values` have entered it holds the last `cap` entries of
/// what it held followed by `values`.
pub proof fn lemma_fed_is_tail<T>(window: Seq<T>, cap: nat, values: Seq<T>)
    requires
        0 < cap,
        window.len() <= cap,
    ensures
        fed(window, cap, values) == tail(window + values, cap),
    decreases values.len(),
{
    if values.len() > 0 {
        lemma_fed_is_tail(window, cap, values.drop_last());
    }
}

/// Once at least `cap` values have entered, the window holds exactly the last
/// `cap` of them, and nothing of what it held before: its mean is theirs.
pub proof fn lemma_fed_forgets(window: Seq<u32>, cap: nat, values: Seq<u32>)
    requires
        0 < cap <= values.len(),
        window.len() <= cap,
    ensures
        fed(window, cap, values) == values.subrange(values.len() - cap, values.len() as int),
        mean(fed(window, cap, values)) == mean(
            values.subrange(values.len() - cap, values.len() as int),
        ),
{
    lemma_fed_is_tail(window, cap, values);
}

/// The sum of a window in which every entry is `value`.
pub proof fn lemma_total_constant(window: Seq<u32>, value: u32)
    requires
        forall|i: int| 0 <= i < window.len() ==> window[i] == value,
    ensures
        total(window) == window.len() * value,
    decreases window.len(),
{
    if window.len() > 0 {
        lemma_total_constant(window.drop_last(), value);
        assert(window.len() * value == (window.len() - 1) * value + value)
            by (nonlinear_arith);
    }
}

/// After at least `cap` entries of one value `value` have entered a window,
/// its mean is `value`.
pub proof fn lemma_mean_of_constant_feed(
    window: Seq<u32>,
    cap: nat,
    values: Seq<u32>,
    value: u32,
)
    requires
        0 < cap <= values.len(),
        window.len() <= cap,
        forall|i: int| 0 <= i < values.len() ==> values[i] == value,
    ensures
        mean(fed(window, cap, values)) == value,
{
    lemma_fed_forgets(window, cap, values);
    let w = fed(window, cap, values);
    lemma_total_constant(w, value);
    assert((cap * value) as nat / cap == value) by (nonlinear_arith)
        requires
            cap > 0,
    ;
}

/// The sum of a window is at most its length times the largest entry a
/// window can hold.
pub proof fn lemma_total_bound(window: Seq<u32>)
    ensures
        total(window) <= window.len() * 0xffff_ffff,
    decreases window.len(),
{
    if window.len() > 0 {
        lemma_total_bound(window.drop_last());
    }
}

/// The mean of a window is no larger than the largest entry a window can
/// hold.
pub proof fn lemma_mean_bound(window: Seq<u32>)
    ensures
        mean(window) <= u32::MAX,
{
    lemma_total_bound(window);
    if window.len() > 0 {
        assert(total(window) / window.len() <= 0xffff_ffff) by (nonlinear_arith)
            requires
                window.len() > 0,
                total(window) <= window.len() * 0xffff_ffff,
        ;
    }
}

/// The sum of a window without its oldest entry.
proof fn lemma_total_without_first(window: Seq<u32>)
    requires
        window.len() > 0,
    ensures
        total(window.subrange(1, window.len() as int)) + window[0] == total(window),
    decreases window.len(),
{
    let rest = window.subrange(1, window.len() as int);
    if window.len() == 1 {
        assert(total(window.drop_last()) == 0);
    } else {
        lemma_total_without_first(window.drop_last());
        assert(rest.drop_last() =~= window.drop_last().subrange(1, window.len() - 1));
    }
}

/// The sum of a window follows its contents: when a value enters, the sum
/// grows by it, and shrinks by the entry that leaves.
pub proof fn lemma_total_pushed(window: Seq<u32>, cap: nat, value: u32)
    requires
        0 < cap,
        window.len() <= cap,
    ensures
        total(pushed(window, cap, value)) == total(window) + value - if window.len() < cap {
            0
        } else {
            window[0] as int
        },
{
    let after = pushed(window, cap, value);
    if window.len() < cap {
        assert(after.drop_last() =~= window);
    } else {
        assert(after.drop_last() =~= window.subrange(1, window.len() as int));
        lemma_total_without_first(window);
    }
}

/// Ring of the `N` most recently pushed values.
pub struct Queue<T, const N: usize> {
    arr: [T; N],
    pub num: usize,
    index: usize,
}

impl<T: Copy, const N: usize> Queue<T, N> {
    /// The ring is consistent: the write cursor lies inside it, it counts no
    /// more entries than it has slots, and the slots never written to still
    /// hold the value the ring was made with. A ring without slots is never
    /// consistent.
    pub closed spec fn wf(&self) -> bool {
        &&& self.index < N
        &&& self.num <= N
        &&& self.num < N ==> self.index == self.num
        &&& forall|j: int| self.num <= j < N ==> #[trigger] self.arr@[j] == self.arr@[N - 1]
    }

    /// The values held, oldest first.
    pub closed spec fn view(&self) -> Seq<T> {
        if self.num < N {
            self.arr@.subrange(0, self.num as int)
        } else {
            self.arr@.subrange(self.index as int, N as int) + self.arr@.subrange(
                0,
                self.index as int,
            )
        }
    }

    /// The value of the public field `num`.
    pub closed spec fn count(&self) -> usize {
        self.num
    }

    /// While the ring is not full: the value it was made with, which the
    /// slots never written to still hold.
    pub closed spec fn spare(&self) -> T {
        self.arr@[N - 1]
    }

    /// The value in the slot that the next push overwrites.
    pub open spec fn front(&self) -> T {
        if self@.len() == N {
            self@[0]
        } else {
            self.spare()
        }
    }

    /// A consistent ring counts what it holds, and holds no more than it has
    /// slots for.
    pub proof fn lemma_wf_count(&self)
        requires
            self.wf(),
        ensures
            self.count() == self@.len(),
            self@.len() <= N,
    {
    }

    /// Reads the public field `num`.
    pub fn get_num(&self) -> (num: usize)
        ensures
            num == self.count(),
    {
        self.num
    }

    /// An empty ring whose slots hold `default`.
    pub fn new(default: T) -> (q: Queue<T, N>)
        ensures
            q@ == Seq::<T>::empty(),
            q.count() == 0,
            N > 0 ==> q.wf() && q.spare() == default,
    {
        Queue { arr: [default;N], num: 0, index: 0 }
    }

    /// Puts `value` in; once the ring is full, the oldest value leaves.
    pub fn push(&mut self, value: T)
        requires
            old(self).wf(),
        ensures
            final(self).wf(),
            final(self)@ == pushed(old(self)@, N as nat, value),
            final(self).count() == if old(self).count() < N {
                old(self).count() + 1
            } else {
                N as int
            },
            final(self).count() == final(self)@.len(),
            final(self)@.len() < N ==> final(self).spare() == old(self).spare(),
    {
        let ghost before = *self;
        self.arr[self.index] = value;
        if self.num < N {
            self.num += 1;
        }
        assert((before.index + 1) % (N as int) == if before.index + 1 < N {
            before.index + 1
        } else {
            0
        }) by (nonlinear_arith)
            requires
                0 <= before.index < N,
        ;
        self.index = (self.index + 1) % N;
    }

    /// The value that the next push overwrites.
    pub fn peek(&mut self) -> (value: T)
        requires
            old(self).wf(),
        ensures
            *final(self) == *old(self),
            value == old(self).front(),
    {
        self.arr[self.index]
    }
}

/// Mean of the `N` most recent readings.
pub struct RunningAverage<const N: usize> {
    queue: Queue<u32, N>,
    sum: u64,
}

impl<const N: usize> RunningAverage<N> {
    /// The ring is consistent, its unused slots hold zero, the running sum is
    /// the sum of the readings held, and the capacity is at least one and at
    /// most `u32::MAX`.
    pub closed spec fn wf(&self) -> bool {
        &&& self.queue.wf()
        &&& N <= u32::MAX
        &&& self.queue@.len() < N ==> self.queue.spare() == 0
        &&& self.queue.count() == self.queue@.len()
        &&& self.sum == total(self.queue@)
    }

    /// The readings held, oldest first.
    pub closed spec fn view(&self) -> Seq<u32> {
        self.queue@
    }

    /// A filter without readings.
    pub fn new() -> (avg: RunningAverage<N>)
        ensures
            avg@ == Seq::<u32>::empty(),
            0 < N <= u32::MAX ==> avg.wf(),
    {
        RunningAverage { queue: Queue::new(0), sum: 0 }
    }

    /// The mean of the readings held, rounded down; zero while there are
    /// none.
    pub fn get(&self) -> (average: u32)
        requires
            self.wf(),
        ensures
            average == mean(self@),
    {
        proof {
            lemma_mean_bound(self.queue@);
        }
        match self.queue.num {
            0 => 0,
            n => (self.sum / n as u64) as u32,
        }
    }

    /// The mean that the filter reports once `val` has been added; the filter
    /// itself stays as it is.
    pub fn get_after(&self, val: u32) -> (average: u32)
        requires
            self.wf(),
        ensures
            average == mean(pushed(self@, N as nat, val)),
    {
        let full = self.queue.num == N;
        let evicted: u32 = if full {
            self.queue.arr[self.queue.index]
        } else {
            0
        };
        let n: usize = if full {
            N
        } else {
            self.queue.num + 1
        };
        proof {
            let after = pushed(self.queue@, N as nat, val);
            lemma_total_pushed(self.queue@, N as nat, val);
            lemma_total_bound(after);
            lemma_mean_bound(after);
        }
        let sum: u64 = self.sum - evicted as u64 + val as u64;
        (sum / n as u64) as u32
    }

    /// Takes the reading `val` in; once the filter is full, the oldest
    /// reading leaves.
    pub fn add(&mut self, val: u32)
        requires
            old(self).wf(),
        ensures
            final(self).wf(),
            final(self)@ == pushed(old(self)@, N as nat, val),
    {
        proof {
            let after = pushed(self.queue@, N as nat, val);
            lemma_total_pushed(self.queue@, N as nat, val);
            lemma_total_bound(after);
        }
        let evicted: u32 = self.queue.peek();
        self.sum = self.sum - evicted as u64 + val as u64;
        self.queue.push(val);
    }
}

} // verus!
