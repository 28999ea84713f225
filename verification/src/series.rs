use vstd::prelude::*;

verus! {

/// The samples of a time series, in the order they were added: each is a
/// timestamp and the reading taken then. The reading is carried as the bit
/// pattern of its IEEE-754 double; the series stores and returns it and does
/// no arithmetic on it.
pub struct TimeSeries {
    samples: Vec<(u64, u64)>,
}

impl View for TimeSeries {
    type V = Seq<(u64, u64)>;

    closed spec fn view(&self) -> Seq<(u64, u64)> {
        self.samples@
    }
}

impl TimeSeries {
    /// An empty series.
    pub fn new() -> (r: TimeSeries)
        ensures
            r@ == Seq::<(u64, u64)>::empty(),
    {
        TimeSeries { samples: Vec::new() }
    }

    /// Appends a sample.
    pub fn add(&mut self, timestamp: u64, value_bits: u64)
        ensures
            final(self)@ == old(self)@.push((timestamp, value_bits)),
    {
        self.samples.push((timestamp, value_bits));
    }

    /// The number of samples.
    pub fn len(&self) -> (r: usize)
        ensures
            r == self@.len(),
    {
        self.samples.len()
    }

    /// Whether the series has no samples.
    pub fn is_empty(&self) -> (r: bool)
        ensures
            r == (self@.len() == 0),
    {
        self.samples.len() == 0
    }

    /// The sample at position `i`.
    pub fn sample(&self, i: usize) -> (r: (u64, u64))
        requires
            i < self@.len(),
        ensures
            r == self@[i as int],
    {
        self.samples[i]
    }

    /// The timestamps of all samples, in order.
    pub fn timestamps(&self) -> (r: Vec<u64>)
        ensures
            r@ == self@.map_values(|s: (u64, u64)| s.0),
    {
        let n = self.samples.len();
        let mut r: Vec<u64> = Vec::new();
        let mut i: usize = 0;
        while i < n
            invariant
                n == self@.len(),
                i <= n,
                r@ == self@.take(i as int).map_values(|s: (u64, u64)| s.0),
            decreases n - i,
        {
            assert(self@.take(i + 1) =~= self@.take(i as int).push(self@[i as int]));
            r.push(self.samples[i].0);
            i = i + 1;
        }
        assert(self@.take(n as int) =~= self@);
        r
    }

    /// The bit patterns of all readings, in order.
    pub fn value_bits(&self) -> (r: Vec<u64>)
        ensures
            r@ == self@.map_values(|s: (u64, u64)| s.1),
    {
        let n = self.samples.len();
        let mut r: Vec<u64> = Vec::new();
        let mut i: usize = 0;
        while i < n
            invariant
                n == self@.len(),
                i <= n,
                r@ == self@.take(i as int).map_values(|s: (u64, u64)| s.1),
            decreases n - i,
        {
            assert(self@.take(i + 1) =~= self@.take(i as int).push(self@[i as int]));
            r.push(self.samples[i].1);
            i = i + 1;
        }
        assert(self@.take(n as int) =~= self@);
        r
    }
}

/// Adding a sample extends the timestamps by its timestamp and the readings by
/// its reading, leaving the earlier ones as they were.
pub proof fn lemma_add_extends(s: Seq<(u64, u64)>, timestamp: u64, value_bits: u64)
    ensures
        s.push((timestamp, value_bits)).map_values(|x: (u64, u64)| x.0) == s.map_values(
            |x: (u64, u64)| x.0,
        ).push(timestamp),
        s.push((timestamp, value_bits)).map_values(|x: (u64, u64)| x.1) == s.map_values(
            |x: (u64, u64)| x.1,
        ).push(value_bits),
{
    assert(s.push((timestamp, value_bits)).map_values(|x: (u64, u64)| x.0) =~= s.map_values(
        |x: (u64, u64)| x.0,
    ).push(timestamp));
    assert(s.push((timestamp, value_bits)).map_values(|x: (u64, u64)| x.1) =~= s.map_values(
        |x: (u64, u64)| x.1,
    ).push(value_bits));
}

} // verus!
