use vstd::prelude::*;

verus! {

/// The sum of a sequence of byte counts.
pub open spec fn sum(s: Seq<u64>) -> nat
    decreases s.len(),
{
    if s.len() == 0 {
        0
    } else {
        sum(s.drop_last()) + s.last() as nat
    }
}

/// The shared counters of a run: the bytes expected (grown by discovery,
/// one file at a time) and the bytes produced (grown by the conversions).
pub struct Progress {
    total_length: u64,
    total_processed: u64,
    files: u64,
    discovered: Ghost<Seq<u64>>,
    processed: Ghost<Seq<u64>>,
}

impl Progress {
    /// The size of each discovered file, in order of discovery.
    pub closed spec fn discovered(&self) -> Seq<u64> {
        self.discovered@
    }

    /// Each amount that conversions have produced, in order.
    pub closed spec fn processed(&self) -> Seq<u64> {
        self.processed@
    }

    pub closed spec fn spec_total_length(&self) -> u64 {
        self.total_length
    }

    pub closed spec fn spec_total_processed(&self) -> u64 {
        self.total_processed
    }

    pub closed spec fn spec_files(&self) -> u64 {
        self.files
    }

    /// The counters agree with what was recorded into them.
    pub open spec fn wf(&self) -> bool {
        &&& self.spec_total_length() == sum(self.discovered())
        &&& self.spec_total_processed() == sum(self.processed())
        &&& self.spec_files() == self.discovered().len()
    }

    pub fn new() -> (r: Progress)
        ensures
            r.wf(),
            r.discovered() == Seq::<u64>::empty(),
            r.processed() == Seq::<u64>::empty(),
    {
        Progress {
            total_length: 0,
            total_processed: 0,
            files: 0,
            discovered: Ghost(Seq::empty()),
            processed: Ghost(Seq::empty()),
        }
    }

    /// Counts one more discovered file of `n` bytes. Where the counters
    /// cannot hold it, nothing changes and the answer is false.
    pub fn extend_total(&mut self, n: u64) -> (r: bool)
        requires
            old(self).wf(),
        ensures
            final(self).wf(),
            r == (old(self).spec_total_length() + n <= u64::MAX && old(self).spec_files()
                < u64::MAX),
            r ==> final(self).discovered() == old(self).discovered().push(n),
            !r ==> final(self).discovered() == old(self).discovered(),
            final(self).processed() == old(self).processed(),
    {
        if n > u64::MAX - self.total_length || self.files == u64::MAX {
            return false;
        }
        proof {
            assert(self.discovered@.push(n).drop_last() =~= self.discovered@);
        }
        self.total_length = self.total_length + n;
        self.files = self.files + 1;
        self.discovered = Ghost(self.discovered@.push(n));
        true
    }

    /// Counts `n` more produced bytes. Where the counter cannot hold them,
    /// nothing changes and the answer is false.
    pub fn advance_total(&mut self, n: u64) -> (r: bool)
        requires
            old(self).wf(),
        ensures
            final(self).wf(),
            r == (old(self).spec_total_processed() + n <= u64::MAX),
            r ==> final(self).processed() == old(self).processed().push(n),
            !r ==> final(self).processed() == old(self).processed(),
            final(self).discovered() == old(self).discovered(),
    {
        if n > u64::MAX - self.total_processed {
            return false;
        }
        proof {
            assert(self.processed@.push(n).drop_last() =~= self.processed@);
        }
        self.total_processed = self.total_processed + n;
        self.processed = Ghost(self.processed@.push(n));
        true
    }

    pub fn total_length(&self) -> (r: u64)
        ensures
            r == self.spec_total_length(),
    {
        self.total_length
    }

    pub fn total_processed(&self) -> (r: u64)
        ensures
            r == self.spec_total_processed(),
    {
        self.total_processed
    }

    /// How many files were discovered.
    pub fn files(&self) -> (r: u64)
        ensures
            r == self.spec_files(),
    {
        self.files
    }
}

/// The expected total is the sum of the sizes of the files discovered so
/// far, and the produced total the sum of what the conversions produced.
pub proof fn totals_are_sums(p: &Progress)
    requires
        p.wf(),
    ensures
        p.spec_total_length() == sum(p.discovered()),
        p.spec_total_processed() == sum(p.processed()),
        p.spec_files() == p.discovered().len(),
{
}

/// Counters that start empty and record one amount hold that amount; two
/// amounts, their sum.
pub proof fn sums_of_one_and_two(a: u64, b: u64)
    ensures
        sum(Seq::<u64>::empty().push(a)) == a,
        sum(Seq::<u64>::empty().push(a).push(b)) == a + b,
{
    let one = Seq::<u64>::empty().push(a);
    let two = one.push(b);
    assert(one.drop_last() =~= Seq::<u64>::empty());
    assert(sum(Seq::<u64>::empty()) == 0);
    assert(one.last() == a);
    assert(sum(one) == a);
    assert(two.drop_last() =~= one);
    assert(two.last() == b);
}

} // verus!
