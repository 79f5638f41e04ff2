//! A fixed-length rotating buffer of samples: one metric's recent history.
//!
//! The buffer's length is fixed at construction. Each tick the buffer is
//! rotated: every sample moves one slot toward the oldest end, the oldest
//! sample falls off, and the freed slot 0 receives the newest value. Slot 0
//! is therefore always the most recent sample.

use vstd::prelude::*;

verus! {

/// The one failure a series can report: an access past its fixed length.
/// It indicates a programming defect in the integration layer, not a
/// recoverable condition.
#[derive(Clone, Copy, Debug, PartialEq, Eq, Structural)]
pub enum RingError {
    IndexOutOfRange,
}

/// What one rotation does to the stored sequence: the newest value enters at
/// the front, everything else shifts one slot toward the back, and the oldest
/// value is dropped. The length never changes.
pub open spec fn rotated(s: Seq<u64>, value: u64) -> Seq<u64>
    recommends
        s.len() >= 1,
{
    seq![value] + s.drop_last()
}

/// A fixed-capacity rotating series of samples.
pub struct RingSeries {
    data: Vec<u64>,
}

impl RingSeries {
    /// The stored samples, newest first.
    pub closed spec fn view(&self) -> Seq<u64> {
        self.data@
    }

    /// A series is well formed when it holds at least one sample; its length
    /// never changes after construction.
    pub open spec fn wf(&self) -> bool {
        self@.len() >= 1
    }

    /// Creates a series whose fixed capacity is the length of `initial` and
    /// whose contents are exactly `initial`. An empty sequence carries no
    /// capacity and is rejected.
    pub fn new(initial: Vec<u64>) -> (result: Option<RingSeries>)
        ensures
            result is Some <==> initial@.len() >= 1,
            result matches Some(series) ==> series@ == initial@ && series.wf(),
    {
        if initial.len() == 0 {
            None
        } else {
            Some(RingSeries { data: initial })
        }
    }

    /// The fixed number of historical points retained.
    pub fn len(&self) -> (n: usize)
        ensures
            n == self@.len(),
    {
        self.data.len()
    }

    /// Shifts every sample one slot toward the oldest end, drops the oldest,
    /// and writes `value` into slot 0, the slot read as "most recent".
    /// The length is preserved by every call.
    pub fn rotate_and_set(&mut self, value: u64)
        requires
            old(self).wf(),
        ensures
            final(self)@ == rotated(old(self)@, value),
            final(self)@.len() == old(self)@.len(),
            final(self).wf(),
    {
        let len = self.data.len();
        let mut i: usize = len - 1;
        while i >= 1
            invariant
                1 <= len == self.data@.len(),
                i < len,
                forall|j: int| 0 <= j <= i ==> self.data@[j] == old(self).data@[j],
                forall|j: int| i < j < len ==> self.data@[j] == old(self).data@[j - 1],
            decreases i,
        {
            let shifted = self.data[i - 1];
            self.data.set(i, shifted);
            i = i - 1;
        }
        self.data.set(0, value);
        assert(self@ =~= rotated(old(self)@, value));
    }

    /// Reads the sample at `index` (0 is the newest); an index at or past the
    /// fixed length is out of range.
    pub fn get(&self, index: usize) -> (result: Result<u64, RingError>)
        ensures
            result is Ok <==> index < self@.len(),
            result matches Ok(value) ==> value == self@[index as int],
            result matches Err(e) ==> e == RingError::IndexOutOfRange,
    {
        if index < self.data.len() {
            Ok(self.data[index])
        } else {
            Err(RingError::IndexOutOfRange)
        }
    }

    /// Overwrites the sample at `index` (0 is the newest); an index at or
    /// past the fixed length is out of range and leaves the series unchanged.
    pub fn set(&mut self, index: usize, value: u64) -> (result: Result<(), RingError>)
        ensures
            result is Ok <==> index < old(self)@.len(),
            result is Ok ==> final(self)@ == old(self)@.update(index as int, value),
            result is Err ==> final(self)@ == old(self)@
                && result == Result::<(), RingError>::Err(RingError::IndexOutOfRange),
            final(self)@.len() == old(self)@.len(),
    {
        if index < self.data.len() {
            self.data.set(index, value);
            Ok(())
        } else {
            Err(RingError::IndexOutOfRange)
        }
    }
}

/// The contents after a run of rotations: `values[0]` is rotated in first,
/// the last element of `values` last.
pub open spec fn rotated_all(s: Seq<u64>, values: Seq<u64>) -> Seq<u64>
    decreases values.len(),
{
    if values.len() == 0 {
        s
    } else {
        rotated_all(rotated(s, values[0]), values.drop_first())
    }
}

/// Rotation preserves the length, over any run of rotations.
pub proof fn lemma_rotated_all_len(s: Seq<u64>, values: Seq<u64>)
    requires
        s.len() >= 1,
    ensures
        rotated_all(s, values).len() == s.len(),
    decreases values.len(),
{
    if values.len() > 0 {
        lemma_rotated_all_len(rotated(s, values[0]), values.drop_first());
    }
}

/// After a run of rotations no longer than the series, the newest slots hold
/// the rotated-in values in reverse order of arrival, and every older slot
/// still holds a seed value, shifted toward the oldest end.
pub proof fn lemma_partial_eviction(s: Seq<u64>, values: Seq<u64>)
    requires
        s.len() >= 1,
        values.len() <= s.len(),
    ensures
        forall|i: int| 0 <= i < values.len()
            ==> rotated_all(s, values)[i] == values[values.len() - 1 - i],
        forall|i: int| values.len() <= i < s.len()
            ==> rotated_all(s, values)[i] == s[i - values.len()],
    decreases values.len(),
{
    if values.len() > 0 {
        let s1 = rotated(s, values[0]);
        let rest = values.drop_first();
        lemma_partial_eviction(s1, rest);
        let out = rotated_all(s1, rest);
        assert(rotated_all(s, values) == out);
        assert forall|i: int| 0 <= i < values.len()
            implies out[i] == values[values.len() - 1 - i] by {
            if i < rest.len() {
                assert(rest[rest.len() - 1 - i] == values[values.len() - 1 - i]);
            } else {
                assert(out[i] == s1[i - rest.len()]);
                assert(s1[0] == values[0]);
            }
        }
        assert forall|i: int| values.len() <= i < s.len()
            implies out[i] == s[i - values.len()] by {
            assert(out[i] == s1[i - rest.len()]);
            assert(s1[i - rest.len()] == s[i - rest.len() - 1]);
        }
    }
}

/// Full eviction: after exactly as many rotations as the series is long, the
/// seed contents are gone. Slot `i` then holds the value rotated in `i`
/// rotations before the last one, whatever the series held at the start.
pub proof fn lemma_full_eviction(s: Seq<u64>, values: Seq<u64>)
    requires
        s.len() >= 1,
        values.len() == s.len(),
    ensures
        forall|i: int| 0 <= i < s.len()
            ==> rotated_all(s, values)[i] == values[values.len() - 1 - i],
{
    lemma_partial_eviction(s, values);
}

} // verus!
