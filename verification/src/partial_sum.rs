//! A compact sequence of runs of equal values.

use vstd::prelude::*;

verus! {

/// `count` times the same value.
pub open spec fn run<V>(count: nat, value: V) -> Seq<V> {
    Seq::new(count, |i: int| value)
}

/// The sequence that consists of these runs, each given by its length and its value.
pub open spec fn expanded<V>(runs: Seq<(u32, V)>) -> Seq<V>
    decreases runs.len(),
{
    if runs.len() == 0 {
        Seq::empty()
    } else {
        expanded(runs.drop_last()) + run(runs.last().0 as nat, runs.last().1)
    }
}

/// The number of values does not fit in the type of the keys.
#[derive(Clone, Copy, Debug, PartialEq, Eq, Structural)]
pub struct Overflow;

/// A sequence of values, stored as runs of equal values.
///
/// For each run the map keeps the number of values up to its end, so that the run which an index
/// falls into is found by a binary search.
#[derive(Clone, Debug)]
pub struct PartialSumMap<K, V> {
    /// The partial sums of the lengths of the runs.
    ends: Vec<K>,
    /// The value of each run.
    values: Vec<V>,
}

/// The number of values in runs that end at `ends`.
spec fn size_of(ends: Seq<u32>) -> nat {
    if ends.len() == 0 {
        0
    } else {
        ends.last() as nat
    }
}

/// The runs end one after the other.
spec fn ordered(ends: Seq<u32>) -> bool {
    forall|i: int, j: int| 0 <= i <= j < ends.len() ==> ends[i] <= ends[j]
}

/// The values in runs that end at `ends`.
spec fn contents<V>(ends: Seq<u32>, values: Seq<V>) -> Seq<V>
    decreases ends.len(),
{
    if ends.len() == 0 {
        Seq::empty()
    } else {
        contents(ends.drop_last(), values.drop_last()) + run(
            (size_of(ends) - size_of(ends.drop_last())) as nat,
            values.last(),
        )
    }
}

/// The value at an index is the value of the first run that ends behind the index.
proof fn lemma_contents<V>(ends: Seq<u32>, values: Seq<V>)
    requires
        ordered(ends),
        ends.len() == values.len(),
    ensures
        contents(ends, values).len() == size_of(ends),
        forall|i: int, k: int|
            #![trigger contents(ends, values)[i], ends[k]]
            0 <= i < ends[k] && 0 <= k < ends.len() && (k == 0 || ends[k - 1] <= i) ==> contents(
                ends,
                values,
            )[i] == values[k],
    decreases ends.len(),
{
    if ends.len() > 0 {
        let (ends0, values0) = (ends.drop_last(), values.drop_last());
        lemma_contents(ends0, values0);
        assert forall|i: int, k: int|
            #![trigger contents(ends, values)[i], ends[k]]
            0 <= i < ends[k] && 0 <= k < ends.len() && (k == 0 || ends[k - 1]
                <= i) implies contents(ends, values)[i] == values[k] by {
            if k < ends0.len() {
                assert(ends0[k] == ends[k]);
                assert(ends0[k] <= ends0.last());
                assert(contents(ends, values)[i] == contents(ends0, values0)[i]);
            }
        }
    }
}

impl<V> View for PartialSumMap<u32, V> {
    type V = Seq<V>;

    closed spec fn view(&self) -> Seq<V> {
        contents(self.ends@, self.values@)
    }
}

impl<V> PartialSumMap<u32, V> {
    /// The runs are in order, and each of them has a value.
    pub closed spec fn wf(&self) -> bool {
        &&& self.values@.len() == self.ends@.len()
        &&& ordered(self.ends@)
    }

    /// A map without values.
    pub fn new() -> (map: Self)
        ensures
            map.wf(),
            map@ == Seq::<V>::empty(),
    {
        PartialSumMap { ends: Vec::new(), values: Vec::new() }
    }

    /// Removes all values.
    pub fn clear(&mut self)
        ensures
            final(self).wf(),
            final(self)@ == Seq::<V>::empty(),
    {
        self.ends.clear();
        self.values.clear();
    }

    /// Appends `count` times the same value.
    ///
    /// The map stays as it is if it cannot hold that many values.
    pub fn push(&mut self, count: u32, value: V) -> (result: Result<(), Overflow>)
        requires
            old(self).wf(),
        ensures
            final(self).wf(),
            result is Ok <==> old(self)@.len() + count <= u32::MAX,
            result is Ok ==> final(self)@ == old(self)@ + run(count as nat, value),
            result is Err ==> *final(self) == *old(self),
    {
        proof {
            lemma_contents(self.ends@, self.values@);
        }
        let runs = self.ends.len();
        let size: u32 = if runs == 0 {
            0
        } else {
            self.ends[runs - 1]
        };
        if count > u32::MAX - size {
            return Err(Overflow);
        }
        self.ends.push(size + count);
        self.values.push(value);
        proof {
            assert(self.ends@.drop_last() =~= old(self).ends@);
            assert(self.values@.drop_last() =~= old(self).values@);
        }
        Ok(())
    }

    /// The value at an index, if there are that many values.
    pub fn find(&self, index: u32) -> (value: Option<&V>)
        requires
            self.wf(),
        ensures
            value is Some <==> index < self@.len(),
            value matches Some(value) ==> *value == self@[index as int],
    {
        proof {
            lemma_contents(self.ends@, self.values@);
        }
        let mut low: usize = 0;
        let mut high: usize = self.ends.len();
        while low < high
            invariant
                low <= high <= self.ends@.len(),
                self.wf(),
                low == 0 || self.ends@[low - 1] <= index,
                high == self.ends@.len() || index < self.ends@[high as int],
            decreases high - low,
        {
            let middle: usize = low + (high - low) / 2;
            if self.ends[middle] <= index {
                low = middle + 1;
            } else {
                high = middle;
            }
        }
        if low == self.ends.len() {
            None
        } else {
            Some(&self.values[low])
        }
    }
}

/// A run has as many values as it says, all of them the same, and comes behind the runs before it.
pub proof fn law_expanded<V>(runs: Seq<(u32, V)>, count: u32, value: V)
    ensures
        expanded(Seq::<(u32, V)>::empty()).len() == 0,
        ({
            let before = expanded(runs);
            let after = expanded(runs.push((count, value)));
            &&& after.len() == before.len() + count
            &&& forall|i: int| 0 <= i < before.len() ==> after[i] == before[i]
            &&& forall|i: int| before.len() <= i < after.len() ==> after[i] == value
        }),
{
    assert(runs.push((count, value)).drop_last() =~= runs);
}

/// A run has as many values as it says, all of them the same.
pub proof fn law_run<V>(count: nat, value: V)
    ensures
        run(count, value).len() == count,
        forall|i: int| 0 <= i < count ==> run(count, value)[i] == value,
{
}

} // verus!
