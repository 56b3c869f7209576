//! Keeping a bar's value in step with its subject.
//!
//! A bar may carry an observer: a function from one kind of data that its
//! subject may hold to a stat value. Once per cycle every observer is put to
//! its subject's data. What it gives is first buffered, bar by bar, and only
//! when all subjects have been read are the buffered values written to the
//! bars. A subject without the data its observer reads leaves the bar as it
//! is.

use crate::components::StatBarValue;
use std::collections::HashMap;
use vstd::prelude::*;

verus! {

broadcast use vstd::std_specs::hash::group_hash_axioms;

/// A function from a subject's data to a stat value, bound to a bar.
pub struct StatBarObserver<F> {
    function: F,
}

/// Binds `f` as an observer.
pub fn component_observer<C, F>(f: F) -> (observer: StatBarObserver<F>) where F: Fn(&C) -> i32
    ensures
        observer.spec_function() == f,
{
    StatBarObserver { function: f }
}

impl<F> StatBarObserver<F> {
    /// The function that the observer was bound with.
    pub closed spec fn spec_function(self) -> F {
        self.function
    }

    /// Puts the observer to the data `component` of its subject: nothing where
    /// the subject holds no such data, else what the function gives for it.
    pub fn observe<C>(&self, component: Option<&C>) -> (value: Option<i32>) where F: Fn(&C) -> i32
        requires
            component matches Some(data) ==> call_requires(self.spec_function(), (data,)),
        ensures
            component is None ==> value is None,
            component matches Some(data) ==> value is Some && call_ensures(
                self.spec_function(),
                (data,),
                value->0,
            ),
    {
        match component {
            Some(data) => Some((self.function)(data)),
            None => None,
        }
    }
}

/// What a bar's observer gave in one cycle: `None` where its subject is gone
/// or holds no data of the kind that the observer reads.
#[derive(Clone, Copy, Debug, PartialEq, Eq, Structural)]
pub struct Observation {
    pub bar: u64,
    pub value: Option<i32>,
}

/// The values to write for `observations`: one for each observation that
/// holds a value, in their order.
pub open spec fn spec_buffered(observations: Seq<Observation>) -> Seq<(u64, i32)> {
    observations.filter_map(
        |seen: Observation|
            match seen.value {
                Some(value) => Some((seen.bar, value)),
                None => None,
            },
    )
}

/// The bars' values after one write: the value of the bar `write.0` becomes
/// `write.1`; a write to a bar that is not among `values` changes nothing.
pub open spec fn spec_write(values: Map<u64, StatBarValue>, write: (u64, i32)) -> Map<
    u64,
    StatBarValue,
> {
    if values.contains_key(write.0) {
        values.insert(write.0, StatBarValue(write.1))
    } else {
        values
    }
}

/// The bars' values after the writes `writes`, made one after another.
pub open spec fn spec_written(values: Map<u64, StatBarValue>, writes: Seq<(u64, i32)>) -> Map<
    u64,
    StatBarValue,
>
    decreases writes.len(),
{
    if writes.len() == 0 {
        values
    } else {
        spec_write(spec_written(values, writes.drop_last()), writes.last())
    }
}

/// The read half of a cycle: appends to `buffer` the value of each
/// observation that holds one.
pub fn buffer_observations(buffer: &mut Vec<(u64, i32)>, observations: &Vec<Observation>)
    ensures
        final(buffer)@ == old(buffer)@ + spec_buffered(observations@),
{
    let ghost start = buffer@;
    let mut i: usize = 0;
    while i < observations.len()
        invariant
            i <= observations.len(),
            buffer@ == start + spec_buffered(observations@.take(i as int)),
        decreases observations.len() - i,
    {
        let seen = observations[i];
        proof {
            observations@.lemma_filter_map_take_succ(
                |seen: Observation|
                    match seen.value {
                        Some(value) => Some((seen.bar, value)),
                        None => None,
                    },
                i as int,
            );
        }
        if let Some(value) = seen.value {
            buffer.push((seen.bar, value));
        }
        i = i + 1;
    }
    assert(observations@.take(i as int) == observations@);
}

/// The write half of a cycle: writes each buffered value to its bar, in the
/// buffer's order, and leaves the buffer empty.
pub fn write_buffered(values: &mut HashMap<u64, StatBarValue>, buffer: &mut Vec<(u64, i32)>)
    ensures
        final(values)@ == spec_written(old(values)@, old(buffer)@),
        final(buffer)@ == Seq::<(u64, i32)>::empty(),
{
    let mut i: usize = 0;
    while i < buffer.len()
        invariant
            i <= buffer.len(),
            buffer@ == old(buffer)@,
            values@ == spec_written(old(values)@, buffer@.take(i as int)),
        decreases buffer.len() - i,
    {
        let write = buffer[i];
        proof {
            let next = buffer@.take(i + 1);
            assert(next.drop_last() == buffer@.take(i as int));
            assert(next.last() == write);
        }
        if values.contains_key(&write.0) {
            values.insert(write.0, StatBarValue(write.1));
        }
        i = i + 1;
    }
    assert(buffer@.take(i as int) == buffer@);
    buffer.clear();
}

/// One cycle of synchronization: buffers what the observers gave, then
/// writes what is buffered to the bars' values `values`. A bar's value is
/// overwritten whoever set it before; a bar without an observation that
/// holds a value keeps its own.
pub fn observe_components(
    values: &mut HashMap<u64, StatBarValue>,
    buffer: &mut Vec<(u64, i32)>,
    observations: &Vec<Observation>,
)
    ensures
        final(values)@ == spec_written(
            old(values)@,
            old(buffer)@ + spec_buffered(observations@),
        ),
        final(buffer)@ == Seq::<(u64, i32)>::empty(),
{
    buffer_observations(buffer, observations);
    write_buffered(values, buffer);
}

/// Writing changes no bar's presence: the bars with a value are the same
/// before and after.
pub proof fn lemma_written_keeps_bars(values: Map<u64, StatBarValue>, writes: Seq<(u64, i32)>)
    ensures
        spec_written(values, writes).dom() == values.dom(),
    decreases writes.len(),
{
    if writes.len() > 0 {
        lemma_written_keeps_bars(values, writes.drop_last());
        let before = spec_written(values, writes.drop_last());
        assert(spec_write(before, writes.last()).dom() =~= before.dom());
    }
}

/// A bar to which nothing is written keeps its value.
pub proof fn lemma_unwritten_bar_keeps_value(
    values: Map<u64, StatBarValue>,
    writes: Seq<(u64, i32)>,
    bar: u64,
)
    requires
        values.contains_key(bar),
        forall|j: int| 0 <= j < writes.len() ==> (#[trigger] writes[j]).0 != bar,
    ensures
        spec_written(values, writes).contains_key(bar),
        spec_written(values, writes)[bar] == values[bar],
    decreases writes.len(),
{
    if writes.len() > 0 {
        let earlier = writes.drop_last();
        assert forall|j: int| 0 <= j < earlier.len() implies (#[trigger] earlier[j]).0 != bar by {
            assert(earlier[j] == writes[j]);
        }
        lemma_unwritten_bar_keeps_value(values, earlier, bar);
        assert(writes.last() == writes[writes.len() - 1]);
    }
}

/// After a cycle that starts with an empty buffer, a bar whose observer gave
/// the value `v` holds exactly `v`, as long as no later observation of the
/// same bar holds a value too.
pub proof fn lemma_synchronized_value(
    values: Map<u64, StatBarValue>,
    observations: Seq<Observation>,
    i: int,
)
    requires
        0 <= i < observations.len(),
        observations[i].value is Some,
        values.contains_key(observations[i].bar),
        forall|j: int|
            i < j < observations.len() && (#[trigger] observations[j]).bar == observations[i].bar
                ==> observations[j].value is None,
    ensures
        spec_written(values, spec_buffered(observations)).contains_key(observations[i].bar),
        spec_written(values, spec_buffered(observations))[observations[i].bar] == StatBarValue(
            observations[i].value->0,
        ),
    decreases observations.len(),
{
    let bar = observations[i].bar;
    let earlier = observations.drop_last();
    let seen = observations.last();
    let before = spec_written(values, spec_buffered(earlier));
    lemma_written_keeps_bars(values, spec_buffered(earlier));
    if i < observations.len() - 1 {
        assert(earlier[i] == observations[i]);
        assert forall|j: int|
            i < j < earlier.len() && (#[trigger] earlier[j]).bar == bar implies earlier[j].value is None by {
            assert(earlier[j] == observations[j]);
        }
        lemma_synchronized_value(values, earlier, i);
        assert(seen == observations[observations.len() - 1]);
    }
    match seen.value {
        Some(value) => {
            let writes = spec_buffered(observations);
            assert(writes == spec_buffered(earlier).push((seen.bar, value)));
            assert(writes.drop_last() == spec_buffered(earlier));
            assert(writes.last() == (seen.bar, value));
        },
        None => {
            assert(spec_buffered(observations) == spec_buffered(earlier));
        },
    }
}

} // verus!
