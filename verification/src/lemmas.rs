//! What holds of every run of insertions and removals, proved over the
//! sequence model that the queue's operations are stated in.

use vstd::prelude::*;
use crate::model::{offered_all, polled, polled_times};

verus! {

/// Appending `values` one by one to a queue gives its former contents
/// followed by `values`, so its size grows by the number of values.
pub proof fn lemma_offered_all<T>(contents: Seq<T>, values: Seq<T>)
    ensures
        offered_all(contents, values) == contents + values,
        offered_all(contents, values).len() == contents.len() + values.len(),
    decreases values.len(),
{
    if values.len() == 0 {
        assert(contents + values =~= contents);
    } else {
        lemma_offered_all(contents.push(values.first()), values.drop_first());
        assert(contents.push(values.first()) + values.drop_first() =~= contents + values);
    }
}

/// After `n` values have been appended to an empty queue, its size is `n`
/// and it holds exactly those values, the first of them at the front.
pub proof fn lemma_offers_from_empty<T>(values: Seq<T>)
    ensures
        offered_all(Seq::<T>::empty(), values).len() == values.len(),
        offered_all(Seq::<T>::empty(), values) == values,
{
    lemma_offered_all(Seq::<T>::empty(), values);
    assert(Seq::<T>::empty() + values =~= values);
}

/// One removal from a queue that is not empty lowers its size by exactly one
/// and takes away the element at the front: every other element moves one
/// place forward and keeps its order.
pub proof fn lemma_polled_nonempty<T>(contents: Seq<T>)
    requires
        contents.len() > 0,
    ensures
        polled(contents).len() == contents.len() - 1,
        forall|i: int|
            0 <= i < polled(contents).len() ==> #[trigger] polled(contents)[i] == contents[i + 1],
        seq![contents.first()] + polled(contents) == contents,
{
    assert(seq![contents.first()] + polled(contents) =~= contents);
}

/// One removal from an empty queue leaves it empty.
pub proof fn lemma_polled_empty<T>(contents: Seq<T>)
    requires
        contents.len() == 0,
    ensures
        polled(contents) == contents,
        polled(contents).len() == 0,
{
}

/// After `times` removals a queue holds what it held before without its
/// first `times` elements, or nothing where it held no more than that.
pub proof fn lemma_polled_times<T>(contents: Seq<T>, times: nat)
    ensures
        times <= contents.len() ==> polled_times(contents, times) == contents.skip(times as int),
        times >= contents.len() ==> polled_times(contents, times) == Seq::<T>::empty(),
        polled_times(contents, times).len() == if times <= contents.len() {
            contents.len() - times
        } else {
            0
        },
    decreases times,
{
    if times == 0 {
        assert(contents.skip(0) =~= contents);
        if contents.len() == 0 {
            assert(contents =~= Seq::<T>::empty());
        }
    } else {
        lemma_polled_times(polled(contents), (times - 1) as nat);
        if contents.len() > 0 {
            if times <= contents.len() {
                assert(contents.drop_first().skip(times as int - 1) =~= contents.skip(
                    times as int,
                ));
            }
        } else {
            assert(contents =~= Seq::<T>::empty());
        }
    }
}

/// However often an element is removed from an empty queue, the queue stays
/// empty and its size stays 0.
pub proof fn lemma_polled_times_empty<T>(times: nat)
    ensures
        polled_times(Seq::<T>::empty(), times) == Seq::<T>::empty(),
        polled_times(Seq::<T>::empty(), times).len() == 0,
{
    lemma_polled_times(Seq::<T>::empty(), times);
}

/// Elements leave in the order in which they entered: after `values` have
/// been appended to an empty queue and `times` removals made, the queue holds
/// the values that were appended after the first `times`, in their order, and
/// nothing once all of them have left.
pub proof fn lemma_first_in_first_out<T>(values: Seq<T>, times: nat)
    ensures
        times <= values.len() ==> polled_times(offered_all(Seq::<T>::empty(), values), times)
            == values.skip(times as int),
        times >= values.len() ==> polled_times(offered_all(Seq::<T>::empty(), values), times)
            == Seq::<T>::empty(),
{
    lemma_offers_from_empty(values);
    lemma_polled_times(values, times);
}

} // verus!
