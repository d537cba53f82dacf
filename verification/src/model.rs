//! The mathematical model of a queue: a sequence whose index 0 is the front
//! and whose last index is the back.

use vstd::prelude::*;

verus! {

/// The contents left by one removal from the front of `contents`.
/// An empty queue stays empty.
pub open spec fn polled<T>(contents: Seq<T>) -> Seq<T> {
    if contents.len() > 0 {
        contents.drop_first()
    } else {
        contents
    }
}

/// The contents reached from `contents` by appending each of `values` at the
/// back, first to last.
pub open spec fn offered_all<T>(contents: Seq<T>, values: Seq<T>) -> Seq<T>
    decreases values.len(),
{
    if values.len() == 0 {
        contents
    } else {
        offered_all(contents.push(values.first()), values.drop_first())
    }
}

/// The contents reached from `contents` by `times` removals from the front.
pub open spec fn polled_times<T>(contents: Seq<T>, times: nat) -> Seq<T>
    decreases times,
{
    if times == 0 {
        contents
    } else {
        polled_times(polled(contents), (times - 1) as nat)
    }
}

} // verus!
