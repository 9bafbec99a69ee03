//! The two ways in which a queue of tracks grows: at its tail, and in the
//! middle. Both take the new tracks as one block and keep their order.
use vstd::prelude::*;

verus! {

/// The queue that results from placing `payload`, in its own order, into
/// `queue` so that its first track lands at zero-based index `at`.
pub open spec fn spliced<T>(queue: Seq<T>, at: int, payload: Seq<T>) -> Seq<T> {
    queue.subrange(0, at) + payload + queue.subrange(at, queue.len() as int)
}

/// Places every track of `payload` into `queue` in one step, the first of
/// them at zero-based index `at`, keeping the order of both.
pub fn splice_tracks<T>(queue: &mut Vec<T>, at: usize, payload: Vec<T>)
    requires
        at <= old(queue)@.len(),
    ensures
        final(queue)@ == spliced(old(queue)@, at as int, payload@),
{
    let mut payload = payload;
    let mut tail = queue.split_off(at);
    queue.append(&mut payload);
    queue.append(&mut tail);
}

/// Adds every track of `payload` to the tail of `queue`, in the order of
/// `payload`.
pub fn append_tracks<T>(queue: &mut Vec<T>, payload: Vec<T>)
    ensures
        final(queue)@ == old(queue)@ + payload@,
{
    let mut payload = payload;
    queue.append(&mut payload);
}

} // verus!
