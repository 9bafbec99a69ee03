//! What holds of every insertion, stated over the same sequences that the
//! contracts of [`crate::inserter`] speak of.
use vstd::prelude::*;
use crate::inserter::{placed, position_valid, queue_after, rejection, InsertMode, QueueError};
use crate::query::{payload_of, QueryKind};

verus! {

/// Inserting at a position that fits the queue puts the payload there as one
/// block in its own order: the queue grows by the length of the payload, the
/// first new track stands at the position (counted from 1), each further one
/// right behind the one before it, the tracks in front of the position stay
/// where they were, and those from the position on move back by the length
/// of the payload without changing their order.
pub proof fn insertion_keeps_order<T>(queue: Seq<T>, position: usize, payload: Seq<T>)
    requires
        1 <= position <= queue.len(),
    ensures
        ({
            let after = placed(queue, InsertMode::InsertAt(position), payload);
            &&& after.len() == queue.len() + payload.len()
            &&& after.subrange(0, position - 1) == queue.subrange(0, position - 1)
            &&& after.subrange(position - 1, position - 1 + payload.len()) == payload
            &&& after.subrange(position - 1 + payload.len(), after.len() as int)
                == queue.subrange(position - 1, queue.len() as int)
            &&& forall|k: int|
                0 <= k < payload.len() ==> after[position - 1 + k] == #[trigger] payload[k]
        }),
{
    let after = placed(queue, InsertMode::InsertAt(position), payload);
    assert(after.subrange(0, position - 1) =~= queue.subrange(0, position - 1));
    assert(after.subrange(position - 1, position - 1 + payload.len()) =~= payload);
    assert(after.subrange(position - 1 + payload.len(), after.len() as int) =~= queue.subrange(
        position - 1,
        queue.len() as int,
    ));
}

/// Inserting one track at a position that fits the queue makes the queue one
/// longer, puts the track at that position (counted from 1), and keeps every
/// other track in its order: taking the new track out again gives the old
/// queue.
pub proof fn single_track_takes_position<T>(queue: Seq<T>, position: usize, track: T)
    requires
        1 <= position <= queue.len(),
    ensures
        ({
            let after = placed(queue, InsertMode::InsertAt(position), seq![track]);
            &&& after.len() == queue.len() + 1
            &&& after[position - 1] == track
            &&& after.remove(position - 1) == queue
            &&& forall|i: int| 0 <= i < position - 1 ==> after[i] == #[trigger] queue[i]
            &&& forall|i: int|
                position - 1 <= i < queue.len() ==> after[i + 1] == #[trigger] queue[i]
        }),
{
    let after = placed(queue, InsertMode::InsertAt(position), seq![track]);
    assert(after.remove(position - 1) =~= queue);
}

/// A position below 1 or beyond the end of the queue is refused as
/// `InvalidPosition`, whatever the resolver returned, and the queue stays as
/// it was.
pub proof fn invalid_position_changes_nothing<T>(
    queue: Seq<T>,
    position: usize,
    kind: QueryKind,
    resolved: Option<Seq<T>>,
)
    requires
        position < 1 || position > queue.len(),
    ensures
        rejection(Some(queue), InsertMode::InsertAt(position), resolved) == Some(
            QueueError::InvalidPosition,
        ),
        queue_after(queue, InsertMode::InsertAt(position), kind, resolved) == queue,
{
}

/// Appending a payload of N tracks to a queue of L tracks gives a queue of
/// L + N tracks whose first L are the old queue and whose last N are the
/// payload, in its order.
pub proof fn append_extends_tail<T>(queue: Seq<T>, payload: Seq<T>)
    ensures
        ({
            let after = placed(queue, InsertMode::Append, payload);
            &&& after.len() == queue.len() + payload.len()
            &&& after.subrange(0, queue.len() as int) == queue
            &&& after.subrange(queue.len() as int, after.len() as int) == payload
        }),
{
    let after = placed(queue, InsertMode::Append, payload);
    assert(after.subrange(0, queue.len() as int) =~= queue);
    assert(after.subrange(queue.len() as int, after.len() as int) =~= payload);
}

/// When the resolver returns no track the queue stays as it was, and where
/// the mode fits the queue the error is `NoResults`.
pub proof fn empty_resolution_changes_nothing<T>(queue: Seq<T>, mode: InsertMode, kind: QueryKind)
    ensures
        queue_after(queue, mode, kind, Some(Seq::<T>::empty())) == queue,
        position_valid(mode, queue.len()) ==> rejection(
            Some(queue),
            mode,
            Some(Seq::<T>::empty()),
        ) == Some(QueueError::NoResults),
{
}

/// A request that is turned away, for whatever reason, leaves the queue as
/// it was: nothing is ever placed in part.
pub proof fn refused_request_changes_nothing<T>(
    queue: Seq<T>,
    mode: InsertMode,
    kind: QueryKind,
    resolved: Option<Seq<T>>,
)
    requires
        rejection(Some(queue), mode, resolved) is Some,
    ensures
        queue_after(queue, mode, kind, resolved) == queue,
{
}

/// No request makes the queue shorter: whatever the session holds, whatever
/// the mode and whatever the resolver returned, the queue afterwards is at
/// least as long as before.
pub proof fn queue_never_shrinks<T>(
    queue: Seq<T>,
    mode: InsertMode,
    kind: QueryKind,
    resolved: Option<Seq<T>>,
)
    ensures
        queue_after(queue, mode, kind, resolved).len() >= queue.len(),
{
}

/// A request that is served puts the whole payload in: the queue grows by
/// the length of the payload, which is at least one track, exactly one for a
/// search, and everything the resolver returned for a link.
pub proof fn served_request_grows_queue<T>(
    queue: Seq<T>,
    mode: InsertMode,
    kind: QueryKind,
    resolved: Seq<T>,
)
    requires
        rejection(Some(queue), mode, Some(resolved)) is None,
    ensures
        ({
            let payload = payload_of(kind, resolved);
            &&& payload.len() >= 1
            &&& kind == QueryKind::Search ==> payload == seq![resolved[0]]
            &&& kind == QueryKind::Link ==> payload == resolved
            &&& queue_after(queue, mode, kind, Some(resolved)).len() == queue.len()
                + payload.len()
        }),
{
    let payload = payload_of(kind, resolved);
    if kind == QueryKind::Search {
        assert(payload =~= seq![resolved[0]]);
    }
}

/// Two requests that each append one track, served one after the other in
/// either order, lose nothing: the queue ends two tracks longer, holds the
/// old queue in front and both tracks behind it in the order in which they
/// were served, and holds the same tracks the same number of times whichever
/// request came first.
pub proof fn two_appends_lose_nothing<T>(queue: Seq<T>, one: T, other: T)
    ensures
        ({
            let one_first = placed(
                placed(queue, InsertMode::Append, seq![one]),
                InsertMode::Append,
                seq![other],
            );
            let other_first = placed(
                placed(queue, InsertMode::Append, seq![other]),
                InsertMode::Append,
                seq![one],
            );
            &&& one_first == queue + seq![one, other]
            &&& other_first == queue + seq![other, one]
            &&& one_first.len() == queue.len() + 2
            &&& other_first.len() == queue.len() + 2
            &&& one_first.to_multiset() == queue.to_multiset().insert(one).insert(other)
            &&& other_first.to_multiset() == one_first.to_multiset()
        }),
{
    let one_first = placed(
        placed(queue, InsertMode::Append, seq![one]),
        InsertMode::Append,
        seq![other],
    );
    let other_first = placed(
        placed(queue, InsertMode::Append, seq![other]),
        InsertMode::Append,
        seq![one],
    );
    assert(one_first =~= queue + seq![one, other]);
    assert(other_first =~= queue + seq![other, one]);
    assert(one_first =~= queue.push(one).push(other));
    assert(other_first =~= queue.push(other).push(one));
    queue.to_multiset_ensures();
    queue.push(one).to_multiset_ensures();
    queue.push(other).to_multiset_ensures();
    assert(queue.to_multiset().insert(one).insert(other) =~= queue.to_multiset().insert(
        other,
    ).insert(one));
}

} // verus!
