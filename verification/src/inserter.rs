//! Adding resolved tracks to the playback queue of a session.
//!
//! A request names a query and a place in the queue. Serving it takes three
//! steps, of which the library owns the first and the last:
//!
//! 1. [`check_request`] looks at the session and at the position, so that a
//!    request that cannot succeed never reaches the resolver;
//! 2. the caller asks the resolver, once, with the whole query;
//! 3. [`insert`] takes the resolver's answer and either places the payload in
//!    one step or leaves the queue exactly as it was.
//!
//! The queue is handed in as `&mut Vec<T>`: whoever calls [`insert`] holds
//! the queue alone for the length of the call, so a request sees the queue
//! either before or after any other request, never in between. The queue may
//! have changed while the resolver was busy; [`insert`] therefore looks at the
//! session and the position again before it touches anything.
//!
//! Tracks are never looked into: any type can stand for them.
use vstd::prelude::*;
use crate::query::{classify, kind_of, payload_of, select_payload, QueryKind};
use crate::queue::{append_tracks, splice_tracks, spliced};

verus! {

/// Where the tracks of a request go.
#[derive(Clone, Copy, Debug, PartialEq, Eq, Structural)]
pub enum InsertMode {
    /// At the tail of the queue.
    Append,
    /// Starting at this position, counted from 1: the first new track takes
    /// the place of the track that held the position, which moves back with
    /// everything behind it.
    InsertAt(usize),
}

/// A request to add what a query resolves to.
#[derive(Debug)]
pub struct InsertRequest {
    /// A direct link, or free text to search for.
    pub query: String,
    pub mode: InsertMode,
}

/// Why a request added nothing.
#[derive(Clone, Copy, Debug, PartialEq, Eq, Structural)]
pub enum QueueError {
    /// The session has no queue.
    SessionNotActive,
    /// The position is below 1 or beyond the end of the queue.
    InvalidPosition,
    /// The resolver answered, with no track.
    NoResults,
    /// The resolver did not answer.
    ResolverUnavailable,
}

/// What came back from the resolver: the tracks it found, in its order, or
/// the news that it could not be asked.
#[derive(Debug)]
pub enum Resolution<T> {
    Tracks(Vec<T>),
    Unavailable,
}

impl<T> Resolution<T> {
    /// The resolved tracks as a sequence, or `None` where the resolver failed.
    pub open spec fn tracks(self) -> Option<Seq<T>> {
        match self {
            Resolution::Tracks(found) => Some(found@),
            Resolution::Unavailable => None,
        }
    }

    /// Reads the outcome of a resolver call: its tracks where it answered,
    /// `Unavailable` where it failed, whatever the failure was.
    pub fn from_result<E>(outcome: Result<Vec<T>, E>) -> (resolution: Resolution<T>)
        ensures
            resolution.tracks() == match outcome {
                Ok(found) => Some(found@),
                Err(_) => None,
            },
    {
        match outcome {
            Ok(found) => Resolution::Tracks(found),
            Err(_) => Resolution::Unavailable,
        }
    }
}

/// A mode fits a queue of `len` tracks: appending always does, a position
/// only from 1 up to `len`.
pub open spec fn position_valid(mode: InsertMode, len: nat) -> bool {
    match mode {
        InsertMode::Append => true,
        InsertMode::InsertAt(position) => 1 <= position <= len,
    }
}

/// The queue after `payload` was placed by `mode`, where the mode fits.
pub open spec fn placed<T>(queue: Seq<T>, mode: InsertMode, payload: Seq<T>) -> Seq<T> {
    match mode {
        InsertMode::Append => queue + payload,
        InsertMode::InsertAt(position) => spliced(queue, position - 1, payload),
    }
}

/// The error that turns a request away, if any, given the queue of the
/// session (`None` for a session that has none) and what the resolver
/// returned. The session is looked at first, then the position, then the
/// resolver's answer.
pub open spec fn rejection<T>(
    session: Option<Seq<T>>,
    mode: InsertMode,
    resolved: Option<Seq<T>>,
) -> Option<QueueError> {
    if session is None {
        Some(QueueError::SessionNotActive)
    } else if !position_valid(mode, session->0.len()) {
        Some(QueueError::InvalidPosition)
    } else if resolved is None {
        Some(QueueError::ResolverUnavailable)
    } else if resolved->0.len() == 0 {
        Some(QueueError::NoResults)
    } else {
        None
    }
}

/// The queue that a request leaves behind: the old one where the request is
/// turned away, else the old one with the payload placed.
pub open spec fn queue_after<T>(
    queue: Seq<T>,
    mode: InsertMode,
    kind: QueryKind,
    resolved: Option<Seq<T>>,
) -> Seq<T> {
    if rejection(Some(queue), mode, resolved) is Some {
        queue
    } else {
        placed(queue, mode, payload_of(kind, resolved->0))
    }
}

/// Checks a mode against the length of the queue.
pub fn validate(mode: InsertMode, queue_len: usize) -> (checked: Result<(), QueueError>)
    ensures
        position_valid(mode, queue_len as nat) ==> checked == Ok::<(), QueueError>(()),
        !position_valid(mode, queue_len as nat) ==> checked == Err::<(), QueueError>(
            QueueError::InvalidPosition,
        ),
{
    match mode {
        InsertMode::Append => Ok(()),
        InsertMode::InsertAt(position) => {
            if position < 1 || position > queue_len {
                Err(QueueError::InvalidPosition)
            } else {
                Ok(())
            }
        },
    }
}

/// Decides, before the resolver is asked, whether a request can go on: the
/// session must have a queue, and the mode must fit it as it is now.
pub fn check_request<T>(session: Option<&Vec<T>>, mode: InsertMode) -> (checked: Result<
    (),
    QueueError,
>)
    ensures
        match session {
            None => checked == Err::<(), QueueError>(QueueError::SessionNotActive),
            Some(queue) => if position_valid(mode, queue@.len()) {
                checked == Ok::<(), QueueError>(())
            } else {
                checked == Err::<(), QueueError>(QueueError::InvalidPosition)
            },
        },
{
    match session {
        None => Err(QueueError::SessionNotActive),
        Some(queue) => validate(mode, queue.len()),
    }
}

/// Turns the resolver's answer into the tracks to insert: its failure and an
/// empty answer are errors, a link keeps every track, a search the first.
pub fn payload_for<T>(kind: QueryKind, resolution: Resolution<T>) -> (chosen: Result<
    Vec<T>,
    QueueError,
>)
    ensures
        match resolution.tracks() {
            None => chosen matches Err(e) && e == QueueError::ResolverUnavailable,
            Some(found) => if found.len() == 0 {
                chosen matches Err(e) && e == QueueError::NoResults
            } else {
                chosen matches Ok(payload) && payload@ == payload_of(kind, found)
                    && payload@.len() >= 1
            },
        },
{
    match resolution {
        Resolution::Unavailable => Err(QueueError::ResolverUnavailable),
        Resolution::Tracks(found) => {
            if found.len() == 0 {
                Err(QueueError::NoResults)
            } else {
                Ok(select_payload(kind, found))
            }
        },
    }
}

/// Places `payload` into `queue` by `mode` and returns how many tracks went
/// in. A position that does not fit the queue is refused and the queue is
/// left as it was.
pub fn place<T>(queue: &mut Vec<T>, mode: InsertMode, payload: Vec<T>) -> (count: Result<
    usize,
    QueueError,
>)
    ensures
        position_valid(mode, old(queue)@.len()) ==> count == Ok::<usize, QueueError>(
            payload.len(),
        ) && final(queue)@ == placed(old(queue)@, mode, payload@),
        !position_valid(mode, old(queue)@.len()) ==> count == Err::<usize, QueueError>(
            QueueError::InvalidPosition,
        ) && final(queue)@ == old(queue)@,
{
    let count: usize = payload.len();
    match mode {
        InsertMode::Append => {
            append_tracks(queue, payload);
            Ok(count)
        },
        InsertMode::InsertAt(position) => {
            if position < 1 || position > queue.len() {
                Err(QueueError::InvalidPosition)
            } else {
                splice_tracks(queue, position - 1, payload);
                Ok(count)
            }
        },
    }
}

/// Carries a request out on the queue of a session, given what the resolver
/// returned for its query and how the query is to be read.
///
/// The request is turned away, and the queue left untouched, when the
/// session has no queue, when the position does not fit the queue, when the
/// resolver failed, or when it found nothing; the first of these that holds
/// is the error. Otherwise the payload goes in, all of it, and its length is
/// returned.
pub fn insert_as<T>(
    session: Option<&mut Vec<T>>,
    mode: InsertMode,
    kind: QueryKind,
    resolution: Resolution<T>,
) -> (inserted: Result<usize, QueueError>)
    ensures
        match session {
            None => inserted == Err::<usize, QueueError>(QueueError::SessionNotActive),
            Some(queue) => {
                &&& final(queue)@ == queue_after(queue@, mode, kind, resolution.tracks())
                &&& match rejection(Some(queue@), mode, resolution.tracks()) {
                    Some(error) => inserted == Err::<usize, QueueError>(error),
                    None => inserted matches Ok(count) && count == payload_of(
                        kind,
                        resolution.tracks()->0,
                    ).len(),
                }
            },
        },
{
    match session {
        None => Err(QueueError::SessionNotActive),
        Some(queue) => {
            match validate(mode, queue.len()) {
                Err(error) => Err(error),
                Ok(()) => {
                    match payload_for(kind, resolution) {
                        Err(error) => Err(error),
                        Ok(payload) => place(queue, mode, payload),
                    }
                },
            }
        },
    }
}

/// Carries a request out, reading its query as a link where it has the shape
/// of one and as search text otherwise. See [`insert_as`].
pub fn insert<T>(
    session: Option<&mut Vec<T>>,
    request: &InsertRequest,
    resolution: Resolution<T>,
) -> (inserted: Result<usize, QueueError>)
    ensures
        match session {
            None => inserted == Err::<usize, QueueError>(QueueError::SessionNotActive),
            Some(queue) => {
                &&& final(queue)@ == queue_after(
                    queue@,
                    request.mode,
                    kind_of(request.query@),
                    resolution.tracks(),
                )
                &&& match rejection(Some(queue@), request.mode, resolution.tracks()) {
                    Some(error) => inserted == Err::<usize, QueueError>(error),
                    None => inserted matches Ok(count) && count == payload_of(
                        kind_of(request.query@),
                        resolution.tracks()->0,
                    ).len(),
                }
            },
        },
{
    let kind = classify(request.query.as_str());
    insert_as(session, request.mode, kind, resolution)
}

} // verus!
