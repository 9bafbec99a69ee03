//! Reading a query: telling a direct link from search text, and choosing
//! which of the resolved tracks a query of either kind puts into the queue.
use vstd::prelude::*;
use vstd::string::StrSliceExecFns;

verus! {

/// How a query is to be understood: as a direct link to a resource, or as
/// free text to search for.
#[derive(Clone, Copy, Debug, PartialEq, Eq, Structural)]
pub enum QueryKind {
    Link,
    Search,
}

/// The characters `http://`.
pub open spec fn http_scheme() -> Seq<char> {
    seq!['h', 't', 't', 'p', ':', '/', '/']
}

/// The characters `https://`.
pub open spec fn https_scheme() -> Seq<char> {
    seq!['h', 't', 't', 'p', 's', ':', '/', '/']
}

/// `text` opens with the characters of `prefix`, one for one.
pub open spec fn begins_with(text: Seq<char>, prefix: Seq<char>) -> bool {
    prefix.len() <= text.len() && text.subrange(0, prefix.len() as int) == prefix
}

/// A query has the shape of a link when it opens with `http://` or
/// `https://`, in lower case and without anything before it.
pub open spec fn is_link_text(text: Seq<char>) -> bool {
    begins_with(text, http_scheme()) || begins_with(text, https_scheme())
}

/// The kind of a query: a link where it has the shape of one, search text
/// for everything else, the empty query included.
pub open spec fn kind_of(text: Seq<char>) -> QueryKind {
    if is_link_text(text) {
        QueryKind::Link
    } else {
        QueryKind::Search
    }
}

/// The tracks that go into the queue out of what the resolver returned: all
/// of them for a link, so that a playlist expands, and only the first for
/// search text.
pub open spec fn payload_of<T>(kind: QueryKind, resolved: Seq<T>) -> Seq<T> {
    if kind == QueryKind::Link || resolved.len() <= 1 {
        resolved
    } else {
        resolved.subrange(0, 1)
    }
}

/// Tells whether `text` opens with `prefix`, comparing character by
/// character.
pub fn starts_with(text: &str, prefix: &str) -> (found: bool)
    ensures
        found == begins_with(text@, prefix@),
{
    let wanted: usize = prefix.unicode_len();
    if text.unicode_len() < wanted {
        return false;
    }
    let mut i: usize = 0;
    while i < wanted
        invariant
            wanted == prefix@.len(),
            wanted <= text@.len(),
            i <= wanted,
            forall|k: int| 0 <= k < i ==> text@[k] == prefix@[k],
        decreases wanted - i,
    {
        if text.get_char(i) != prefix.get_char(i) {
            assert(text@.subrange(0, wanted as int)[i as int] != prefix@[i as int]);
            return false;
        }
        i += 1;
    }
    assert(text@.subrange(0, wanted as int) =~= prefix@);
    true
}

/// Tells whether a query is a direct link rather than search text.
pub fn is_link(query: &str) -> (link: bool)
    ensures
        link == is_link_text(query@),
{
    proof {
        reveal_strlit("http://");
        reveal_strlit("https://");
        assert("http://"@ =~= http_scheme());
        assert("https://"@ =~= https_scheme());
    }
    starts_with(query, "http://") || starts_with(query, "https://")
}

/// Classifies a query as a link or as search text.
pub fn classify(query: &str) -> (kind: QueryKind)
    ensures
        kind == kind_of(query@),
{
    if is_link(query) {
        QueryKind::Link
    } else {
        QueryKind::Search
    }
}

/// Keeps of the resolved tracks those that are to be inserted: every track
/// of a link, the first track of a search. The order is the resolver's.
pub fn select_payload<T>(kind: QueryKind, resolved: Vec<T>) -> (payload: Vec<T>)
    ensures
        payload@ == payload_of(kind, resolved@),
{
    let mut payload = resolved;
    match kind {
        QueryKind::Link => {},
        QueryKind::Search => {
            payload.truncate(1);
        },
    }
    payload
}

} // verus!
