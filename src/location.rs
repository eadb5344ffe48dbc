use vstd::prelude::*;

verus! {

/// An interned identity of one source document (a file, or a document embedded
/// in a file).
#[derive(Clone, Copy, Debug, PartialEq, Eq, Structural)]
pub struct SourceLocationKey {
    pub id: u64,
}

/// A range of character offsets in a source text, `start` included, `end` excluded.
#[derive(Clone, Copy, Debug, PartialEq, Eq, Structural)]
pub struct Span {
    pub start: u32,
    pub end: u32,
}

/// A span within a given source document.
#[derive(Clone, Copy, Debug, PartialEq, Eq, Structural)]
pub struct Location {
    pub source_location: SourceLocationKey,
    pub span: Span,
}

impl Location {
    pub fn new(source_location: SourceLocationKey, span: Span) -> (r: Location)
        ensures
            r.source_location == source_location,
            r.span == span,
    {
        Location { source_location, span }
    }
}

/// Turns spans of one source document into locations.
#[derive(Debug)]
pub struct LocationHandler {
    pub source_location_key: SourceLocationKey,
}

impl LocationHandler {
    pub fn new(source_location_key: SourceLocationKey) -> (r: LocationHandler)
        ensures
            r.source_location_key == source_location_key,
    {
        LocationHandler { source_location_key }
    }

    pub fn to_location(&self, span: Span) -> (r: Location)
        ensures
            r == (Location { source_location: self.source_location_key, span }),
    {
        Location { source_location: self.source_location_key, span }
    }
}

/// A value together with the place in the source that it comes from.
#[derive(Debug)]
pub struct WithLocation<T> {
    pub item: T,
    pub location: Location,
}

} // verus!
