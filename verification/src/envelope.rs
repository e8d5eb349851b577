//! Shared wire vocabulary of activity envelopes: the public-collection
//! recipient marker, the closed kind tags, and the extension bag that
//! preserves unrecognized fields verbatim for forward compatibility.

use vstd::prelude::*;

verus! {

/// The public-collection sentinel: an envelope addressed "to public"
/// is meant for broad distribution.
#[derive(Clone, Copy, Debug, PartialEq, Eq, Structural)]
pub enum PublicMarker {
    Public,
}

/// Kind tag of an add activity.
#[derive(Clone, Copy, Debug, PartialEq, Eq, Structural)]
pub enum AddType {
    Add,
}

/// Kind tag of an update activity.
#[derive(Clone, Copy, Debug, PartialEq, Eq, Structural)]
pub enum UpdateType {
    Update,
}

/// Kind tag of a delete activity.
#[derive(Clone, Copy, Debug, PartialEq, Eq, Structural)]
pub enum DeleteType {
    Delete,
}

/// Kind tag of an undo activity.
#[derive(Clone, Copy, Debug, PartialEq, Eq, Structural)]
pub enum UndoType {
    Undo,
}

/// Kind tag of a follow activity.
#[derive(Clone, Copy, Debug, PartialEq, Eq, Structural)]
pub enum FollowType {
    Follow,
}

/// Kind tag distinguishing creation of new content from an edit.
#[derive(Clone, Copy, Debug, PartialEq, Eq, Structural)]
pub enum CreateOrUpdateType {
    Create,
    Update,
}

/// Unrecognized fields of an inbound envelope, kept verbatim as
/// (name, raw value) pairs. They are round-tripped on re-serialization
/// and never interpreted.
#[derive(Debug, PartialEq)]
pub struct Unparsed {
    pub fields: Vec<(String, String)>,
}

impl Unparsed {
    /// An empty extension bag, as outbound construction uses.
    pub fn new() -> (r: Self)
        ensures
            r.fields@.len() == 0,
    {
        Unparsed { fields: Vec::new() }
    }
}

} // verus!
