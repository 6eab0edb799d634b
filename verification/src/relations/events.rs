//! The events of the relationships class.

use vstd::prelude::*;
use crate::relations::Relationship;

verus! {

/// An event of the relationships class.
#[derive(Debug, Clone, PartialEq, Eq)]
pub enum RelationshipEvent {
    /// The relationship with a user changed, or what the user is doing.
    Update(Relationship),
}

} // verus!
