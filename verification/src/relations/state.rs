//! A view of the user's relationships, kept up to date by the events of the
//! relationships class.

use vstd::prelude::*;
use crate::relations::events::RelationshipEvent;
use crate::relations::Relationship;
use crate::user::UserId;

verus! {

/// The relationships of the user, one for each other user.
#[derive(Debug, Clone, PartialEq, Eq)]
pub struct Relationships {
    pub relationships: Vec<Relationship>,
}

/// Whether `i` is the place of the first relationship with the user `id`.
pub open spec fn is_first_relation(rels: Seq<Relationship>, id: UserId, i: int) -> bool {
    &&& 0 <= i < rels.len()
    &&& rels[i].user.id == id
    &&& forall|j: int| 0 <= j < i ==> (#[trigger] rels[j]).user.id != id
}

/// Whether there is no relationship with the user `id`.
pub open spec fn no_relation(rels: Seq<Relationship>, id: UserId) -> bool {
    forall|j: int| 0 <= j < rels.len() ==> (#[trigger] rels[j]).user.id != id
}

/// Whether no user has two relationships.
pub open spec fn distinct_users(rels: Seq<Relationship>) -> bool {
    forall|i: int, j: int|
        0 <= i < j < rels.len() ==> (#[trigger] rels[i]).user.id != (#[trigger] rels[j]).user.id
}

/// Whether `after` is what an update makes of `before`: the relationship
/// takes the place of the first with its user, or is added at the end.
pub open spec fn is_updated(before: Seq<Relationship>, rel: Relationship, after: Seq<Relationship>) -> bool {
    &&& no_relation(before, rel.user.id) ==> after == before.push(rel)
    &&& forall|i: int| #[trigger]
        is_first_relation(before, rel.user.id, i) ==> after == before.update(i, rel)
}

impl Relationships {
    /// A view that starts from the relationships as Discord listed them.
    pub fn new(relations: Vec<Relationship>) -> (r: Relationships)
        ensures
            r.relationships == relations,
    {
        Relationships { relationships: relations }
    }

    /// Finds the first relationship with the user `id`.
    pub fn find(&self, id: UserId) -> (r: Option<usize>)
        ensures
            match r {
                Some(i) => is_first_relation(self.relationships@, id, i as int),
                None => no_relation(self.relationships@, id),
            },
    {
        let mut i: usize = 0;
        while i < self.relationships.len()
            invariant
                0 <= i <= self.relationships@.len(),
                forall|j: int| 0 <= j < i ==> (#[trigger] self.relationships@[j]).user.id != id,
            decreases self.relationships@.len() - i,
        {
            if self.relationships[i].user.id == id {
                return Some(i);
            }
            i += 1;
        }
        None
    }

    /// Takes an event of the relationships class into the view. A view in
    /// which no user occurs twice stays so.
    pub fn on_event(&mut self, re: RelationshipEvent)
        ensures
            match re {
                RelationshipEvent::Update(rel) => is_updated(
                    old(self).relationships@,
                    rel,
                    final(self).relationships@,
                ),
            },
            distinct_users(old(self).relationships@) ==> distinct_users(final(self).relationships@),
    {
        let ghost before = self.relationships@;
        match re {
            RelationshipEvent::Update(rel) => {
                match self.find(rel.user.id) {
                    Some(i) => {
                        proof {
                            assert forall|i2: int| #[trigger]
                                is_first_relation(before, rel.user.id, i2) implies i2 == i by {
                                if i2 < i {
                                    assert(before[i2].user.id != rel.user.id);
                                } else if i < i2 {
                                    assert(before[i as int].user.id != rel.user.id);
                                }
                            }
                            assert(before[i as int].user.id == rel.user.id);
                        }
                        self.relationships.remove(i);
                        self.relationships.insert(i, rel);
                        assert(self.relationships@ =~= before.update(i as int, rel));
                        assert(distinct_users(before) ==> distinct_users(self.relationships@)) by {
                            if distinct_users(before) {
                                assert forall|a: int, b: int|
                                    0 <= a < b < self.relationships@.len() implies (
                                #[trigger] self.relationships@[a]).user.id != (
                                #[trigger] self.relationships@[b]).user.id by {
                                    assert(before[a].user.id != before[b].user.id);
                                }
                            }
                        }
                    },
                    None => {
                        self.relationships.push(rel);
                        assert(distinct_users(before) ==> distinct_users(self.relationships@)) by {
                            if distinct_users(before) {
                                assert forall|a: int, b: int|
                                    0 <= a < b < self.relationships@.len() implies (
                                #[trigger] self.relationships@[a]).user.id != (
                                #[trigger] self.relationships@[b]).user.id by {
                                    if b < before.len() {
                                        assert(before[a].user.id != before[b].user.id);
                                    } else {
                                        assert(before[a].user.id != rel.user.id);
                                    }
                                }
                            }
                        }
                    },
                }
            },
        }
    }
}

} // verus!
