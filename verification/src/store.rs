//! The owner collection as the merger sees it: records found by their
//! identifier, and the additive update that pushes an artifact onto one of
//! them.
//!
//! The specification functions say what an attachment does to a collection.
//! `OwnerStore` runs the same update in memory; a database that holds the
//! records is expected to answer as it does. The laws at the end are what the
//! merger relies on: an unknown owner leaves the collection as it was, and
//! attachments to one owner commute, so none is lost whichever lands first.

use crate::error::MergeError;
use crate::merger::{settled_count, Artifact, AttachUpdate};
use crate::model::{Faculty, Flashcard, Quiz, Student};
use vstd::multiset::Multiset;
use vstd::prelude::*;
use vstd::seq_lib::*;

verus! {

/// A persisted owner record: a student or a member of the faculty, with the
/// artifacts attached so far.
#[derive(Debug, Clone, PartialEq, Eq)]
pub struct OwnerDocument {
    pub _id: String,
    pub username: String,
    pub password: String,
    pub quiz: Vec<Quiz>,
    pub flashes: Vec<Flashcard>,
}

/// An owner record by what it holds.
pub struct OwnerView {
    pub id: Seq<char>,
    pub username: Seq<char>,
    pub password: Seq<char>,
    pub quiz: Seq<Quiz>,
    pub flashes: Seq<Flashcard>,
}

impl View for OwnerDocument {
    type V = OwnerView;

    open spec fn view(&self) -> OwnerView {
        OwnerView {
            id: self._id@,
            username: self.username@,
            password: self.password@,
            quiz: self.quiz@,
            flashes: self.flashes@,
        }
    }
}

impl Student {
    /// The record that is persisted for this student.
    pub fn into_owner(self) -> (owner: OwnerDocument)
        ensures
            owner@.id == self._id@,
            owner@.username == self.username@,
            owner@.password == self.password@,
            owner@.quiz == self.quiz@,
            owner@.flashes == self.flashes@,
    {
        OwnerDocument {
            _id: self._id,
            username: self.username,
            password: self.password,
            quiz: self.quiz,
            flashes: self.flashes,
        }
    }
}

impl Faculty {
    /// The record that is persisted for this member of the faculty.
    pub fn into_owner(self) -> (owner: OwnerDocument)
        ensures
            owner@.id == self._id@,
            owner@.username == self.username@,
            owner@.password == self.password@,
            owner@.quiz == self.quiz@,
            owner@.flashes == self.flashes@,
    {
        OwnerDocument {
            _id: self._id,
            username: self.username,
            password: self.password,
            quiz: self.quiz,
            flashes: self.flashes,
        }
    }
}

/// Some record of the collection has this identifier.
pub open spec fn has_owner(owners: Seq<OwnerView>, id: Seq<char>) -> bool {
    exists|i: int| 0 <= i < owners.len() && (#[trigger] owners[i]).id == id
}

/// The place of a record with this identifier.
pub open spec fn owner_index(owners: Seq<OwnerView>, id: Seq<char>) -> int {
    choose|i: int| 0 <= i < owners.len() && (#[trigger] owners[i]).id == id
}

/// No two records share an identifier.
pub open spec fn distinct_ids(owners: Seq<OwnerView>) -> bool {
    forall|i: int, j: int|
        0 <= i < j < owners.len() ==> (#[trigger] owners[i]).id != (#[trigger] owners[j]).id
}

/// A record with one more artifact at the end of the array it belongs to.
pub open spec fn with_artifact(owner: OwnerView, artifact: Artifact) -> OwnerView {
    match artifact {
        Artifact::Flashcard(f) => OwnerView { flashes: owner.flashes.push(f), ..owner },
        Artifact::Quiz(q) => OwnerView { quiz: owner.quiz.push(q), ..owner },
    }
}

/// The collection after an attachment: the record with the identifier holds
/// one more artifact, and a collection without such a record is unchanged.
pub open spec fn attached(owners: Seq<OwnerView>, id: Seq<char>, artifact: Artifact) -> Seq<
    OwnerView,
> {
    if has_owner(owners, id) {
        let i = owner_index(owners, id);
        owners.update(i, with_artifact(owners[i], artifact))
    } else {
        owners
    }
}

/// The number of records an attachment modifies.
pub open spec fn modified_count(owners: Seq<OwnerView>, id: Seq<char>) -> u64 {
    if has_owner(owners, id) {
        1
    } else {
        0
    }
}

/// The artifacts of a record, without their order.
pub open spec fn artifacts(owner: OwnerView) -> Multiset<Artifact> {
    owner.flashes.map_values(|f: Flashcard| Artifact::Flashcard(f)).to_multiset().add(
        owner.quiz.map_values(|q: Quiz| Artifact::Quiz(q)).to_multiset(),
    )
}

/// An owner collection in memory.
#[derive(Debug, PartialEq, Eq)]
pub struct OwnerStore {
    owners: Vec<OwnerDocument>,
}

impl View for OwnerStore {
    type V = Seq<OwnerView>;

    closed spec fn view(&self) -> Seq<OwnerView> {
        self.owners@.map_values(|o: OwnerDocument| o@)
    }
}

impl OwnerStore {
    /// No two records share an identifier.
    #[verifier::type_invariant]
    spec fn unique_identifiers(self) -> bool {
        distinct_ids(self@)
    }

    /// An empty collection.
    pub fn new() -> (store: OwnerStore)
        ensures
            store@ == Seq::<OwnerView>::empty(),
    {
        let store = OwnerStore { owners: Vec::new() };
        assert(store@ =~= Seq::<OwnerView>::empty());
        store
    }

    /// The number of records. Their identifiers are distinct.
    pub fn len(&self) -> (n: usize)
        ensures
            n == self@.len(),
            distinct_ids(self@),
    {
        proof {
            use_type_invariant(self);
        }
        self.owners.len()
    }

    /// The place of the record with an identifier, if there is one.
    pub fn position(&self, id: &String) -> (place: Option<usize>)
        ensures
            match place {
                Some(i) => has_owner(self@, id@) && i == owner_index(self@, id@),
                None => !has_owner(self@, id@),
            },
    {
        proof {
            use_type_invariant(self);
        }
        let mut k: usize = 0;
        while k < self.owners.len()
            invariant
                k <= self.owners.len(),
                self@.len() == self.owners.len(),
                distinct_ids(self@),
                forall|j: int|
                    0 <= j < self@.len() ==> (#[trigger] self@[j]).id == self.owners[j]._id@,
                forall|j: int| 0 <= j < k ==> (#[trigger] self@[j]).id != id@,
            decreases self.owners.len() - k,
        {
            if self.owners[k]._id == *id {
                proof {
                    let i = owner_index(self@, id@);
                    assert(self@[k as int].id == id@);
                    assert(self@[i].id == id@);
                    if i < k {
                        assert(self@[i].id != self@[k as int].id);
                    } else if k < i {
                        assert(self@[k as int].id != self@[i].id);
                    }
                }
                return Some(k);
            }
            k += 1;
        }
        None
    }

    /// The record with an identifier, if there is one.
    pub fn get(&self, id: &String) -> (found: Option<&OwnerDocument>)
        ensures
            match found {
                Some(owner) => has_owner(self@, id@) && owner@ == self@[owner_index(self@, id@)],
                None => !has_owner(self@, id@),
            },
    {
        match self.position(id) {
            Some(i) => Some(&self.owners[i]),
            None => None,
        }
    }

    /// Adds a record, unless one with its identifier is there already.
    pub fn insert(&mut self, owner: OwnerDocument) -> (inserted: bool)
        ensures
            inserted == !has_owner(old(self)@, owner@.id),
            inserted ==> final(self)@ == old(self)@.push(owner@),
            !inserted ==> final(self)@ == old(self)@,
            distinct_ids(final(self)@),
    {
        proof {
            use_type_invariant(&*self);
        }
        if self.position(&owner._id).is_some() {
            return false;
        }
        let ghost before = self@;
        let ghost added = owner@;
        let mut owners: Vec<OwnerDocument> = Vec::new();
        assert(owners@.map_values(|o: OwnerDocument| o@) =~= Seq::<OwnerView>::empty());
        core::mem::swap(&mut self.owners, &mut owners);
        owners.push(owner);
        proof {
            let after = before.push(added);
            assert forall|i: int, j: int| 0 <= i < j < after.len() implies (#[trigger] after[i]).id
                != (#[trigger] after[j]).id by {
                if j < before.len() {
                    assert(before[i].id != before[j].id);
                } else {
                    assert(before[i].id != added.id);
                }
            }
            assert(owners@.map_values(|o: OwnerDocument| o@) =~= after);
        }
        self.owners = owners;
        true
    }

    /// Runs an attachment and answers with the number of records it
    /// modified: one when the owner is there, zero when it is not.
    pub fn attach(&mut self, update: AttachUpdate) -> (count: u64)
        ensures
            final(self)@ == attached(old(self)@, update.owner_id@, update.artifact),
            count == modified_count(old(self)@, update.owner_id@),
            distinct_ids(final(self)@),
    {
        proof {
            use_type_invariant(&*self);
        }
        let place = self.position(&update.owner_id);
        match place {
            None => 0,
            Some(i) => {
                let ghost before = self@;
                let ghost target = attached(before, update.owner_id@, update.artifact);
                proof {
                    assert(target.len() == before.len());
                    assert forall|a: int, b: int| 0 <= a < b < target.len() implies (
                    #[trigger] target[a]).id != (#[trigger] target[b]).id by {
                        assert(before[a].id != before[b].id);
                    }
                }
                let mut owners: Vec<OwnerDocument> = Vec::new();
                assert(owners@.map_values(|o: OwnerDocument| o@) =~= Seq::<OwnerView>::empty());
                core::mem::swap(&mut self.owners, &mut owners);
                let mut owner = owners.remove(i);
                match update.artifact {
                    Artifact::Flashcard(f) => owner.flashes.push(f),
                    Artifact::Quiz(q) => owner.quiz.push(q),
                }
                assert(owner@ == with_artifact(before[i as int], update.artifact));
                owners.insert(i, owner);
                assert(owners@.map_values(|o: OwnerDocument| o@) =~= target);
                self.owners = owners;
                1
            },
        }
    }
}

/// An attachment to an owner that is not there modifies nothing: the
/// collection is what it was, the count is zero, and the merger reads that
/// count as `OwnerNotFound`.
pub proof fn lemma_unknown_owner_untouched(owners: Seq<OwnerView>, id: Seq<char>, artifact: Artifact)
    requires
        !has_owner(owners, id),
    ensures
        attached(owners, id, artifact) == owners,
        modified_count(owners, id) == 0,
        settled_count(modified_count(owners, id)) == Err::<u64, MergeError>(
            MergeError::OwnerNotFound,
        ),
{
}

/// An attachment to an owner that is there modifies that one record, which
/// then holds what it held and the new artifact; the merger reads the count
/// as a success.
pub proof fn lemma_attach_adds_one(owners: Seq<OwnerView>, id: Seq<char>, artifact: Artifact)
    requires
        distinct_ids(owners),
        has_owner(owners, id),
    ensures
        modified_count(owners, id) == 1,
        settled_count(modified_count(owners, id)) is Ok,
        has_owner(attached(owners, id, artifact), id),
        distinct_ids(attached(owners, id, artifact)),
        owner_index(attached(owners, id, artifact), id) == owner_index(owners, id),
        attached(owners, id, artifact).len() == owners.len(),
        forall|j: int|
            0 <= j < owners.len() && j != owner_index(owners, id) ==> #[trigger] attached(
                owners,
                id,
                artifact,
            )[j] == owners[j],
        artifacts(attached(owners, id, artifact)[owner_index(owners, id)]) == artifacts(
            owners[owner_index(owners, id)],
        ).insert(artifact),
{
    broadcast use group_to_multiset_ensures;

    let i = owner_index(owners, id);
    let after = attached(owners, id, artifact);
    assert(after[i].id == id);
    assert forall|a: int, b: int| 0 <= a < b < after.len() implies (#[trigger] after[a]).id != (
    #[trigger] after[b]).id by {
        assert(owners[a].id != owners[b].id);
    }
    let k = owner_index(after, id);
    if k < i {
        assert(after[k].id != after[i].id);
    } else if i < k {
        assert(after[i].id != after[k].id);
    }
    let old_flashes = owners[i].flashes.map_values(|f: Flashcard| Artifact::Flashcard(f));
    let old_quiz = owners[i].quiz.map_values(|q: Quiz| Artifact::Quiz(q));
    match artifact {
        Artifact::Flashcard(f) => {
            assert(after[i].flashes.map_values(|f: Flashcard| Artifact::Flashcard(f))
                =~= old_flashes.push(artifact));
            assert(artifacts(after[i]) =~= artifacts(owners[i]).insert(artifact));
        },
        Artifact::Quiz(q) => {
            assert(after[i].quiz.map_values(|q: Quiz| Artifact::Quiz(q)) =~= old_quiz.push(
                artifact,
            ));
            assert(artifacts(after[i]) =~= artifacts(owners[i]).insert(artifact));
        },
    }
}

/// Two attachments to one owner both succeed, whichever lands first, and
/// afterwards the owner holds what it held and both artifacts. The two
/// orders differ at most in the order of the artifacts, and no other record
/// is touched.
pub proof fn lemma_attachments_commute(
    owners: Seq<OwnerView>,
    id: Seq<char>,
    first: Artifact,
    second: Artifact,
)
    requires
        distinct_ids(owners),
        has_owner(owners, id),
    ensures
        ({
            let i = owner_index(owners, id);
            let one_way = attached(attached(owners, id, first), id, second);
            let other_way = attached(attached(owners, id, second), id, first);
            &&& settled_count(modified_count(owners, id)) is Ok
            &&& settled_count(modified_count(attached(owners, id, first), id)) is Ok
            &&& settled_count(modified_count(attached(owners, id, second), id)) is Ok
            &&& artifacts(one_way[i]) == artifacts(owners[i]).insert(first).insert(second)
            &&& artifacts(other_way[i]) == artifacts(one_way[i])
            &&& artifacts(one_way[i]).count(first) > 0
            &&& artifacts(one_way[i]).count(second) > 0
            &&& one_way.len() == owners.len()
            &&& other_way.len() == owners.len()
            &&& forall|j: int|
                0 <= j < owners.len() && j != i ==> #[trigger] one_way[j] == owners[j]
                    && other_way[j] == owners[j]
        }),
{
    let i = owner_index(owners, id);
    let after_first = attached(owners, id, first);
    let after_second = attached(owners, id, second);
    lemma_attach_adds_one(owners, id, first);
    lemma_attach_adds_one(owners, id, second);
    lemma_attach_adds_one(after_first, id, second);
    lemma_attach_adds_one(after_second, id, first);
    let one_way = attached(after_first, id, second);
    let other_way = attached(after_second, id, first);
    assert(artifacts(other_way[i]) =~= artifacts(one_way[i]));
    assert forall|j: int| 0 <= j < owners.len() && j != i implies #[trigger] one_way[j]
        == owners[j] && other_way[j] == owners[j] by {
        assert(after_first[j] == owners[j]);
        assert(after_second[j] == owners[j]);
    }
}

} // verus!
