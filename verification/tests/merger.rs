use flashquiz::error::MergeError;
use flashquiz::merger::{
    Artifact, ArtifactField, AttachUpdate, DocumentMerger, FLASHES_FIELD, OWNER_COLLECTION,
    OWNER_KEY, PUSH_OPERATOR, QUIZ_FIELD,
};
use flashquiz::model::{Faculty, Flashcard, Quiz, Student};
use flashquiz::store::{OwnerDocument, OwnerStore};

fn owner(id: &str) -> OwnerDocument {
    OwnerDocument {
        _id: id.to_string(),
        username: format!("name of {}", id),
        password: "$argon2id$stored".to_string(),
        quiz: Vec::new(),
        flashes: Vec::new(),
    }
}

fn store_of(ids: &[&str]) -> OwnerStore {
    let mut store = OwnerStore::new();
    for id in ids {
        assert!(store.insert(owner(id)));
    }
    store
}

fn flash(id: &str) -> Artifact {
    Artifact::Flashcard(Flashcard {
        _id: id.to_string(),
        topic: "Photosynthesis".to_string(),
        content: format!("content of {}", id),
    })
}

fn quiz(id: &str) -> Artifact {
    Artifact::Quiz(Quiz { _id: id.to_string(), quizzes: format!("questions of {}", id) })
}

#[test]
fn update_names_owner_field_and_artifact() {
    let update = DocumentMerger::attach("u1".to_string(), flash("f1"));
    assert_eq!(
        update,
        AttachUpdate { owner_id: "u1".to_string(), field: ArtifactField::Flashes, artifact: flash("f1") }
    );
    let update = DocumentMerger::attach("u2".to_string(), quiz("q1"));
    assert_eq!(update.owner_id, "u2");
    assert_eq!(update.field, ArtifactField::Quiz);
    assert_eq!(update.artifact, quiz("q1"));
}

#[test]
fn persisted_names() {
    assert_eq!(ArtifactField::Flashes.name(), "flashes");
    assert_eq!(ArtifactField::Quiz.name(), "quiz");
    assert_eq!(FLASHES_FIELD, "flashes");
    assert_eq!(QUIZ_FIELD, "quiz");
    assert_eq!(OWNER_KEY, "_id");
    assert_eq!(PUSH_OPERATOR, "$push");
    assert_eq!(OWNER_COLLECTION, "users");
    assert_eq!(flash("f").field(), ArtifactField::Flashes);
    assert_eq!(quiz("q").field(), ArtifactField::Quiz);
}

#[test]
fn zero_modified_is_owner_not_found() {
    assert_eq!(DocumentMerger::settle(Ok(0)), Err(MergeError::OwnerNotFound));
}

#[test]
fn modified_count_is_handed_on() {
    assert_eq!(DocumentMerger::settle(Ok(1)), Ok(1));
    assert_eq!(DocumentMerger::settle(Ok(7)), Ok(7));
}

#[test]
fn store_failure_is_storage_error() {
    assert_eq!(
        DocumentMerger::settle(Err("connection reset".to_string())),
        Err(MergeError::Storage("connection reset".to_string()))
    );
}

#[test]
fn merge_errors_have_messages() {
    assert_eq!(MergeError::OwnerNotFound.message(), "Failed to update value");
    assert_eq!(MergeError::Storage("boom".to_string()).message(), "boom");
}

#[test]
fn attach_to_unknown_owner_writes_nothing() {
    let mut store = store_of(&["u1", "u2"]);
    let before = store_of(&["u1", "u2"]);
    let count = store.attach(DocumentMerger::attach("nobody".to_string(), flash("f1")));
    assert_eq!(count, 0);
    assert_eq!(store, before);
    assert_eq!(DocumentMerger::settle(Ok(count)), Err(MergeError::OwnerNotFound));
}

#[test]
fn attach_to_known_owner_appends() {
    let mut store = OwnerStore::new();
    assert!(store.insert(owner("u1")));
    assert!(store.insert(owner("u2")));
    let count = store.attach(DocumentMerger::attach("u2".to_string(), flash("f1")));
    assert_eq!(count, 1);
    assert_eq!(DocumentMerger::settle(Ok(count)), Ok(1));
    let u2 = store.get(&"u2".to_string()).unwrap();
    assert_eq!(u2.flashes.len(), 1);
    assert_eq!(Artifact::Flashcard(u2.flashes[0].clone()), flash("f1"));
    assert!(u2.quiz.is_empty());
    assert_eq!(store.get(&"u1".to_string()), Some(&owner("u1")));
    let count = store.attach(DocumentMerger::attach("u2".to_string(), quiz("q1")));
    assert_eq!(count, 1);
    let u2 = store.get(&"u2".to_string()).unwrap();
    assert_eq!(u2.flashes.len(), 1);
    assert_eq!(u2.quiz.len(), 1);
    assert_eq!(Artifact::Quiz(u2.quiz[0].clone()), quiz("q1"));
}

#[test]
fn two_attachments_both_land_in_either_order() {
    let mut one_way = store_of(&["u0", "u1"]);
    let mut other_way = store_of(&["u0", "u1"]);

    assert_eq!(one_way.attach(DocumentMerger::attach("u1".to_string(), flash("a"))), 1);
    assert_eq!(one_way.attach(DocumentMerger::attach("u1".to_string(), flash("b"))), 1);
    assert_eq!(other_way.attach(DocumentMerger::attach("u1".to_string(), flash("b"))), 1);
    assert_eq!(other_way.attach(DocumentMerger::attach("u1".to_string(), flash("a"))), 1);

    for store in [&one_way, &other_way] {
        let flashes = &store.get(&"u1".to_string()).unwrap().flashes;
        assert_eq!(flashes.len(), 2);
        assert!(flashes.iter().any(|f| Artifact::Flashcard(f.clone()) == flash("a")));
        assert!(flashes.iter().any(|f| Artifact::Flashcard(f.clone()) == flash("b")));
        assert_eq!(store.get(&"u0".to_string()), Some(&owner("u0")));
        assert_eq!(store.len(), 2);
    }
}

#[test]
fn attachments_of_different_kinds_do_not_disturb_each_other() {
    let mut store = OwnerStore::new();
    assert!(store.insert(owner("u1")));
    assert_eq!(store.attach(DocumentMerger::attach("u1".to_string(), quiz("q"))), 1);
    assert_eq!(store.attach(DocumentMerger::attach("u1".to_string(), flash("f"))), 1);
    let u1 = store.get(&"u1".to_string()).unwrap();
    assert_eq!(u1.flashes.len(), 1);
    assert_eq!(u1.quiz.len(), 1);
}

#[test]
fn identifiers_are_unique_in_a_store() {
    let mut store = OwnerStore::new();
    assert_eq!(store.len(), 0);
    assert!(store.insert(owner("u1")));
    let mut again = owner("u1");
    again.username = "someone else".to_string();
    assert!(!store.insert(again));
    assert_eq!(store.len(), 1);
    assert_eq!(store.get(&"u1".to_string()), Some(&owner("u1")));
    assert_eq!(store.position(&"u1".to_string()), Some(0));
    assert_eq!(store.position(&"u3".to_string()), None);
    assert_eq!(store.get(&"u3".to_string()), None);
}

#[test]
fn records_of_students_and_faculty() {
    let student = Student {
        _id: "s1".to_string(),
        username: "ann".to_string(),
        password: "h".to_string(),
        quiz: Vec::new(),
        flashes: Vec::new(),
    };
    let owner = student.into_owner();
    assert_eq!(owner._id, "s1");
    assert_eq!(owner.username, "ann");
    assert_eq!(owner.password, "h");
    assert!(owner.quiz.is_empty() && owner.flashes.is_empty());
    let faculty = Faculty {
        _id: "f1".to_string(),
        username: "bob".to_string(),
        password: "k".to_string(),
        quiz: vec![Quiz { _id: "q".to_string(), quizzes: "t".to_string() }],
        flashes: Vec::new(),
    };
    let owner = faculty.into_owner();
    assert_eq!(owner._id, "f1");
    assert_eq!(owner.username, "bob");
    assert_eq!(owner.password, "k");
    assert_eq!(owner.quiz.len(), 1);
}
