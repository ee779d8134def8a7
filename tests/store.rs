use dog_catalog::entities::{Category, Gender, Pagination};
use dog_catalog::error::ErrorKind;
use dog_catalog::ids::ObjectId;
use dog_catalog::query::{BreedClause, DogClause};
use dog_catalog::store::{Database, DogDraft};
use dog_catalog::update::DogPatch;

fn draft(name: &str, breed: ObjectId, owner: &str) -> DogDraft {
    DogDraft {
        name: name.to_owned(),
        gender: Gender::Other,
        breed,
        birthday: 0,
        is_sterilized: false,
        introduction: String::new(),
        owner_id: owner.to_owned(),
        tags: vec![],
        portrait_id: None,
    }
}

fn no_change() -> DogPatch {
    DogPatch {
        name: None,
        gender: None,
        breed: None,
        birthday: None,
        is_sterilized: None,
        introduction: None,
        owner_id: None,
        tags: None,
        portrait_id: None,
    }
}

#[test]
fn timestamps_follow_the_clock_and_strictly_increase() {
    let mut db = Database::new();
    let a = db.insert_breed(Category::Small, "a".to_owned(), 100).unwrap();
    let b = db.insert_breed(Category::Small, "b".to_owned(), 50).unwrap();
    let c = db.insert_breed(Category::Small, "c".to_owned(), 500).unwrap();
    assert_eq!((a.value, b.value, c.value), (1, 2, 3));
    let all = db.find_breeds(&vec![], None);
    let stamps: Vec<i64> = all.iter().map(|r| r.created_at).collect();
    assert_eq!(stamps, vec![100, 101, 500]);
    assert!(all.iter().all(|r| r.created_at == r.updated_at));
}

#[test]
fn exhausted_clock_fails_with_store_error() {
    let mut db = Database::new();
    db.insert_breed(Category::Small, "a".to_owned(), i64::MAX).unwrap();
    let e = db.insert_breed(Category::Small, "b".to_owned(), 0).unwrap_err();
    assert_eq!(e.kind, ErrorKind::Store);
    assert_eq!(db.count_breeds(&vec![]), 1);
}

#[test]
fn update_stamps_and_patches_one_dog() {
    let mut db = Database::new();
    let breed = db.insert_breed(Category::Small, "a".to_owned(), 10).unwrap();
    let d1 = db.insert_dog(draft("one", breed, "o"), 20).unwrap();
    let d2 = db.insert_dog(draft("two", breed, "o"), 30).unwrap();
    let patch = DogPatch { name: Some("uno".to_owned()), ..no_change() };
    assert_eq!(db.update_dog(d1, &patch, 25).unwrap(), true);
    let dogs = db.find_dogs(&vec![], None);
    assert_eq!(dogs[0].name, "uno");
    assert_eq!(dogs[0].created_at, 20);
    assert_eq!(dogs[0].updated_at, 31);
    assert_eq!(dogs[1].name, "two");
    assert_eq!(dogs[1].updated_at, 30);
    assert_eq!(db.update_dog(ObjectId { value: 99 }, &patch, 40).unwrap(), false);
    assert!(db.delete_dog(d2));
    assert_eq!(db.count_dogs(&vec![]), 1);
}

#[test]
fn find_applies_predicate_then_window() {
    let mut db = Database::new();
    let breed = db.insert_breed(Category::Giant, "g".to_owned(), 1).unwrap();
    for (i, owner) in ["x", "y", "x", "x", "y", "x"].iter().enumerate() {
        db.insert_dog(draft(&format!("d{}", i), breed, owner), 2).unwrap();
    }
    let pred = vec![DogClause::OwnerEq("x".to_owned())];
    assert_eq!(db.count_dogs(&pred), 4);
    let page = db.find_dogs(&pred, Some(Pagination { limit: 2, skip: 1 }));
    let names: Vec<&str> = page.iter().map(|d| d.name.as_str()).collect();
    assert_eq!(names, vec!["d2", "d3"]);
    let by_ids = vec![DogClause::IdIn(vec![ObjectId { value: 3 }, ObjectId { value: 7 }])];
    let names: Vec<String> = db.find_dogs(&by_ids, None).into_iter().map(|d| d.name).collect();
    assert_eq!(names, vec!["d1".to_owned(), "d5".to_owned()]);
    let giant = vec![BreedClause::CategoryEq(Category::Giant)];
    assert_eq!(db.count_breeds(&giant), 1);
    assert_eq!(db.count_breeds(&vec![BreedClause::CategoryEq(Category::Small)]), 0);
    assert!(db.find_breed(breed).is_some());
    assert!(db.delete_breed(breed));
    assert!(db.find_breed(breed).is_none());
}

#[test]
fn exhausted_clock_reports_why() {
    let mut db = Database::new();
    db.insert_breed(Category::Small, "a".to_owned(), i64::MAX).unwrap();
    let e = db.insert_breed(Category::Small, "b".to_owned(), 0).unwrap_err();
    assert_eq!(e.to_string(), "timestamps exhausted");
    assert_eq!(e.cause, None);
}
