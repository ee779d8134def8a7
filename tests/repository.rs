use dog_catalog::entities::{
    BreedCreate, BreedQuery, BreedView, Category, DogCreate, DogQuery, DogUpdate, Gender,
    Pagination,
};
use dog_catalog::error::ErrorKind;
use dog_catalog::query::{breed_predicate, dog_predicate};
use dog_catalog::repository::{MongoDB, Repository};
use dog_catalog::service::Service;
use dog_catalog::store::Database;
use dog_catalog::update::DogPatch;

const MISSING_ID: &str = "00000000000000000000ffff";

fn repo() -> MongoDB {
    MongoDB::new(Database::new())
}

fn add_breed(r: &mut MongoDB, category: Category, name: &str) -> String {
    r.create_breed(&BreedCreate { category, name: name.to_owned() }).unwrap()
}

fn dog_create(name: &str, breed: &str) -> DogCreate {
    DogCreate {
        name: name.to_owned(),
        gender: "Female".to_owned(),
        breed: breed.to_owned(),
        birthday: 1_600_000_000_000,
        is_sterilized: true,
        introduction: "likes walks".to_owned(),
        tags: vec!["calm".to_owned(), "small".to_owned()],
        portrait_id: Some("portrait-1".to_owned()),
    }
}

fn by_id(id: &str) -> DogQuery {
    DogQuery { id: Some(id.to_owned()), ..Default::default() }
}

#[test]
fn unfiltered_breed_query_returns_everything() {
    let mut r = repo();
    add_breed(&mut r, Category::Small, "Corgi");
    add_breed(&mut r, Category::Large, "Labrador");
    add_breed(&mut r, Category::Giant, "Mastiff");
    let (breeds, total) = r.query_breeds(&BreedQuery::default()).unwrap();
    assert_eq!(breeds.len(), 3);
    assert_eq!(total, 3);
    let names: Vec<&str> = breeds.iter().map(|b| b.name.as_str()).collect();
    assert_eq!(names, vec!["Corgi", "Labrador", "Mastiff"]);
}

#[test]
fn breed_query_total_ignores_the_page() {
    let mut r = repo();
    for name in ["a", "b", "c", "d", "e"] {
        add_breed(&mut r, Category::Medium, name);
    }
    add_breed(&mut r, Category::Small, "f");
    let q = BreedQuery {
        category: Some(Category::Medium),
        pagination: Some(Pagination { limit: 2, skip: 1 }),
        ..Default::default()
    };
    let (breeds, total) = r.query_breeds(&q).unwrap();
    assert_eq!(total, 5);
    let names: Vec<&str> = breeds.iter().map(|b| b.name.as_str()).collect();
    assert_eq!(names, vec!["b", "c"]);
}

#[test]
fn created_breed_is_listed_under_its_category() {
    let mut r = repo();
    add_breed(&mut r, Category::Large, "Labrador");
    let id = add_breed(&mut r, Category::Small, "Corgi");
    let q = BreedQuery { category: Some(Category::Small), ..Default::default() };
    let (breeds, total) = r.query_breeds(&q).unwrap();
    assert_eq!(total, 1);
    assert_eq!(breeds[0].name, "Corgi");
    assert_eq!(breeds[0].category, Category::Small);
    assert_eq!(breeds[0].id, id);
    assert_eq!(breeds[0].created_at, breeds[0].updated_at);
}

#[test]
fn breed_query_by_id() {
    let mut r = repo();
    add_breed(&mut r, Category::Large, "Labrador");
    let id = add_breed(&mut r, Category::Small, "Corgi");
    let q = BreedQuery { id: Some(id.to_uppercase()), ..Default::default() };
    let (breeds, total) = r.query_breeds(&q).unwrap();
    assert_eq!(total, 1);
    assert_eq!(breeds[0].name, "Corgi");
    let q = BreedQuery { id: Some("xyz".to_owned()), ..Default::default() };
    assert_eq!(r.query_breeds(&q).unwrap_err().kind, ErrorKind::InvalidIdentifier);
}

#[test]
fn create_breed_returns_canonical_id_and_stamps() {
    let mut r = repo();
    let a = add_breed(&mut r, Category::Small, "Corgi");
    let b = add_breed(&mut r, Category::Small, "Pug");
    assert_eq!(a.len(), 24);
    assert_ne!(a, b);
    let (breeds, _) = r.query_breeds(&BreedQuery::default()).unwrap();
    // stamped with the wall clock, in milliseconds after 2020
    assert!(breeds[0].created_at > 1_577_836_800_000);
    assert!(breeds[1].created_at > breeds[0].created_at);
}

#[test]
fn delete_breed_reports_whether_it_existed() {
    let mut r = repo();
    let id = add_breed(&mut r, Category::Small, "Corgi");
    assert_eq!(r.delete_breed(&id).unwrap(), true);
    assert_eq!(r.delete_breed(&id).unwrap(), false);
    assert_eq!(r.query_breeds(&BreedQuery::default()).unwrap().1, 0);
}

#[test]
fn create_dog_with_missing_breed_fails_with_invalid_reference() {
    let mut r = repo();
    let e = r.create_dog("owner-1", &dog_create("Rex", MISSING_ID)).unwrap_err();
    assert_eq!(e.kind, ErrorKind::InvalidReference);
    assert!(r.query_dogs(&DogQuery::default()).unwrap().is_empty());
}

#[test]
fn create_dog_embeds_breed_snapshot() {
    let mut r = repo();
    let breed_id = add_breed(&mut r, Category::Medium, "Beagle");
    let dog = r.create_dog("owner-1", &dog_create("Rex", &breed_id)).unwrap();
    assert_eq!(dog.name, "Rex");
    assert_eq!(dog.gender, Gender::Female);
    assert_eq!(dog.owner_id, "owner-1");
    assert_eq!(dog.tags, vec!["calm".to_owned(), "small".to_owned()]);
    assert_eq!(dog.portrait_id, Some("portrait-1".to_owned()));
    assert_eq!(dog.birthday, 1_600_000_000_000);
    assert!(dog.is_sterilized);
    assert_eq!(dog.introduction, "likes walks");
    assert_eq!(dog.id.len(), 24);
    match dog.breed {
        BreedView::Resolved(b) => {
            assert_eq!(b.id, breed_id);
            assert_eq!(b.name, "Beagle");
            assert_eq!(b.category, Category::Medium);
        }
        BreedView::Unresolved => panic!("breed not resolved"),
    }
}

#[test]
fn create_dog_with_malformed_breed_fails_with_invalid_identifier() {
    let mut r = repo();
    add_breed(&mut r, Category::Medium, "Beagle");
    let e = r.create_dog("owner-1", &dog_create("Rex", "beagle")).unwrap_err();
    assert_eq!(e.kind, ErrorKind::InvalidIdentifier);
}

#[test]
fn dog_with_deleted_breed_reads_unresolved() {
    let mut r = repo();
    let breed_id = add_breed(&mut r, Category::Medium, "Beagle");
    let dog = r.create_dog("owner-1", &dog_create("Rex", &breed_id)).unwrap();
    assert!(r.delete_breed(&breed_id).unwrap());
    let dogs = r.query_dogs(&by_id(&dog.id)).unwrap();
    assert_eq!(dogs.len(), 1);
    assert!(matches!(dogs[0].breed, BreedView::Unresolved));
}

#[test]
fn empty_update_modifies_nothing() {
    let mut r = repo();
    let breed_id = add_breed(&mut r, Category::Medium, "Beagle");
    let dog = r.create_dog("owner-1", &dog_create("Rex", &breed_id)).unwrap();
    assert_eq!(r.update_dog(&dog.id, &DogUpdate::default()).unwrap(), false);
    let after = r.query_dogs(&by_id(&dog.id)).unwrap();
    assert_eq!(after[0].updated_at, dog.updated_at);
    assert_eq!(after[0].name, "Rex");
}

#[test]
fn update_with_fields_advances_updated_at() {
    let mut r = repo();
    let breed_id = add_breed(&mut r, Category::Medium, "Beagle");
    let other_breed = add_breed(&mut r, Category::Giant, "Mastiff");
    let dog = r.create_dog("owner-1", &dog_create("Rex", &breed_id)).unwrap();
    let u = DogUpdate {
        name: Some("Max".to_owned()),
        gender: Some("Male".to_owned()),
        breed: Some(other_breed.clone()),
        tags: Some(vec![]),
        ..Default::default()
    };
    assert_eq!(r.update_dog(&dog.id, &u).unwrap(), true);
    let after = r.query_dogs(&by_id(&dog.id)).unwrap();
    assert!(after[0].updated_at > dog.updated_at);
    assert_eq!(after[0].created_at, dog.created_at);
    assert_eq!(after[0].name, "Max");
    assert_eq!(after[0].gender, Gender::Male);
    assert!(after[0].tags.is_empty());
    assert_eq!(after[0].introduction, "likes walks");
    match &after[0].breed {
        BreedView::Resolved(b) => assert_eq!(b.name, "Mastiff"),
        BreedView::Unresolved => panic!("breed not resolved"),
    }
}

#[test]
fn update_of_missing_dog_reports_false() {
    let mut r = repo();
    let u = DogUpdate { name: Some("Max".to_owned()), ..Default::default() };
    assert_eq!(r.update_dog(MISSING_ID, &u).unwrap(), false);
}

#[test]
fn pages_of_three_over_ten_dogs_cover_each_once() {
    let mut r = repo();
    let breed_id = add_breed(&mut r, Category::Medium, "Beagle");
    let mut ids = Vec::new();
    for i in 0..10 {
        let d = r.create_dog("owner-1", &dog_create(&format!("dog{}", i), &breed_id)).unwrap();
        ids.push(d.id);
    }
    let page = |skip: i64| {
        let q = DogQuery { pagination: Some(Pagination { limit: 3, skip }), ..Default::default() };
        r.query_dogs(&q).unwrap().into_iter().map(|d| d.id).collect::<Vec<String>>()
    };
    let (first, second, third, fourth) = (page(0), page(3), page(6), page(9));
    assert_eq!(second.len(), 3);
    assert!(second.iter().all(|id| !first.contains(id) && !third.contains(id)));
    assert_eq!(fourth.len(), 1);
    let mut all = Vec::new();
    all.extend(first);
    all.extend(second);
    all.extend(third);
    all.extend(fourth);
    assert_eq!(all, ids);
    assert_eq!(r.query_dogs(&DogQuery::default()).unwrap().len(), 10);
}

#[test]
fn query_dogs_by_owner_and_id_set() {
    let mut r = repo();
    let breed_id = add_breed(&mut r, Category::Medium, "Beagle");
    let a = r.create_dog("alice", &dog_create("A", &breed_id)).unwrap();
    let b = r.create_dog("bob", &dog_create("B", &breed_id)).unwrap();
    let c = r.create_dog("alice", &dog_create("C", &breed_id)).unwrap();
    let q = DogQuery { owner_id: Some("alice".to_owned()), ..Default::default() };
    let names: Vec<String> = r.query_dogs(&q).unwrap().into_iter().map(|d| d.name).collect();
    assert_eq!(names, vec!["A".to_owned(), "C".to_owned()]);
    let q = DogQuery { id_in: Some(vec![b.id.clone(), c.id.clone()]), ..Default::default() };
    let names: Vec<String> = r.query_dogs(&q).unwrap().into_iter().map(|d| d.name).collect();
    assert_eq!(names, vec!["B".to_owned(), "C".to_owned()]);
    // an empty id set sets no constraint
    let q = DogQuery { id_in: Some(vec![]), ..Default::default() };
    assert_eq!(r.query_dogs(&q).unwrap().len(), 3);
    let q = DogQuery {
        id_in: Some(vec![a.id.clone(), b.id.clone()]),
        owner_id: Some("bob".to_owned()),
        ..Default::default()
    };
    let names: Vec<String> = r.query_dogs(&q).unwrap().into_iter().map(|d| d.name).collect();
    assert_eq!(names, vec!["B".to_owned()]);
}

#[test]
fn exists_dog_needs_id_and_owner_to_match() {
    let mut r = repo();
    let breed_id = add_breed(&mut r, Category::Medium, "Beagle");
    let a = r.create_dog("alice", &dog_create("A", &breed_id)).unwrap();
    let ask = |id: &str, owner: &str| DogQuery {
        id: Some(id.to_owned()),
        owner_id: Some(owner.to_owned()),
        ..Default::default()
    };
    assert!(r.exists_dog(&ask(&a.id, "alice")).unwrap());
    assert!(!r.exists_dog(&ask(&a.id, "bob")).unwrap());
    assert!(!r.exists_dog(&ask(MISSING_ID, "alice")).unwrap());
}

#[test]
fn malformed_ids_fail_before_the_store_changes() {
    let mut r = repo();
    let breed_id = add_breed(&mut r, Category::Medium, "Beagle");
    let dog = r.create_dog("alice", &dog_create("A", &breed_id)).unwrap();
    let bad = "not-an-id";
    assert_eq!(r.delete_breed(bad).unwrap_err().kind, ErrorKind::InvalidIdentifier);
    assert_eq!(r.delete_dog(bad).unwrap_err().kind, ErrorKind::InvalidIdentifier);
    let u = DogUpdate { name: Some("B".to_owned()), ..Default::default() };
    assert_eq!(r.update_dog(bad, &u).unwrap_err().kind, ErrorKind::InvalidIdentifier);
    let u = DogUpdate { breed: Some(bad.to_owned()), ..Default::default() };
    assert_eq!(r.update_dog(&dog.id, &u).unwrap_err().kind, ErrorKind::InvalidIdentifier);
    assert_eq!(r.query_dogs(&by_id(bad)).unwrap_err().kind, ErrorKind::InvalidIdentifier);
    let q = DogQuery { id_in: Some(vec![dog.id.clone(), bad.to_owned()]), ..Default::default() };
    assert_eq!(r.query_dogs(&q).unwrap_err().kind, ErrorKind::InvalidIdentifier);
    assert_eq!(r.exists_dog(&by_id(bad)).unwrap_err().kind, ErrorKind::InvalidIdentifier);
    // nothing changed
    let after = r.query_dogs(&DogQuery::default()).unwrap();
    assert_eq!(after.len(), 1);
    assert_eq!(after[0].name, "A");
    assert_eq!(after[0].updated_at, dog.updated_at);
    assert_eq!(r.query_breeds(&BreedQuery::default()).unwrap().1, 1);
}

#[test]
fn delete_dog_reports_whether_it_existed() {
    let mut r = repo();
    let breed_id = add_breed(&mut r, Category::Medium, "Beagle");
    let dog = r.create_dog("alice", &dog_create("A", &breed_id)).unwrap();
    assert!(r.delete_dog(&dog.id).unwrap());
    assert!(!r.delete_dog(&dog.id).unwrap());
    assert!(r.query_dogs(&DogQuery::default()).unwrap().is_empty());
}

#[test]
fn predicates_have_one_clause_per_set_field() {
    assert_eq!(breed_predicate(&BreedQuery::default()).unwrap().len(), 0);
    let q = BreedQuery {
        id: Some(MISSING_ID.to_owned()),
        category: Some(Category::Giant),
        ..Default::default()
    };
    assert_eq!(breed_predicate(&q).unwrap().len(), 2);
    assert_eq!(dog_predicate(&DogQuery::default()).unwrap().len(), 0);
    let q = DogQuery { id_in: Some(vec![]), owner_id: Some("x".to_owned()), ..Default::default() };
    assert_eq!(dog_predicate(&q).unwrap().len(), 1);
    let q = DogQuery { id: Some("bad".to_owned()), ..Default::default() };
    assert_eq!(dog_predicate(&q).unwrap_err().kind, ErrorKind::InvalidIdentifier);
}

#[test]
fn patch_from_update() {
    let empty = DogPatch::from_update(&DogUpdate::default()).unwrap();
    assert!(empty.is_empty());
    let u = DogUpdate { gender: Some("Male".to_owned()), breed: Some(MISSING_ID.to_owned()), ..Default::default() };
    let p = DogPatch::from_update(&u).unwrap();
    assert!(!p.is_empty());
    assert_eq!(p.gender, Some(Gender::Male));
    assert_eq!(p.breed.unwrap().value, 0xffff);
    let u = DogUpdate { breed: Some("zz".to_owned()), ..Default::default() };
    assert_eq!(DogPatch::from_update(&u).unwrap_err().kind, ErrorKind::InvalidIdentifier);
}

#[test]
fn service_owner_views_and_portrait() {
    let mut s = Service::new(repo());
    let breed_id = s.create_breed(BreedCreate { category: Category::Small, name: "Pug".to_owned() }).unwrap();
    let a = s.create_dog("alice", &dog_create("A", &breed_id)).unwrap();
    s.create_dog("bob", &dog_create("B", &breed_id)).unwrap();
    s.create_dog("alice", &dog_create("C", &breed_id)).unwrap();
    let mine = s.my_dogs("alice", Some(Pagination { limit: 1, skip: 1 })).unwrap();
    assert_eq!(mine.len(), 1);
    assert_eq!(mine[0].name, "C");
    assert_eq!(s.my_dogs("alice", None).unwrap().len(), 2);
    assert!(s.is_owner_of_the_dog("alice", &a.id).unwrap());
    assert!(!s.is_owner_of_the_dog("bob", &a.id).unwrap());
    assert_eq!(s.is_owner_of_the_dog("alice", "nope").unwrap_err().kind, ErrorKind::InvalidIdentifier);
    assert!(s.update_dog_portrait(&a.id, "portrait-2").unwrap());
    let after = s.query_dogs(&by_id(&a.id)).unwrap();
    assert_eq!(after[0].portrait_id, Some("portrait-2".to_owned()));
    assert!(after[0].updated_at > a.updated_at);
    assert!(!s.update_dog_portrait(MISSING_ID, "portrait-3").unwrap());
    let u = DogUpdate { introduction: Some("new".to_owned()), ..Default::default() };
    assert!(s.update_dog(&a.id, &u).unwrap());
    assert!(s.delete_breed(&breed_id).unwrap());
    let (_, total) = s.query_breeds(&BreedQuery::default()).unwrap();
    assert_eq!(total, 0);
}

#[test]
fn failures_name_the_operation_and_keep_the_cause() {
    let mut r = repo();
    let e = r.delete_breed("bad").unwrap_err();
    assert_eq!(e.to_string(), "failed to delete breed: invalid identifier");
    let e = r.delete_dog("bad").unwrap_err();
    assert_eq!(e.to_string(), "failed to delete dog: invalid identifier");
    let e = r.create_dog("o", &dog_create("Rex", MISSING_ID)).unwrap_err();
    assert_eq!(e.kind, ErrorKind::InvalidReference);
    assert_eq!(e.message, "failed to create dog");
    assert_eq!(e.cause, Some("breed not exists".to_owned()));
    let e = r.create_dog("o", &dog_create("Rex", "bad")).unwrap_err();
    assert_eq!(e.to_string(), "failed to create dog: invalid identifier");
    let u = DogUpdate { name: Some("x".to_owned()), ..Default::default() };
    let e = r.update_dog("bad", &u).unwrap_err();
    assert_eq!(e.to_string(), "failed to update dog: invalid identifier");
    let e = r.query_dogs(&by_id("bad")).unwrap_err();
    assert_eq!(e.to_string(), "failed to query dogs: invalid identifier");
    let e = r.exists_dog(&by_id("bad")).unwrap_err();
    assert_eq!(e.to_string(), "failed to query dogs: invalid identifier");
    let q = BreedQuery { id: Some("bad".to_owned()), ..Default::default() };
    let e = r.query_breeds(&q).unwrap_err();
    assert_eq!(e.to_string(), "failed to query breeds: invalid identifier");
}
