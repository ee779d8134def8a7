use vstd::prelude::*;

use crate::clock::now_millis;
use crate::entities::{
    copy_opt_text, gender_of_name, opt_text, Breed, BreedCreate, BreedInfo, BreedQuery, Dog,
    DogCreate, DogInfo, DogQuery, DogUpdate, Gender,
};
use crate::error::{error_text, failed_with, Error, ErrorKind};
use crate::ids::{id_of_text, id_text, is_id_text, ObjectId};
use crate::join::{breed_info, breed_of_record, dog_read, opt_breed_state, resolve_dog};
use crate::page::window;
use crate::query::{
    breed_pred_holds, breed_predicate, breed_query_admits, breed_query_ids_ok, dog_pred_holds,
    dog_predicate, dog_query_admits, dog_query_ids_ok,
};
use crate::store::{
    breed_index, breed_states, breed_with_id, dog_index, dog_states, exhaustion, has_breed, has_dog,
    lemma_unique_dog,
    BreedState, CatalogState, Database, DogDraft, DogState,
};
use crate::update::{dog_updated, update_ids_ok, update_is_empty, DogPatch};

verus! {

/// The stored breeds that meet the query, in stored order.
pub open spec fn breeds_selected(c: CatalogState, q: BreedQuery) -> Seq<BreedState> {
    c.breeds.filter(|b: BreedState| breed_query_admits(q, b))
}

/// The page of breeds that a query reads.
pub open spec fn breeds_page(c: CatalogState, q: BreedQuery) -> Seq<BreedInfo> {
    window(breeds_selected(c, q), q.pagination).map_values(|b: BreedState| breed_info(b))
}

/// The stored dogs that meet the query, in stored order.
pub open spec fn dogs_selected(c: CatalogState, q: DogQuery) -> Seq<DogState> {
    c.dogs.filter(|d: DogState| dog_query_admits(q, d))
}

/// The page of dogs that a query reads, each with its breed resolved.
pub open spec fn dogs_page(c: CatalogState, q: DogQuery) -> Seq<DogInfo> {
    window(dogs_selected(c, q), q.pagination).map_values(|d: DogState| dog_read(d, c.breeds))
}

pub open spec fn breed_infos(v: Seq<Breed>) -> Seq<BreedInfo> {
    v.map_values(|b: Breed| b@)
}

pub open spec fn dog_infos(v: Seq<Dog>) -> Seq<DogInfo> {
    v.map_values(|d: Dog| d@)
}

/// What `create_breed` does: on success the breed is appended under the next
/// identifier, stamped with the new clock, and its id text returned.
pub open spec fn create_breed_post(
    old: CatalogState,
    new: CatalogState,
    b: BreedCreate,
    r: Result<String, Error>,
) -> bool {
    &&& r is Ok <==> old.next_id < u64::MAX && old.clock < i64::MAX
    &&& r matches Ok(s) ==> {
        let id = ObjectId { value: old.next_id as u128 };
        &&& s@ == id_text(id)
        &&& old.clock < new.clock
        &&& new == CatalogState {
            breeds: old.breeds.push(
                BreedState {
                    id,
                    category: b.category,
                    name: b.name@,
                    created_at: new.clock as i64,
                    updated_at: new.clock as i64,
                },
            ),
            next_id: old.next_id + 1,
            clock: new.clock,
            ..old
        }
    }
    &&& r matches Err(e) ==> new == old && failed_with(
        e,
        ErrorKind::Store,
        "failed to create breed"@,
        exhaustion(old.next_id),
    )
}

/// What `delete_breed` does: a malformed id fails before the store is
/// touched; otherwise the breed with that id, if any, is removed.
pub open spec fn delete_breed_post(
    old: CatalogState,
    new: CatalogState,
    id: Seq<char>,
    r: Result<bool, Error>,
) -> bool {
    &&& r is Err <==> !is_id_text(id)
    &&& r matches Err(e) ==> new == old && failed_with(
        e,
        ErrorKind::InvalidIdentifier,
        "failed to delete breed"@,
        "invalid identifier"@,
    )
    &&& r matches Ok(found) ==> {
        &&& found == has_breed(old.breeds, id_of_text(id))
        &&& new == (if found {
            CatalogState {
                breeds: old.breeds.remove(breed_index(old.breeds, id_of_text(id))),
                ..old
            }
        } else {
            old
        })
    }
}

/// What `query_breeds` returns: the page of matching breeds and the count of
/// all matching breeds, ignoring the page.
pub open spec fn query_breeds_post(
    c: CatalogState,
    q: BreedQuery,
    r: Result<(Vec<Breed>, i64), Error>,
) -> bool {
    &&& r is Err <==> !breed_query_ids_ok(q) || breeds_selected(c, q).len() > i64::MAX
    &&& r matches Err(e) ==> (if breed_query_ids_ok(q) {
        failed_with(e, ErrorKind::Store, "failed to query breeds"@, "too many breeds"@)
    } else {
        failed_with(e, ErrorKind::InvalidIdentifier, "failed to query breeds"@, "invalid identifier"@)
    })
    &&& r matches Ok(res) ==> {
        &&& breed_infos(res.0@) == breeds_page(c, q)
        &&& res.1 == breeds_selected(c, q).len()
    }
}

/// The stored form of a new dog.
pub open spec fn new_dog_state(
    id: ObjectId,
    owner_id: Seq<char>,
    d: DogCreate,
    stamp: i64,
) -> DogState {
    DogState {
        id,
        name: d.name@,
        gender: gender_of_name(d.gender@),
        breed: id_of_text(d.breed@),
        birthday: d.birthday,
        is_sterilized: d.is_sterilized,
        introduction: d.introduction@,
        owner_id,
        tags: d.tags@,
        portrait_id: opt_text(d.portrait_id),
        created_at: stamp,
        updated_at: stamp,
    }
}

/// What `create_dog` does: the breed reference must be well formed and name
/// a stored breed; on success the dog is appended and returned as read, with
/// its breed embedded.
pub open spec fn create_dog_post(
    old: CatalogState,
    new: CatalogState,
    owner_id: Seq<char>,
    d: DogCreate,
    r: Result<Dog, Error>,
) -> bool {
    let breed_ok = is_id_text(d.breed@);
    let breed_id = id_of_text(d.breed@);
    &&& r is Ok <==> breed_ok && has_breed(old.breeds, breed_id) && old.next_id < u64::MAX
        && old.clock < i64::MAX
    &&& r matches Err(e) ==> {
        &&& new == old
        &&& !breed_ok ==> failed_with(
            e,
            ErrorKind::InvalidIdentifier,
            "failed to create dog"@,
            "invalid identifier"@,
        )
        &&& breed_ok && !has_breed(old.breeds, breed_id) ==> failed_with(
            e,
            ErrorKind::InvalidReference,
            "failed to create dog"@,
            "breed not exists"@,
        )
        &&& breed_ok && has_breed(old.breeds, breed_id) ==> failed_with(
            e,
            ErrorKind::Store,
            "failed to create dog"@,
            exhaustion(old.next_id),
        )
    }
    &&& r matches Ok(dog) ==> {
        let id = ObjectId { value: old.next_id as u128 };
        let stored = new_dog_state(id, owner_id, d, new.clock as i64);
        &&& old.clock < new.clock
        &&& new == CatalogState {
            dogs: old.dogs.push(stored),
            next_id: old.next_id + 1,
            clock: new.clock,
            ..old
        }
        &&& dog@ == dog_read(stored, new.breeds)
        &&& dog@.breed == Some(breed_info(old.breeds[breed_index(old.breeds, breed_id)]))
    }
}

/// What `delete_dog` does: a malformed id fails before the store is touched;
/// otherwise the dog with that id, if any, is removed.
pub open spec fn delete_dog_post(
    old: CatalogState,
    new: CatalogState,
    id: Seq<char>,
    r: Result<bool, Error>,
) -> bool {
    &&& r is Err <==> !is_id_text(id)
    &&& r matches Err(e) ==> new == old && failed_with(
        e,
        ErrorKind::InvalidIdentifier,
        "failed to delete dog"@,
        "invalid identifier"@,
    )
    &&& r matches Ok(found) ==> {
        &&& found == has_dog(old.dogs, id_of_text(id))
        &&& new == (if found {
            CatalogState { dogs: old.dogs.remove(dog_index(old.dogs, id_of_text(id))), ..old }
        } else {
            old
        })
    }
}

/// What `update_dog` does. Malformed identifiers fail before the store is
/// touched. An update that sets no field writes nothing and reports `false`.
/// Otherwise the dog with that id, if any, gets the set fields and a new
/// `updated_at`, and the result tells whether there was such a dog.
pub open spec fn update_dog_post(
    old: CatalogState,
    new: CatalogState,
    id: Seq<char>,
    u: DogUpdate,
    r: Result<bool, Error>,
) -> bool {
    let ids_ok = is_id_text(id) && update_ids_ok(u);
    let dog_id = id_of_text(id);
    &&& !ids_ok ==> (r matches Err(e) && failed_with(
        e,
        ErrorKind::InvalidIdentifier,
        "failed to update dog"@,
        "invalid identifier"@,
    ))
    &&& r is Err ==> new == old
    &&& ids_ok && update_is_empty(u) ==> r == Ok::<bool, Error>(false) && new == old
    &&& ids_ok && !update_is_empty(u) && !has_dog(old.dogs, dog_id) ==> r == Ok::<bool, Error>(
        false,
    ) && new == old
    &&& ids_ok && !update_is_empty(u) && has_dog(old.dogs, dog_id) ==> {
        &&& r is Ok <==> old.clock < i64::MAX
        &&& r matches Err(e) ==> failed_with(
            e,
            ErrorKind::Store,
            "failed to update dog"@,
            "timestamps exhausted"@,
        )
        &&& r matches Ok(modified) ==> {
            let k = dog_index(old.dogs, dog_id);
            &&& modified
            &&& old.clock < new.clock
            &&& new == CatalogState {
                dogs: old.dogs.update(k, dog_updated(old.dogs[k], u, new.clock as i64)),
                clock: new.clock,
                ..old
            }
        }
    }
}

/// What `query_dogs` returns: the page of matching dogs, each with its breed
/// resolved.
pub open spec fn query_dogs_post(c: CatalogState, q: DogQuery, r: Result<Vec<Dog>, Error>) -> bool {
    &&& r is Err <==> !dog_query_ids_ok(q)
    &&& r matches Err(e) ==> failed_with(
        e,
        ErrorKind::InvalidIdentifier,
        "failed to query dogs"@,
        "invalid identifier"@,
    )
    &&& r matches Ok(v) ==> dog_infos(v@) == dogs_page(c, q)
}

/// What `exists_dog` returns: whether any stored dog meets the query.
pub open spec fn exists_dog_post(c: CatalogState, q: DogQuery, r: Result<bool, Error>) -> bool {
    &&& r is Err <==> !dog_query_ids_ok(q)
    &&& r matches Err(e) ==> failed_with(
        e,
        ErrorKind::InvalidIdentifier,
        "failed to query dogs"@,
        "invalid identifier"@,
    )
    &&& r matches Ok(found) ==> found == (dogs_selected(c, q).len() > 0)
}

/// Describes a failure as part of `operation`; a success passes through.
fn within<T>(r: Result<T, Error>, operation: &str) -> (out: Result<T, Error>)
    ensures
        r matches Ok(v) ==> out matches Ok(w) && w == v,
        r matches Err(e) ==> out matches Err(f) && f.kind == e.kind && f.message@ == operation@
            && (f.cause matches Some(c) && c@ == error_text(e)),
{
    match r {
        Ok(v) => Ok(v),
        Err(e) => Err(e.context(operation)),
    }
}

/// The operations on breeds and dogs, over the contents of a store.
pub trait Repository {
    /// The contents of the store.
    spec fn catalog(&self) -> CatalogState;

    fn create_breed(&mut self, breed: &BreedCreate) -> (r: Result<String, Error>)
        requires
            old(self).catalog().wf(),
        ensures
            final(self).catalog().wf(),
            create_breed_post(old(self).catalog(), final(self).catalog(), *breed, r),
    ;

    fn delete_breed(&mut self, id: &str) -> (r: Result<bool, Error>)
        requires
            old(self).catalog().wf(),
        ensures
            final(self).catalog().wf(),
            delete_breed_post(old(self).catalog(), final(self).catalog(), id@, r),
    ;

    fn query_breeds(&self, query: &BreedQuery) -> (r: Result<(Vec<Breed>, i64), Error>)
        requires
            self.catalog().wf(),
        ensures
            query_breeds_post(self.catalog(), *query, r),
    ;

    fn create_dog(&mut self, owner_id: &str, dog: &DogCreate) -> (r: Result<Dog, Error>)
        requires
            old(self).catalog().wf(),
        ensures
            final(self).catalog().wf(),
            create_dog_post(old(self).catalog(), final(self).catalog(), owner_id@, *dog, r),
    ;

    fn delete_dog(&mut self, id: &str) -> (r: Result<bool, Error>)
        requires
            old(self).catalog().wf(),
        ensures
            final(self).catalog().wf(),
            delete_dog_post(old(self).catalog(), final(self).catalog(), id@, r),
    ;

    fn update_dog(&mut self, id: &str, dog: &DogUpdate) -> (r: Result<bool, Error>)
        requires
            old(self).catalog().wf(),
        ensures
            final(self).catalog().wf(),
            update_dog_post(old(self).catalog(), final(self).catalog(), id@, *dog, r),
    ;

    fn query_dogs(&self, query: &DogQuery) -> (r: Result<Vec<Dog>, Error>)
        requires
            self.catalog().wf(),
        ensures
            query_dogs_post(self.catalog(), *query, r),
    ;

    fn exists_dog(&self, query: &DogQuery) -> (r: Result<bool, Error>)
        requires
            self.catalog().wf(),
        ensures
            exists_dog_post(self.catalog(), *query, r),
    ;
}

/// The repository over an in-memory document database.
pub struct MongoDB {
    db: Database,
}

impl MongoDB {
    pub fn new(db: Database) -> (r: MongoDB)
        ensures
            r.catalog() == db@,
    {
        MongoDB { db }
    }
}

impl Repository for MongoDB {
    closed spec fn catalog(&self) -> CatalogState {
        self.db@
    }

    fn create_breed(&mut self, breed: &BreedCreate) -> (r: Result<String, Error>) {
        let now = now_millis();
        let id = within(
            self.db.insert_breed(breed.category, breed.name.clone(), now),
            "failed to create breed",
        )?;
        Ok(id.to_hex())
    }

    fn delete_breed(&mut self, id: &str) -> (r: Result<bool, Error>) {
        let id = within(ObjectId::parse_str(id), "failed to delete breed")?;
        Ok(self.db.delete_breed(id))
    }

    fn query_breeds(&self, query: &BreedQuery) -> (r: Result<(Vec<Breed>, i64), Error>) {
        let pred = within(breed_predicate(query), "failed to query breeds")?;
        proof {
            assert((|b: BreedState| breed_pred_holds(pred@, b)) =~= (|b: BreedState|
                breed_query_admits(*query, b)));
        }
        let count = self.db.count_breeds(&pred);
        if count as u128 > i64::MAX as u128 {
            return Err(Error::new("failed to query breeds").with_cause("too many breeds"));
        }
        let found = self.db.find_breeds(&pred, query.pagination);
        let mut out: Vec<Breed> = Vec::new();
        let mut i: usize = 0;
        while i < found.len()
            invariant
                i <= found@.len(),
                breed_infos(out@) == breed_states(found@).take(i as int).map_values(
                    |b: BreedState| breed_info(b),
                ),
            decreases found@.len() - i,
        {
            let ghost before = out@;
            out.push(breed_of_record(&found[i]));
            proof {
                assert(breed_infos(out@) =~= breed_infos(before).push(breed_info(found@[i as int]@)));
                assert(breed_states(found@).take(i + 1) =~= breed_states(found@).take(i as int).push(
                    found@[i as int]@,
                ));
            }
            i = i + 1;
        }
        proof {
            assert(breed_states(found@).take(i as int) =~= breed_states(found@));
        }
        Ok((out, count as i64))
    }

    fn create_dog(&mut self, owner_id: &str, dog: &DogCreate) -> (r: Result<Dog, Error>) {
        let breed_id = within(ObjectId::parse_str(dog.breed.as_str()), "failed to create dog")?;
        let breed = self.db.find_breed(breed_id);
        if breed.is_none() {
            return Err(
                Error::of_kind(ErrorKind::InvalidReference, "failed to create dog").with_cause(
                    "breed not exists",
                ),
            );
        }
        let draft = DogDraft {
            name: dog.name.clone(),
            gender: Gender::from_name(dog.gender.as_str()),
            breed: breed_id,
            birthday: dog.birthday,
            is_sterilized: dog.is_sterilized,
            introduction: dog.introduction.clone(),
            owner_id: owner_id.to_owned(),
            tags: dog.tags.clone(),
            portrait_id: copy_opt_text(&dog.portrait_id),
        };
        let now = now_millis();
        let id = within(self.db.insert_dog(draft, now), "failed to create dog")?;
        let ghost stored = new_dog_state(id, owner_id@, *dog, self.db@.clock as i64);
        proof {
            let n = self.db@.dogs.len() - 1;
            assert(self.db@.dogs[n] == stored);
            lemma_unique_dog(self.db@.dogs, n, id);
        }
        match self.db.find_dog(id) {
            Some(rec) => {
                proof {
                    assert(opt_breed_state(breed) == breed_with_id(self.db@.breeds, rec@.breed));
                }
                Ok(resolve_dog(&rec, &breed))
            },
            None => Err(Error::new("failed to create dog").with_cause("created dog not exists")),
        }
    }

    fn delete_dog(&mut self, id: &str) -> (r: Result<bool, Error>) {
        let id = within(ObjectId::parse_str(id), "failed to delete dog")?;
        Ok(self.db.delete_dog(id))
    }

    fn update_dog(&mut self, id: &str, dog: &DogUpdate) -> (r: Result<bool, Error>) {
        let id = within(ObjectId::parse_str(id), "failed to update dog")?;
        let patch = within(DogPatch::from_update(dog), "failed to update dog")?;
        if patch.is_empty() {
            return Ok(false);
        }
        let now = now_millis();
        within(self.db.update_dog(id, &patch, now), "failed to update dog")
    }

    fn query_dogs(&self, query: &DogQuery) -> (r: Result<Vec<Dog>, Error>) {
        let pred = within(dog_predicate(query), "failed to query dogs")?;
        proof {
            assert((|d: DogState| dog_pred_holds(pred@, d)) =~= (|d: DogState|
                dog_query_admits(*query, d)));
        }
        let found = self.db.find_dogs(&pred, query.pagination);
        let mut out: Vec<Dog> = Vec::new();
        let mut i: usize = 0;
        while i < found.len()
            invariant
                self.db@.wf(),
                i <= found@.len(),
                dog_infos(out@) == dog_states(found@).take(i as int).map_values(
                    |d: DogState| dog_read(d, self.db@.breeds),
                ),
            decreases found@.len() - i,
        {
            let ghost before = out@;
            let breed = self.db.find_breed(found[i].breed);
            proof {
                assert(opt_breed_state(breed) == breed_with_id(self.db@.breeds, found@[i as int]@.breed));
            }
            out.push(resolve_dog(&found[i], &breed));
            proof {
                assert(dog_infos(out@) =~= dog_infos(before).push(
                    dog_read(found@[i as int]@, self.db@.breeds),
                ));
                assert(dog_states(found@).take(i + 1) =~= dog_states(found@).take(i as int).push(
                    found@[i as int]@,
                ));
            }
            i = i + 1;
        }
        proof {
            assert(dog_states(found@).take(i as int) =~= dog_states(found@));
        }
        Ok(out)
    }

    fn exists_dog(&self, query: &DogQuery) -> (r: Result<bool, Error>) {
        let pred = within(dog_predicate(query), "failed to query dogs")?;
        proof {
            assert((|d: DogState| dog_pred_holds(pred@, d)) =~= (|d: DogState|
                dog_query_admits(*query, d)));
        }
        Ok(self.db.count_dogs(&pred) > 0)
    }
}

} // verus!
