use vstd::prelude::*;

use crate::entities::{
    Breed, BreedCreate, BreedQuery, Dog, DogCreate, DogInfo, DogQuery, DogUpdate, Pagination,
};
use crate::error::{failed_with, Error, ErrorKind};
use crate::ids::{id_of_text, is_id_text};
use crate::join::dog_read;
use crate::page::window;
use crate::query::dog_query_admits;
use crate::repository::{
    create_breed_post, create_dog_post, delete_breed_post, dog_infos, dogs_selected,
    query_breeds_post, query_dogs_post, update_dog_post, Repository,
};
use crate::store::{dog_index, has_dog, CatalogState, DogState};

verus! {

/// Proof that a sequence has an element meeting `f` exactly when its
/// filter by `f` is non-empty.
pub proof fn lemma_filter_nonempty<A>(s: Seq<A>, f: spec_fn(A) -> bool)
    ensures
        (s.filter(f).len() > 0) == (exists|i: int| 0 <= i < s.len() && f(s[i])),
{
    if s.filter(f).len() > 0 {
        s.lemma_filter_pred(f, 0);
        assert(s.filter(f).contains(s.filter(f)[0]));
        s.lemma_filter_contains_rev(f, s.filter(f)[0]);
        let i = choose|i: int| 0 <= i < s.len() && s[i] == s.filter(f)[0];
        assert(f(s[i]));
    }
    if exists|i: int| 0 <= i < s.len() && f(s[i]) {
        let i = choose|i: int| 0 <= i < s.len() && f(s[i]);
        s.lemma_filter_contains(f, i);
    }
}

/// The dogs of one owner, within the page, each with its breed resolved.
pub open spec fn owner_dogs_page(
    c: CatalogState,
    owner_id: Seq<char>,
    pagination: Option<Pagination>,
) -> Seq<DogInfo> {
    window(c.dogs.filter(|d: DogState| d.owner_id == owner_id), pagination).map_values(
        |d: DogState| dog_read(d, c.breeds),
    )
}

/// Whether a dog with that id is stored and belongs to that owner.
pub open spec fn owns_dog(c: CatalogState, owner_id: Seq<char>, dog_id: Seq<char>) -> bool {
    exists|i: int|
        0 <= i < c.dogs.len() && c.dogs[i].id == id_of_text(dog_id) && c.dogs[i].owner_id
            == owner_id
}

/// What setting a dog's portrait does: like `update_dog_post` for an update
/// that sets the portrait alone.
pub open spec fn set_portrait_post(
    old: CatalogState,
    new: CatalogState,
    id: Seq<char>,
    portrait_id: Seq<char>,
    r: Result<bool, Error>,
) -> bool {
    let dog_id = id_of_text(id);
    &&& !is_id_text(id) ==> (r matches Err(e) && failed_with(
        e,
        ErrorKind::InvalidIdentifier,
        "failed to update dog"@,
        "invalid identifier"@,
    ))
    &&& r is Err ==> new == old
    &&& is_id_text(id) && !has_dog(old.dogs, dog_id) ==> r == Ok::<bool, Error>(false) && new
        == old
    &&& is_id_text(id) && has_dog(old.dogs, dog_id) ==> {
        &&& r is Ok <==> old.clock < i64::MAX
        &&& r matches Err(e) ==> failed_with(
            e,
            ErrorKind::Store,
            "failed to update dog"@,
            "timestamps exhausted"@,
        )
        &&& r matches Ok(modified) ==> {
            let k = dog_index(old.dogs, dog_id);
            &&& modified
            &&& old.clock < new.clock
            &&& new == CatalogState {
                dogs: old.dogs.update(
                    k,
                    DogState {
                        portrait_id: Some(portrait_id),
                        updated_at: new.clock as i64,
                        ..old.dogs[k]
                    },
                ),
                clock: new.clock,
                ..old
            }
        }
    }
}

/// The operations offered to callers, over a repository.
pub struct Service<R: Repository> {
    repository: R,
}

impl<R: Repository> Service<R> {
    /// The contents of the repository's store.
    pub closed spec fn catalog(&self) -> CatalogState {
        self.repository.catalog()
    }

    pub fn new(repository: R) -> (r: Self)
        ensures
            r.catalog() == repository.catalog(),
    {
        Service { repository }
    }

    pub fn create_breed(&mut self, breed: BreedCreate) -> (r: Result<String, Error>)
        requires
            old(self).catalog().wf(),
        ensures
            final(self).catalog().wf(),
            create_breed_post(old(self).catalog(), final(self).catalog(), breed, r),
    {
        self.repository.create_breed(&breed)
    }

    pub fn delete_breed(&mut self, id: &str) -> (r: Result<bool, Error>)
        requires
            old(self).catalog().wf(),
        ensures
            final(self).catalog().wf(),
            delete_breed_post(old(self).catalog(), final(self).catalog(), id@, r),
    {
        self.repository.delete_breed(id)
    }

    pub fn query_breeds(&self, query: &BreedQuery) -> (r: Result<(Vec<Breed>, i64), Error>)
        requires
            self.catalog().wf(),
        ensures
            query_breeds_post(self.catalog(), *query, r),
    {
        self.repository.query_breeds(query)
    }

    pub fn create_dog(&mut self, owner_id: &str, dog: &DogCreate) -> (r: Result<Dog, Error>)
        requires
            old(self).catalog().wf(),
        ensures
            final(self).catalog().wf(),
            create_dog_post(old(self).catalog(), final(self).catalog(), owner_id@, *dog, r),
    {
        self.repository.create_dog(owner_id, dog)
    }

    /// Sets the portrait of the dog with the given id.
    pub fn update_dog_portrait(&mut self, id: &str, portrait_id: &str) -> (r: Result<bool, Error>)
        requires
            old(self).catalog().wf(),
        ensures
            final(self).catalog().wf(),
            set_portrait_post(old(self).catalog(), final(self).catalog(), id@, portrait_id@, r),
    {
        let update = DogUpdate { portrait_id: Some(portrait_id.to_owned()), ..Default::default() };
        self.repository.update_dog(id, &update)
    }

    pub fn update_dog(&mut self, id: &str, dog: &DogUpdate) -> (r: Result<bool, Error>)
        requires
            old(self).catalog().wf(),
        ensures
            final(self).catalog().wf(),
            update_dog_post(old(self).catalog(), final(self).catalog(), id@, *dog, r),
    {
        self.repository.update_dog(id, dog)
    }

    /// The dogs of one owner, within the page.
    pub fn my_dogs(&self, owner_id: &str, pagination: Option<Pagination>) -> (r: Result<
        Vec<Dog>,
        Error,
    >)
        requires
            self.catalog().wf(),
        ensures
            r matches Ok(v) && dog_infos(v@) == owner_dogs_page(self.catalog(), owner_id@, pagination),
    {
        let query = DogQuery { owner_id: Some(owner_id.to_owned()), pagination, ..Default::default() };
        proof {
            assert((|d: DogState| dog_query_admits(query, d)) =~= (|d: DogState| d.owner_id
                == owner_id@));
        }
        self.repository.query_dogs(&query)
    }

    pub fn query_dogs(&self, query: &DogQuery) -> (r: Result<Vec<Dog>, Error>)
        requires
            self.catalog().wf(),
        ensures
            query_dogs_post(self.catalog(), *query, r),
    {
        self.repository.query_dogs(query)
    }

    /// Whether the dog with that id is stored and belongs to that owner.
    pub fn is_owner_of_the_dog(&self, owner_id: &str, dog_id: &str) -> (r: Result<bool, Error>)
        requires
            self.catalog().wf(),
        ensures
            r is Err <==> !is_id_text(dog_id@),
            r matches Err(e) ==> failed_with(
                e,
                ErrorKind::InvalidIdentifier,
                "failed to query dogs"@,
                "invalid identifier"@,
            ),
            r matches Ok(found) ==> found == owns_dog(self.catalog(), owner_id@, dog_id@),
    {
        let query = DogQuery {
            id: Some(dog_id.to_owned()),
            owner_id: Some(owner_id.to_owned()),
            ..Default::default()
        };
        let r = self.repository.exists_dog(&query);
        proof {
            let c = self.catalog();
            let f = |d: DogState| dog_query_admits(query, d);
            lemma_filter_nonempty(c.dogs, f);
            assert(dogs_selected(c, query) == c.dogs.filter(f));
        }
        r
    }
}

} // verus!
