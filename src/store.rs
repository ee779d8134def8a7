use vstd::prelude::*;

use crate::entities::{copy_opt_text, opt_text, Category, Gender, Pagination};
use crate::error::{Error, ErrorKind};
use crate::ids::ObjectId;
use crate::page::{window, window_bounds};
use crate::query::{
    breed_clause_holds, breed_pred_holds, dog_clause_holds, dog_pred_holds, BreedClause,
    DogClause,
};
use crate::update::{patched, DogPatch};

verus! {

/// A breed as stored.
#[derive(Debug)]
pub struct BreedRecord {
    pub id: ObjectId,
    pub category: Category,
    pub name: String,
    pub created_at: i64,
    pub updated_at: i64,
}

pub struct BreedState {
    pub id: ObjectId,
    pub category: Category,
    pub name: Seq<char>,
    pub created_at: i64,
    pub updated_at: i64,
}

impl View for BreedRecord {
    type V = BreedState;

    open spec fn view(&self) -> BreedState {
        BreedState {
            id: self.id,
            category: self.category,
            name: self.name@,
            created_at: self.created_at,
            updated_at: self.updated_at,
        }
    }
}

impl BreedRecord {
    pub fn copy(&self) -> (r: BreedRecord)
        ensures
            r@ == self@,
    {
        BreedRecord {
            id: self.id,
            category: self.category,
            name: self.name.clone(),
            created_at: self.created_at,
            updated_at: self.updated_at,
        }
    }
}

/// A dog as stored: its breed is held by reference.
#[derive(Debug)]
pub struct DogRecord {
    pub id: ObjectId,
    pub name: String,
    pub gender: Gender,
    pub breed: ObjectId,
    pub birthday: i64,
    pub is_sterilized: bool,
    pub introduction: String,
    pub owner_id: String,
    pub tags: Vec<String>,
    pub portrait_id: Option<String>,
    pub created_at: i64,
    pub updated_at: i64,
}

pub struct DogState {
    pub id: ObjectId,
    pub name: Seq<char>,
    pub gender: Gender,
    pub breed: ObjectId,
    pub birthday: i64,
    pub is_sterilized: bool,
    pub introduction: Seq<char>,
    pub owner_id: Seq<char>,
    pub tags: Seq<String>,
    pub portrait_id: Option<Seq<char>>,
    pub created_at: i64,
    pub updated_at: i64,
}

impl View for DogRecord {
    type V = DogState;

    open spec fn view(&self) -> DogState {
        DogState {
            id: self.id,
            name: self.name@,
            gender: self.gender,
            breed: self.breed,
            birthday: self.birthday,
            is_sterilized: self.is_sterilized,
            introduction: self.introduction@,
            owner_id: self.owner_id@,
            tags: self.tags@,
            portrait_id: opt_text(self.portrait_id),
            created_at: self.created_at,
            updated_at: self.updated_at,
        }
    }
}

impl DogRecord {
    pub fn copy(&self) -> (r: DogRecord)
        ensures
            r@ == self@,
    {
        DogRecord {
            id: self.id,
            name: self.name.clone(),
            gender: self.gender,
            breed: self.breed,
            birthday: self.birthday,
            is_sterilized: self.is_sterilized,
            introduction: self.introduction.clone(),
            owner_id: self.owner_id.clone(),
            tags: self.tags.clone(),
            portrait_id: copy_opt_text(&self.portrait_id),
            created_at: self.created_at,
            updated_at: self.updated_at,
        }
    }
}

/// The fields of a new dog that the caller chooses.
#[derive(Debug)]
pub struct DogDraft {
    pub name: String,
    pub gender: Gender,
    pub breed: ObjectId,
    pub birthday: i64,
    pub is_sterilized: bool,
    pub introduction: String,
    pub owner_id: String,
    pub tags: Vec<String>,
    pub portrait_id: Option<String>,
}

/// The record a draft becomes under the given id and timestamp.
pub open spec fn drafted(d: DogDraft, id: ObjectId, stamp: i64) -> DogState {
    DogState {
        id,
        name: d.name@,
        gender: d.gender,
        breed: d.breed,
        birthday: d.birthday,
        is_sterilized: d.is_sterilized,
        introduction: d.introduction@,
        owner_id: d.owner_id@,
        tags: d.tags@,
        portrait_id: opt_text(d.portrait_id),
        created_at: stamp,
        updated_at: stamp,
    }
}

/// The contents of the database: its two collections in stored order, the
/// next identifier to hand out, and the last timestamp it issued.
pub struct CatalogState {
    pub breeds: Seq<BreedState>,
    pub dogs: Seq<DogState>,
    pub next_id: nat,
    pub clock: int,
}

pub open spec fn breeds_ordered(s: Seq<BreedState>) -> bool {
    forall|i: int, j: int| 0 <= i < j < s.len() ==> s[i].id.value < s[j].id.value
}

pub open spec fn dogs_ordered(s: Seq<DogState>) -> bool {
    forall|i: int, j: int| 0 <= i < j < s.len() ==> s[i].id.value < s[j].id.value
}

/// The timestamp the database issues at wall-clock time `now`: `now` itself
/// when it is later than every timestamp issued before, else one more than
/// the last, so that timestamps strictly increase.
pub open spec fn next_stamp(clock: int, now: int) -> int {
    if now > clock {
        now
    } else {
        clock + 1
    }
}

pub open spec fn can_stamp(clock: int, now: int) -> bool {
    next_stamp(clock, now) <= i64::MAX
}

/// What an insertion that cannot proceed reports: no identifier is left,
/// or no timestamp.
pub open spec fn exhaustion(next_id: nat) -> Seq<char> {
    if next_id >= u64::MAX {
        "identifiers exhausted"@
    } else {
        "timestamps exhausted"@
    }
}

pub open spec fn has_breed(s: Seq<BreedState>, id: ObjectId) -> bool {
    exists|i: int| 0 <= i < s.len() && s[i].id == id
}

pub open spec fn breed_index(s: Seq<BreedState>, id: ObjectId) -> int {
    choose|i: int| 0 <= i < s.len() && s[i].id == id
}

/// The stored breed with the given id, if any.
pub open spec fn breed_with_id(s: Seq<BreedState>, id: ObjectId) -> Option<BreedState> {
    if has_breed(s, id) {
        Some(s[breed_index(s, id)])
    } else {
        None
    }
}

pub open spec fn has_dog(s: Seq<DogState>, id: ObjectId) -> bool {
    exists|i: int| 0 <= i < s.len() && s[i].id == id
}

pub open spec fn dog_index(s: Seq<DogState>, id: ObjectId) -> int {
    choose|i: int| 0 <= i < s.len() && s[i].id == id
}

pub open spec fn breeds_matching(s: Seq<BreedState>, p: Seq<BreedClause>) -> Seq<BreedState> {
    s.filter(|b: BreedState| breed_pred_holds(p, b))
}

pub open spec fn dogs_matching(s: Seq<DogState>, p: Seq<DogClause>) -> Seq<DogState> {
    s.filter(|d: DogState| dog_pred_holds(p, d))
}

impl CatalogState {
    /// Identifiers are unique and ascend in stored order, each below
    /// `next_id`; no timestamp is later than `clock`.
    pub open spec fn wf(self) -> bool {
        &&& breeds_ordered(self.breeds)
        &&& dogs_ordered(self.dogs)
        &&& self.next_id <= u64::MAX
        &&& i64::MIN <= self.clock <= i64::MAX
        &&& forall|i: int| 0 <= i < self.breeds.len() ==> {
            &&& (#[trigger] self.breeds[i]).id.value < self.next_id
            &&& self.breeds[i].created_at <= self.clock
            &&& self.breeds[i].updated_at <= self.clock
        }
        &&& forall|i: int| 0 <= i < self.dogs.len() ==> {
            &&& (#[trigger] self.dogs[i]).id.value < self.next_id
            &&& self.dogs[i].created_at <= self.clock
            &&& self.dogs[i].updated_at <= self.clock
        }
    }
}

pub open spec fn breed_states(v: Seq<BreedRecord>) -> Seq<BreedState> {
    v.map_values(|r: BreedRecord| r@)
}

pub open spec fn dog_states(v: Seq<DogRecord>) -> Seq<DogState> {
    v.map_values(|r: DogRecord| r@)
}

/// An in-memory document database with a breed and a dog collection.
pub struct Database {
    breeds: Vec<BreedRecord>,
    dogs: Vec<DogRecord>,
    next_id: u64,
    clock: i64,
}

impl View for Database {
    type V = CatalogState;

    closed spec fn view(&self) -> CatalogState {
        CatalogState {
            breeds: breed_states(self.breeds@),
            dogs: dog_states(self.dogs@),
            next_id: self.next_id as nat,
            clock: self.clock as int,
        }
    }
}

/// Within ordered breeds, the breed at position `i` is the one with its id.
pub proof fn lemma_unique_breed(s: Seq<BreedState>, i: int, id: ObjectId)
    requires
        breeds_ordered(s),
        0 <= i < s.len(),
        s[i].id == id,
    ensures
        has_breed(s, id),
        breed_index(s, id) == i,
{
    let k = breed_index(s, id);
    assert(0 <= k < s.len() && s[k].id == id);
    if k < i {
        assert(s[k].id.value < s[i].id.value);
    } else if k > i {
        assert(s[i].id.value < s[k].id.value);
    }
}

/// Within ordered dogs, the dog at position `i` is the one with its id.
pub proof fn lemma_unique_dog(s: Seq<DogState>, i: int, id: ObjectId)
    requires
        dogs_ordered(s),
        0 <= i < s.len(),
        s[i].id == id,
    ensures
        has_dog(s, id),
        dog_index(s, id) == i,
{
    let k = dog_index(s, id);
    assert(0 <= k < s.len() && s[k].id == id);
    if k < i {
        assert(s[k].id.value < s[i].id.value);
    } else if k > i {
        assert(s[i].id.value < s[k].id.value);
    }
}

impl Database {
    /// An empty database: identifiers start at 1, and no timestamp has been
    /// issued yet.
    pub fn new() -> (r: Database)
        ensures
            r@.wf(),
            r@.breeds.len() == 0,
            r@.dogs.len() == 0,
            r@.next_id == 1,
            r@.clock == i64::MIN,
    {
        let r = Database { breeds: Vec::new(), dogs: Vec::new(), next_id: 1, clock: i64::MIN };
        proof {
            assert(r@.breeds =~= Seq::<BreedState>::empty());
            assert(r@.dogs =~= Seq::<DogState>::empty());
        }
        r
    }

    /// Issues the timestamp for wall-clock time `now`.
    fn stamp(&mut self, now: i64) -> (r: Result<i64, Error>)
        ensures
            r is Ok <==> can_stamp(old(self).clock as int, now as int),
            r matches Ok(t) ==> t == next_stamp(old(self).clock as int, now as int)
                && final(self).clock == t && final(self).breeds == old(self).breeds
                && final(self).dogs == old(self).dogs && final(self).next_id == old(self).next_id,
            r is Err ==> *final(self) == *old(self),
            r matches Err(e) ==> e.kind == ErrorKind::Store && e.message@ == "timestamps exhausted"@
                && e.cause is None,
    {
        if now > self.clock {
            self.clock = now;
            Ok(now)
        } else if self.clock < i64::MAX {
            self.clock = self.clock + 1;
            Ok(self.clock)
        } else {
            Err(Error::new("timestamps exhausted"))
        }
    }

    /// Stores a new breed under the next identifier, stamped at `now`.
    pub fn insert_breed(&mut self, category: Category, name: String, now: i64) -> (r: Result<
        ObjectId,
        Error,
    >)
        requires
            old(self)@.wf(),
        ensures
            final(self)@.wf(),
            r is Ok <==> old(self)@.next_id < u64::MAX && can_stamp(old(self)@.clock, now as int),
            r matches Ok(id) ==> {
                let t = next_stamp(old(self)@.clock, now as int);
                &&& id.value == old(self)@.next_id
                &&& final(self)@ == CatalogState {
                    breeds: old(self)@.breeds.push(
                        BreedState { id, category, name: name@, created_at: t as i64, updated_at: t as i64 },
                    ),
                    next_id: old(self)@.next_id + 1,
                    clock: t,
                    ..old(self)@
                }
            },
            r matches Err(e) ==> e.kind == ErrorKind::Store && final(self)@ == old(self)@
                && e.message@ == exhaustion(old(self)@.next_id) && e.cause is None,
    {
        if self.next_id == u64::MAX {
            return Err(Error::new("identifiers exhausted"));
        }
        let t = self.stamp(now)?;
        let id = ObjectId { value: self.next_id as u128 };
        let ghost before = self.breeds@;
        self.breeds.push(BreedRecord { id, category, name, created_at: t, updated_at: t });
        self.next_id = self.next_id + 1;
        proof {
            assert(breed_states(self.breeds@) =~= breed_states(before).push(self.breeds@.last()@));
        }
        Ok(id)
    }

    /// Stores a new dog under the next identifier, stamped at `now`.
    pub fn insert_dog(&mut self, draft: DogDraft, now: i64) -> (r: Result<ObjectId, Error>)
        requires
            old(self)@.wf(),
        ensures
            final(self)@.wf(),
            r is Ok <==> old(self)@.next_id < u64::MAX && can_stamp(old(self)@.clock, now as int),
            r matches Ok(id) ==> {
                let t = next_stamp(old(self)@.clock, now as int);
                &&& id.value == old(self)@.next_id
                &&& final(self)@ == CatalogState {
                    dogs: old(self)@.dogs.push(drafted(draft, id, t as i64)),
                    next_id: old(self)@.next_id + 1,
                    clock: t,
                    ..old(self)@
                }
            },
            r matches Err(e) ==> e.kind == ErrorKind::Store && final(self)@ == old(self)@
                && e.message@ == exhaustion(old(self)@.next_id) && e.cause is None,
    {
        if self.next_id == u64::MAX {
            return Err(Error::new("identifiers exhausted"));
        }
        let t = self.stamp(now)?;
        let id = ObjectId { value: self.next_id as u128 };
        let ghost before = self.dogs@;
        let ghost d = draft;
        self.dogs.push(
            DogRecord {
                id,
                name: draft.name,
                gender: draft.gender,
                breed: draft.breed,
                birthday: draft.birthday,
                is_sterilized: draft.is_sterilized,
                introduction: draft.introduction,
                owner_id: draft.owner_id,
                tags: draft.tags,
                portrait_id: draft.portrait_id,
                created_at: t,
                updated_at: t,
            },
        );
        self.next_id = self.next_id + 1;
        proof {
            assert(self.dogs@.last()@ == drafted(d, id, t));
            assert(dog_states(self.dogs@) =~= dog_states(before).push(self.dogs@.last()@));
        }
        Ok(id)
    }

    /// The position of the breed with the given id.
    fn breed_position(&self, id: ObjectId) -> (r: Option<usize>)
        requires
            self@.wf(),
        ensures
            r is Some <==> has_breed(self@.breeds, id),
            r matches Some(i) ==> i == breed_index(self@.breeds, id) && i < self@.breeds.len(),
    {
        let mut i: usize = 0;
        while i < self.breeds.len()
            invariant
                self@.wf(),
                i <= self.breeds@.len(),
                forall|j: int| 0 <= j < i ==> self@.breeds[j].id != id,
            decreases self.breeds@.len() - i,
        {
            if self.breeds[i].id == id {
                proof {
                    lemma_unique_breed(self@.breeds, i as int, id);
                }
                return Some(i);
            }
            i = i + 1;
        }
        None
    }

    /// The position of the dog with the given id.
    fn dog_position(&self, id: ObjectId) -> (r: Option<usize>)
        requires
            self@.wf(),
        ensures
            r is Some <==> has_dog(self@.dogs, id),
            r matches Some(i) ==> i == dog_index(self@.dogs, id) && i < self@.dogs.len(),
    {
        let mut i: usize = 0;
        while i < self.dogs.len()
            invariant
                self@.wf(),
                i <= self.dogs@.len(),
                forall|j: int| 0 <= j < i ==> self@.dogs[j].id != id,
            decreases self.dogs@.len() - i,
        {
            if self.dogs[i].id == id {
                proof {
                    lemma_unique_dog(self@.dogs, i as int, id);
                }
                return Some(i);
            }
            i = i + 1;
        }
        None
    }

    /// A copy of the breed with the given id, if it is stored.
    pub fn find_breed(&self, id: ObjectId) -> (r: Option<BreedRecord>)
        requires
            self@.wf(),
        ensures
            r is Some <==> has_breed(self@.breeds, id),
            r matches Some(b) ==> breed_with_id(self@.breeds, id) == Some(b@),
    {
        match self.breed_position(id) {
            Some(i) => Some(self.breeds[i].copy()),
            None => None,
        }
    }

    /// A copy of the dog with the given id, if it is stored.
    pub fn find_dog(&self, id: ObjectId) -> (r: Option<DogRecord>)
        requires
            self@.wf(),
        ensures
            r is Some <==> has_dog(self@.dogs, id),
            r matches Some(d) ==> d@ == self@.dogs[dog_index(self@.dogs, id)],
    {
        match self.dog_position(id) {
            Some(i) => Some(self.dogs[i].copy()),
            None => None,
        }
    }

    /// Removes the breed with the given id; tells whether there was one.
    pub fn delete_breed(&mut self, id: ObjectId) -> (r: bool)
        requires
            old(self)@.wf(),
        ensures
            final(self)@.wf(),
            r == has_breed(old(self)@.breeds, id),
            final(self)@ == (if r {
                CatalogState {
                    breeds: old(self)@.breeds.remove(breed_index(old(self)@.breeds, id)),
                    ..old(self)@
                }
            } else {
                old(self)@
            }),
    {
        match self.breed_position(id) {
            Some(i) => {
                let ghost before = self.breeds@;
                self.breeds.remove(i);
                proof {
                    assert(breed_states(self.breeds@) =~= breed_states(before).remove(i as int));
                }
                true
            },
            None => false,
        }
    }

    /// Removes the dog with the given id; tells whether there was one.
    pub fn delete_dog(&mut self, id: ObjectId) -> (r: bool)
        requires
            old(self)@.wf(),
        ensures
            final(self)@.wf(),
            r == has_dog(old(self)@.dogs, id),
            final(self)@ == (if r {
                CatalogState { dogs: old(self)@.dogs.remove(dog_index(old(self)@.dogs, id)), ..old(self)@ }
            } else {
                old(self)@
            }),
    {
        match self.dog_position(id) {
            Some(i) => {
                let ghost before = self.dogs@;
                self.dogs.remove(i);
                proof {
                    assert(dog_states(self.dogs@) =~= dog_states(before).remove(i as int));
                }
                true
            },
            None => false,
        }
    }

    /// Applies the patch to the dog with the given id and stamps it at `now`.
    /// Tells whether there was such a dog.
    pub fn update_dog(&mut self, id: ObjectId, patch: &DogPatch, now: i64) -> (r: Result<
        bool,
        Error,
    >)
        requires
            old(self)@.wf(),
        ensures
            final(self)@.wf(),
            !has_dog(old(self)@.dogs, id) ==> r == Ok::<bool, Error>(false) && final(self)@ == old(
                self,
            )@,
            has_dog(old(self)@.dogs, id) ==> (r is Ok <==> can_stamp(old(self)@.clock, now as int)),
            has_dog(old(self)@.dogs, id) && r is Ok ==> r == Ok::<bool, Error>(true),
            r matches Ok(true) ==> {
                let t = next_stamp(old(self)@.clock, now as int);
                let k = dog_index(old(self)@.dogs, id);
                final(self)@ == CatalogState {
                    dogs: old(self)@.dogs.update(k, patched(old(self)@.dogs[k], *patch, t as i64)),
                    clock: t,
                    ..old(self)@
                }
            },
            r matches Err(e) ==> e.kind == ErrorKind::Store && final(self)@ == old(self)@
                && e.message@ == "timestamps exhausted"@ && e.cause is None,
    {
        match self.dog_position(id) {
            None => Ok(false),
            Some(i) => {
                let t = self.stamp(now)?;
                let rec = patch.apply(&self.dogs[i], t);
                let ghost before = self.dogs@;
                self.dogs.set(i, rec);
                proof {
                    assert(dog_states(self.dogs@) =~= dog_states(before).update(
                        i as int,
                        patched(before[i as int]@, *patch, t),
                    ));
                }
                Ok(true)
            },
        }
    }

    /// How many breeds meet the predicate.
    pub fn count_breeds(&self, pred: &Vec<BreedClause>) -> (r: usize)
        requires
            self@.wf(),
        ensures
            r == breeds_matching(self@.breeds, pred@).len(),
    {
        let found = self.find_breeds(pred, None);
        found.len()
    }

    /// Copies of the breeds that meet the predicate, in stored order (which
    /// is ascending id order), within the page.
    pub fn find_breeds(&self, pred: &Vec<BreedClause>, page: Option<Pagination>) -> (r: Vec<
        BreedRecord,
    >)
        requires
            self@.wf(),
        ensures
            breed_states(r@) == window(breeds_matching(self@.breeds, pred@), page),
    {
        let mut all: Vec<BreedRecord> = Vec::new();
        let mut i: usize = 0;
        let ghost f = |b: BreedState| breed_pred_holds(pred@, b);
        while i < self.breeds.len()
            invariant
                i <= self.breeds@.len(),
                f == (|b: BreedState| breed_pred_holds(pred@, b)),
                breed_states(all@) == self@.breeds.take(i as int).filter(f),
            decreases self.breeds@.len() - i,
        {
            let ghost before = all@;
            if matches_breed(pred, &self.breeds[i]) {
                all.push(self.breeds[i].copy());
                proof {
                    assert(breed_states(all@) =~= breed_states(before).push(self@.breeds[i as int]));
                }
            }
            proof {
                assert(self@.breeds.take(i + 1) =~= self@.breeds.take(i as int).push(
                    self@.breeds[i as int],
                ));
                self@.breeds.take(i as int).lemma_filter_push(self@.breeds[i as int], f);
            }
            i = i + 1;
        }
        proof {
            assert(self@.breeds.take(i as int) =~= self@.breeds);
        }
        let (start, end) = window_bounds(all.len(), page);
        let mut out: Vec<BreedRecord> = Vec::new();
        let mut k: usize = start;
        while k < end
            invariant
                start <= k <= end <= all@.len(),
                breed_states(out@) == breed_states(all@).subrange(start as int, k as int),
            decreases end - k,
        {
            let ghost before = out@;
            out.push(all[k].copy());
            proof {
                assert(breed_states(out@) =~= breed_states(before).push(all@[k as int]@));
                assert(breed_states(all@).subrange(start as int, k + 1) =~= breed_states(all@).subrange(
                    start as int,
                    k as int,
                ).push(all@[k as int]@));
            }
            k = k + 1;
        }
        proof {
            if page is None {
                assert(breed_states(all@).subrange(0, all@.len() as int) =~= breed_states(all@));
            }
        }
        out
    }

    /// How many dogs meet the predicate.
    pub fn count_dogs(&self, pred: &Vec<DogClause>) -> (r: usize)
        requires
            self@.wf(),
        ensures
            r == dogs_matching(self@.dogs, pred@).len(),
    {
        let found = self.find_dogs(pred, None);
        found.len()
    }

    /// Copies of the dogs that meet the predicate, in stored order (which is
    /// ascending id order), within the page.
    pub fn find_dogs(&self, pred: &Vec<DogClause>, page: Option<Pagination>) -> (r: Vec<
        DogRecord,
    >)
        requires
            self@.wf(),
        ensures
            dog_states(r@) == window(dogs_matching(self@.dogs, pred@), page),
    {
        let mut all: Vec<DogRecord> = Vec::new();
        let mut i: usize = 0;
        let ghost f = |d: DogState| dog_pred_holds(pred@, d);
        while i < self.dogs.len()
            invariant
                i <= self.dogs@.len(),
                f == (|d: DogState| dog_pred_holds(pred@, d)),
                dog_states(all@) == self@.dogs.take(i as int).filter(f),
            decreases self.dogs@.len() - i,
        {
            let ghost before = all@;
            if matches_dog(pred, &self.dogs[i]) {
                all.push(self.dogs[i].copy());
                proof {
                    assert(dog_states(all@) =~= dog_states(before).push(self@.dogs[i as int]));
                }
            }
            proof {
                assert(self@.dogs.take(i + 1) =~= self@.dogs.take(i as int).push(self@.dogs[i as int]));
                self@.dogs.take(i as int).lemma_filter_push(self@.dogs[i as int], f);
            }
            i = i + 1;
        }
        proof {
            assert(self@.dogs.take(i as int) =~= self@.dogs);
        }
        let (start, end) = window_bounds(all.len(), page);
        let mut out: Vec<DogRecord> = Vec::new();
        let mut k: usize = start;
        while k < end
            invariant
                start <= k <= end <= all@.len(),
                dog_states(out@) == dog_states(all@).subrange(start as int, k as int),
            decreases end - k,
        {
            let ghost before = out@;
            out.push(all[k].copy());
            proof {
                assert(dog_states(out@) =~= dog_states(before).push(all@[k as int]@));
                assert(dog_states(all@).subrange(start as int, k + 1) =~= dog_states(all@).subrange(
                    start as int,
                    k as int,
                ).push(all@[k as int]@));
            }
            k = k + 1;
        }
        proof {
            if page is None {
                assert(dog_states(all@).subrange(0, all@.len() as int) =~= dog_states(all@));
            }
        }
        out
    }
}

/// Whether a stored breed meets every clause of the predicate.
pub fn matches_breed(pred: &Vec<BreedClause>, b: &BreedRecord) -> (r: bool)
    ensures
        r == breed_pred_holds(pred@, b@),
{
    let mut i: usize = 0;
    while i < pred.len()
        invariant
            i <= pred@.len(),
            forall|j: int| 0 <= j < i ==> #[trigger] breed_clause_holds(pred@[j], b@),
        decreases pred@.len() - i,
    {
        let ok = match &pred[i] {
            BreedClause::IdEq(id) => b.id == *id,
            BreedClause::CategoryEq(c) => b.category == *c,
        };
        if !ok {
            assert(!breed_clause_holds(pred@[i as int], b@));
            return false;
        }
        i = i + 1;
    }
    true
}

fn contains_id(ids: &Vec<ObjectId>, id: ObjectId) -> (r: bool)
    ensures
        r == ids@.contains(id),
{
    let mut i: usize = 0;
    while i < ids.len()
        invariant
            i <= ids@.len(),
            forall|j: int| 0 <= j < i ==> ids@[j] != id,
        decreases ids@.len() - i,
    {
        if ids[i] == id {
            assert(ids@[i as int] == id);
            return true;
        }
        i = i + 1;
    }
    false
}

/// Whether a stored dog meets every clause of the predicate.
pub fn matches_dog(pred: &Vec<DogClause>, d: &DogRecord) -> (r: bool)
    ensures
        r == dog_pred_holds(pred@, d@),
{
    let mut i: usize = 0;
    while i < pred.len()
        invariant
            i <= pred@.len(),
            forall|j: int| 0 <= j < i ==> #[trigger] dog_clause_holds(pred@[j], d@),
        decreases pred@.len() - i,
    {
        let ok = match &pred[i] {
            DogClause::IdEq(id) => d.id == *id,
            DogClause::IdIn(ids) => contains_id(ids, d.id),
            DogClause::OwnerEq(o) => d.owner_id == *o,
        };
        if !ok {
            assert(!dog_clause_holds(pred@[i as int], d@));
            return false;
        }
        i = i + 1;
    }
    true
}

} // verus!
