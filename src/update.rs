use vstd::prelude::*;

use crate::entities::{copy_opt_text, gender_of_name, opt_text, DogUpdate, Gender};
use crate::error::{Error, ErrorKind};
use crate::ids::{id_of_text, is_id_text, ObjectId};
use crate::store::{DogRecord, DogState};

verus! {

/// The fields of a dog that an update sets, decoded; an unset field is left
/// as it is.
#[derive(Debug)]
pub struct DogPatch {
    pub name: Option<String>,
    pub gender: Option<Gender>,
    pub breed: Option<ObjectId>,
    pub birthday: Option<i64>,
    pub is_sterilized: Option<bool>,
    pub introduction: Option<String>,
    pub owner_id: Option<String>,
    pub tags: Option<Vec<String>>,
    pub portrait_id: Option<String>,
}

pub open spec fn opt_or<T>(o: Option<T>, d: T) -> T {
    match o {
        Some(v) => v,
        None => d,
    }
}

/// A stored dog after the patch, modified at `stamp`.
pub open spec fn patched(d: DogState, p: DogPatch, stamp: i64) -> DogState {
    DogState {
        name: opt_or(opt_text(p.name), d.name),
        gender: opt_or(p.gender, d.gender),
        breed: opt_or(p.breed, d.breed),
        birthday: opt_or(p.birthday, d.birthday),
        is_sterilized: opt_or(p.is_sterilized, d.is_sterilized),
        introduction: opt_or(opt_text(p.introduction), d.introduction),
        owner_id: opt_or(opt_text(p.owner_id), d.owner_id),
        tags: match p.tags {
            Some(t) => t@,
            None => d.tags,
        },
        portrait_id: match p.portrait_id {
            Some(s) => Some(s@),
            None => d.portrait_id,
        },
        updated_at: stamp,
        ..d
    }
}

/// A stored dog after the update, modified at `stamp`: each set field
/// replaced, every other field kept.
pub open spec fn dog_updated(d: DogState, u: DogUpdate, stamp: i64) -> DogState {
    DogState {
        name: opt_or(opt_text(u.name), d.name),
        gender: match u.gender {
            Some(g) => gender_of_name(g@),
            None => d.gender,
        },
        breed: match u.breed {
            Some(b) => id_of_text(b@),
            None => d.breed,
        },
        birthday: opt_or(u.birthday, d.birthday),
        is_sterilized: opt_or(u.is_sterilized, d.is_sterilized),
        introduction: opt_or(opt_text(u.introduction), d.introduction),
        owner_id: opt_or(opt_text(u.owner_id), d.owner_id),
        tags: match u.tags {
            Some(t) => t@,
            None => d.tags,
        },
        portrait_id: match u.portrait_id {
            Some(s) => Some(s@),
            None => d.portrait_id,
        },
        updated_at: stamp,
        ..d
    }
}

/// No field of the update is set.
pub open spec fn update_is_empty(u: DogUpdate) -> bool {
    &&& u.name is None
    &&& u.gender is None
    &&& u.breed is None
    &&& u.birthday is None
    &&& u.is_sterilized is None
    &&& u.introduction is None
    &&& u.owner_id is None
    &&& u.tags is None
    &&& u.portrait_id is None
}

/// Every identifier in the update is well formed.
pub open spec fn update_ids_ok(u: DogUpdate) -> bool {
    u.breed matches Some(b) ==> is_id_text(b@)
}

pub open spec fn patch_is_empty(p: DogPatch) -> bool {
    &&& p.name is None
    &&& p.gender is None
    &&& p.breed is None
    &&& p.birthday is None
    &&& p.is_sterilized is None
    &&& p.introduction is None
    &&& p.owner_id is None
    &&& p.tags is None
    &&& p.portrait_id is None
}

impl DogPatch {
    /// Decodes an update into the fields it sets. Fails with
    /// `InvalidIdentifier` when its breed reference is malformed.
    pub fn from_update(u: &DogUpdate) -> (r: Result<DogPatch, Error>)
        ensures
            r is Ok <==> update_ids_ok(*u),
            r matches Err(e) ==> e.kind == ErrorKind::InvalidIdentifier && e.message@
            == "invalid identifier"@ && e.cause is None,
            r matches Ok(p) ==> {
                &&& patch_is_empty(p) == update_is_empty(*u)
                &&& forall|d: DogState, t: i64| #[trigger]
                    patched(d, p, t) == dog_updated(d, *u, t)
            },
    {
        let breed = match &u.breed {
            Some(b) => Some(ObjectId::parse_str(b.as_str())?),
            None => None,
        };
        let gender = match &u.gender {
            Some(g) => Some(Gender::from_name(g.as_str())),
            None => None,
        };
        let tags = match &u.tags {
            Some(t) => Some(t.clone()),
            None => None,
        };
        let p = DogPatch {
            name: copy_opt_text(&u.name),
            gender,
            breed,
            birthday: u.birthday,
            is_sterilized: u.is_sterilized,
            introduction: copy_opt_text(&u.introduction),
            owner_id: copy_opt_text(&u.owner_id),
            tags,
            portrait_id: copy_opt_text(&u.portrait_id),
        };
        proof {
            assert forall|d: DogState, t: i64| #[trigger]
                patched(d, p, t) == dog_updated(d, *u, t) by {
                if u.tags is Some {
                    assert(p.tags->0@ == u.tags->0@);
                }
            }
        }
        Ok(p)
    }

    /// No field is set.
    pub fn is_empty(&self) -> (r: bool)
        ensures
            r == patch_is_empty(*self),
    {
        self.name.is_none() && self.gender.is_none() && self.breed.is_none()
            && self.birthday.is_none() && self.is_sterilized.is_none()
            && self.introduction.is_none() && self.owner_id.is_none() && self.tags.is_none()
            && self.portrait_id.is_none()
    }

    /// The stored dog with the set fields replaced and `updated_at` set to
    /// `stamp`.
    pub fn apply(&self, d: &DogRecord, stamp: i64) -> (r: DogRecord)
        ensures
            r@ == patched(d@, *self, stamp),
    {
        let name = match &self.name {
            Some(s) => s.clone(),
            None => d.name.clone(),
        };
        let introduction = match &self.introduction {
            Some(s) => s.clone(),
            None => d.introduction.clone(),
        };
        let owner_id = match &self.owner_id {
            Some(s) => s.clone(),
            None => d.owner_id.clone(),
        };
        let tags = match &self.tags {
            Some(t) => t.clone(),
            None => d.tags.clone(),
        };
        let portrait_id = match &self.portrait_id {
            Some(s) => Some(s.clone()),
            None => copy_opt_text(&d.portrait_id),
        };
        DogRecord {
            id: d.id,
            name,
            gender: match self.gender {
                Some(g) => g,
                None => d.gender,
            },
            breed: match self.breed {
                Some(b) => b,
                None => d.breed,
            },
            birthday: match self.birthday {
                Some(b) => b,
                None => d.birthday,
            },
            is_sterilized: match self.is_sterilized {
                Some(b) => b,
                None => d.is_sterilized,
            },
            introduction,
            owner_id,
            tags,
            portrait_id,
            created_at: d.created_at,
            updated_at: stamp,
        }
    }
}

} // verus!
