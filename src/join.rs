use vstd::prelude::*;

use crate::entities::{copy_opt_text, Breed, BreedInfo, BreedView, Dog, DogInfo};
use crate::ids::id_text;
use crate::store::{breed_with_id, BreedRecord, BreedState, DogRecord, DogState};

verus! {

/// A stored breed as a caller reads it.
pub open spec fn breed_info(b: BreedState) -> BreedInfo {
    BreedInfo {
        id: id_text(b.id),
        category: b.category,
        name: b.name,
        created_at: b.created_at,
        updated_at: b.updated_at,
    }
}

pub open spec fn opt_breed_state(b: Option<BreedRecord>) -> Option<BreedState> {
    match b {
        Some(r) => Some(r@),
        None => None,
    }
}

/// A stored dog as a caller reads it, with `breed` the record its reference
/// resolved to, if any.
pub open spec fn dog_info(d: DogState, breed: Option<BreedState>) -> DogInfo {
    DogInfo {
        id: id_text(d.id),
        name: d.name,
        gender: d.gender,
        breed: match breed {
            Some(b) => Some(breed_info(b)),
            None => None,
        },
        birthday: d.birthday,
        is_sterilized: d.is_sterilized,
        introduction: d.introduction,
        owner_id: d.owner_id,
        tags: d.tags,
        portrait_id: d.portrait_id,
        created_at: d.created_at,
        updated_at: d.updated_at,
    }
}

/// A stored dog as read against the stored breeds: its breed reference
/// resolved, or marked unresolved when no breed has that id.
pub open spec fn dog_read(d: DogState, breeds: Seq<BreedState>) -> DogInfo {
    dog_info(d, breed_with_id(breeds, d.breed))
}

/// Projects a stored breed to what a caller reads.
pub fn breed_of_record(b: &BreedRecord) -> (r: Breed)
    ensures
        r@ == breed_info(b@),
{
    Breed {
        id: b.id.to_hex(),
        category: b.category,
        name: b.name.clone(),
        created_at: b.created_at,
        updated_at: b.updated_at,
    }
}

/// Embeds the breed that a dog's reference resolved to, or marks it
/// unresolved.
pub fn resolve_dog(d: &DogRecord, breed: &Option<BreedRecord>) -> (r: Dog)
    ensures
        r@ == dog_info(d@, opt_breed_state(*breed)),
{
    let embedded = match breed {
        Some(b) => BreedView::Resolved(breed_of_record(b)),
        None => BreedView::Unresolved,
    };
    Dog {
        id: d.id.to_hex(),
        name: d.name.clone(),
        gender: d.gender,
        breed: embedded,
        birthday: d.birthday,
        is_sterilized: d.is_sterilized,
        introduction: d.introduction.clone(),
        owner_id: d.owner_id.clone(),
        tags: d.tags.clone(),
        portrait_id: copy_opt_text(&d.portrait_id),
        created_at: d.created_at,
        updated_at: d.updated_at,
    }
}

} // verus!
