use vstd::prelude::*;

use crate::entities::{BreedQuery, Category, DogQuery};
use crate::error::{Error, ErrorKind};
use crate::ids::{id_of_text, is_id_text, ObjectId};
use crate::store::{BreedState, DogState};

verus! {

/// One equality or inclusion constraint on a stored breed.
#[derive(Debug)]
pub enum BreedClause {
    IdEq(ObjectId),
    CategoryEq(Category),
}

/// One equality or inclusion constraint on a stored dog.
#[derive(Debug)]
pub enum DogClause {
    IdEq(ObjectId),
    IdIn(Vec<ObjectId>),
    OwnerEq(String),
}

pub open spec fn breed_clause_holds(c: BreedClause, b: BreedState) -> bool {
    match c {
        BreedClause::IdEq(id) => b.id == id,
        BreedClause::CategoryEq(cat) => b.category == cat,
    }
}

/// A predicate is the conjunction of its clauses; no clause matches every row.
pub open spec fn breed_pred_holds(p: Seq<BreedClause>, b: BreedState) -> bool {
    forall|i: int| 0 <= i < p.len() ==> #[trigger] breed_clause_holds(p[i], b)
}

pub open spec fn dog_clause_holds(c: DogClause, d: DogState) -> bool {
    match c {
        DogClause::IdEq(id) => d.id == id,
        DogClause::IdIn(ids) => ids@.contains(d.id),
        DogClause::OwnerEq(o) => d.owner_id == o@,
    }
}

pub open spec fn dog_pred_holds(p: Seq<DogClause>, d: DogState) -> bool {
    forall|i: int| 0 <= i < p.len() ==> #[trigger] dog_clause_holds(p[i], d)
}

/// Every identifier in the breed query is well formed.
pub open spec fn breed_query_ids_ok(q: BreedQuery) -> bool {
    q.id matches Some(s) ==> is_id_text(s@)
}

/// A stored breed meets every set field of the query.
pub open spec fn breed_query_admits(q: BreedQuery, b: BreedState) -> bool {
    &&& q.id matches Some(s) ==> b.id == id_of_text(s@)
    &&& q.category matches Some(c) ==> b.category == c
}

/// Number of fields of the breed query that constrain.
pub open spec fn breed_query_arity(q: BreedQuery) -> nat {
    (if q.id is Some { 1nat } else { 0nat }) + (if q.category is Some { 1nat } else { 0nat })
}

/// Every identifier in the dog query is well formed.
pub open spec fn dog_query_ids_ok(q: DogQuery) -> bool {
    &&& q.id matches Some(s) ==> is_id_text(s@)
    &&& q.id_in matches Some(v) ==> forall|j: int| 0 <= j < v.len() ==> is_id_text(#[trigger] v@[j]@)
}

/// A stored dog meets every set field of the query; an empty `id_in` sets
/// no constraint.
pub open spec fn dog_query_admits(q: DogQuery, d: DogState) -> bool {
    &&& q.id matches Some(s) ==> d.id == id_of_text(s@)
    &&& q.id_in matches Some(v) ==> (v.len() == 0 || exists|j: int|
        0 <= j < v.len() && d.id == id_of_text(#[trigger] v@[j]@))
    &&& q.owner_id matches Some(o) ==> d.owner_id == o@
}

/// Number of fields of the dog query that constrain.
pub open spec fn dog_query_arity(q: DogQuery) -> nat {
    (if q.id is Some { 1nat } else { 0nat }) + (if q.id_in matches Some(v) && v.len() > 0 {
        1nat
    } else {
        0nat
    }) + (if q.owner_id is Some { 1nat } else { 0nat })
}

/// Decodes a list of identifier texts, failing with `InvalidIdentifier` on
/// the first malformed one.
pub fn decode_all(texts: &Vec<String>) -> (r: Result<Vec<ObjectId>, Error>)
    ensures
        r is Ok <==> forall|j: int| 0 <= j < texts.len() ==> is_id_text(#[trigger] texts@[j]@),
        r matches Ok(ids) ==> ids@.len() == texts@.len() && forall|j: int|
            0 <= j < texts.len() ==> #[trigger] ids@[j] == id_of_text(texts@[j]@),
        r matches Err(e) ==> e.kind == ErrorKind::InvalidIdentifier && e.message@
        == "invalid identifier"@ && e.cause is None,
{
    let mut ids: Vec<ObjectId> = Vec::new();
    let mut i: usize = 0;
    while i < texts.len()
        invariant
            i <= texts.len(),
            ids@.len() == i,
            forall|j: int| 0 <= j < i ==> is_id_text(#[trigger] texts@[j]@),
            forall|j: int| 0 <= j < i ==> #[trigger] ids@[j] == id_of_text(texts@[j]@),
        decreases texts.len() - i,
    {
        let id = ObjectId::parse_str(texts[i].as_str())?;
        ids.push(id);
        i = i + 1;
    }
    Ok(ids)
}

/// Builds the predicate of a breed query: one clause for each set field.
/// Fails with `InvalidIdentifier` when the id filter is malformed.
pub fn breed_predicate(q: &BreedQuery) -> (r: Result<Vec<BreedClause>, Error>)
    ensures
        r is Ok <==> breed_query_ids_ok(*q),
        r matches Err(e) ==> e.kind == ErrorKind::InvalidIdentifier && e.message@
        == "invalid identifier"@ && e.cause is None,
        r matches Ok(p) ==> {
            &&& p@.len() == breed_query_arity(*q)
            &&& forall|b: BreedState| #[trigger]
                breed_pred_holds(p@, b) == breed_query_admits(*q, b)
        },
{
    let mut p: Vec<BreedClause> = Vec::new();
    if let Some(s) = &q.id {
        let id = ObjectId::parse_str(s.as_str())?;
        p.push(BreedClause::IdEq(id));
    }
    if let Some(c) = q.category {
        p.push(BreedClause::CategoryEq(c));
    }
    proof {
        assert forall|b: BreedState| #[trigger]
            breed_pred_holds(p@, b) == breed_query_admits(*q, b) by {
            if breed_query_admits(*q, b) {
                assert forall|i: int| 0 <= i < p@.len() implies #[trigger] breed_clause_holds(
                    p@[i],
                    b,
                ) by {}
            }
            if breed_pred_holds(p@, b) {
                if q.id is Some {
                    assert(breed_clause_holds(p@[0], b));
                }
                if q.category is Some {
                    assert(breed_clause_holds(p@[p@.len() - 1], b));
                }
            }
        }
    }
    Ok(p)
}

/// Builds the predicate of a dog query: one clause for each set field, none
/// for an empty `id_in`. Fails with `InvalidIdentifier` when an identifier in
/// it is malformed.
pub fn dog_predicate(q: &DogQuery) -> (r: Result<Vec<DogClause>, Error>)
    ensures
        r is Ok <==> dog_query_ids_ok(*q),
        r matches Err(e) ==> e.kind == ErrorKind::InvalidIdentifier && e.message@
        == "invalid identifier"@ && e.cause is None,
        r matches Ok(p) ==> {
            &&& p@.len() == dog_query_arity(*q)
            &&& forall|d: DogState| #[trigger] dog_pred_holds(p@, d) == dog_query_admits(*q, d)
        },
{
    let mut p: Vec<DogClause> = Vec::new();
    if let Some(s) = &q.id {
        let id = ObjectId::parse_str(s.as_str())?;
        p.push(DogClause::IdEq(id));
    }
    let ghost n_id = p@.len();
    if let Some(v) = &q.id_in {
        let ids = decode_all(v)?;
        if ids.len() > 0 {
            p.push(DogClause::IdIn(ids));
        }
    }
    let ghost n_in = p@.len();
    if let Some(o) = &q.owner_id {
        p.push(DogClause::OwnerEq(o.clone()));
    }
    proof {
        assert forall|d: DogState| #[trigger] dog_pred_holds(p@, d) == dog_query_admits(*q, d) by {
            if dog_query_admits(*q, d) {
                assert forall|i: int| 0 <= i < p@.len() implies #[trigger] dog_clause_holds(
                    p@[i],
                    d,
                ) by {
                    if i == n_id && n_in > n_id {
                        let v = q.id_in->0;
                        let ids = p@[i]->IdIn_0;
                        let j = choose|j: int| 0 <= j < v.len() && d.id == id_of_text(#[trigger] v@[j]@);
                        assert(ids@[j] == d.id);
                    }
                }
            }
            if dog_pred_holds(p@, d) {
                if q.id is Some {
                    assert(dog_clause_holds(p@[0], d));
                }
                if n_in > n_id {
                    let v = q.id_in->0;
                    let ids = p@[n_id as int]->IdIn_0;
                    assert(dog_clause_holds(p@[n_id as int], d));
                    let k = choose|k: int| 0 <= k < ids@.len() && ids@[k] == d.id;
                    assert(d.id == id_of_text(v@[k]@));
                }
                if q.owner_id is Some {
                    assert(dog_clause_holds(p@[p@.len() - 1], d));
                }
            }
        }
    }
    Ok(p)
}

} // verus!
