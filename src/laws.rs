use vstd::prelude::*;

use crate::entities::{Breed, BreedCreate, BreedQuery, DogInfo, DogQuery, DogUpdate, Pagination};
use crate::error::Error;
use crate::ids::{id_of_text, id_text, is_id_text, lemma_decode_encode, ID_SPACE};
use crate::join::{breed_info, dog_read};
use crate::page::{page_end, page_start, window};
use crate::query::{breed_query_admits, dog_query_admits};
use crate::repository::{
    breed_infos, breeds_page, breeds_selected, create_breed_post, dogs_selected,
    exists_dog_post, query_breeds_post, update_dog_post,
};
use crate::service::lemma_filter_nonempty;
use crate::store::{dog_index, dogs_ordered, has_dog, BreedState, CatalogState, DogState};
use crate::update::{update_ids_ok, update_is_empty};

verus! {

/// Proof that filtering by a predicate that every element meets keeps the
/// whole sequence.
pub proof fn lemma_filter_all<A>(s: Seq<A>, f: spec_fn(A) -> bool)
    requires
        forall|i: int| 0 <= i < s.len() ==> f(s[i]),
    ensures
        s.filter(f) == s,
    decreases s.len(),
{
    reveal(Seq::filter);
    if s.len() > 0 {
        lemma_filter_all(s.drop_last(), f);
        assert(s.drop_last().push(s.last()) =~= s);
    }
}

/// A breed query with no filter selects every stored breed; without a page,
/// it reads them all and its total is the number it read.
pub proof fn law_unfiltered_breed_query(
    c: CatalogState,
    q: BreedQuery,
    r: Result<(Vec<Breed>, i64), Error>,
)
    requires
        q.id is None,
        q.category is None,
        query_breeds_post(c, q, r),
    ensures
        breeds_selected(c, q) == c.breeds,
        q.pagination is None ==> breeds_page(c, q) == c.breeds.map_values(
            |b: BreedState| breed_info(b),
        ),
        q.pagination is None ==> (r matches Ok(res) ==> res.1 == res.0@.len()),
{
    lemma_filter_all(c.breeds, |b: BreedState| breed_query_admits(q, b));
    match r {
        Ok(res) => {
            assert(breed_infos(res.0@).len() == res.0@.len());
        },
        Err(_) => {},
    }
}

/// An update that sets no field changes nothing and reports no
/// modification.
pub proof fn law_empty_update_is_no_op(
    old: CatalogState,
    new: CatalogState,
    id: Seq<char>,
    u: DogUpdate,
    r: Result<bool, Error>,
)
    requires
        update_is_empty(u),
        update_dog_post(old, new, id, u, r),
    ensures
        new == old,
        r matches Ok(modified) ==> !modified,
{
}

/// An update that sets a field, with well-formed identifiers and timestamps
/// left to issue, succeeds and reports whether the dog existed; when it did,
/// its `updated_at` strictly increases.
pub proof fn law_update_advances_timestamp(
    old: CatalogState,
    new: CatalogState,
    id: Seq<char>,
    u: DogUpdate,
    r: Result<bool, Error>,
)
    requires
        old.wf(),
        new.wf(),
        is_id_text(id),
        update_ids_ok(u),
        !update_is_empty(u),
        old.clock < i64::MAX,
        update_dog_post(old, new, id, u, r),
    ensures
        r == Ok::<bool, Error>(has_dog(old.dogs, id_of_text(id))),
        has_dog(old.dogs, id_of_text(id)) ==> {
            let k = dog_index(old.dogs, id_of_text(id));
            new.dogs[k].updated_at > old.dogs[k].updated_at
        },
{
    if has_dog(old.dogs, id_of_text(id)) {
        let k = dog_index(old.dogs, id_of_text(id));
        assert(old.dogs[k].updated_at <= old.clock);
    }
}

/// After a breed is created, a query on its category succeeds and lists a
/// breed with the id it was given, its name and its category.
pub proof fn law_created_breed_is_listed(
    old: CatalogState,
    new: CatalogState,
    b: BreedCreate,
    r: Result<String, Error>,
    q: BreedQuery,
    listed: Result<(Vec<Breed>, i64), Error>,
)
    requires
        old.breeds.len() < i64::MAX,
        create_breed_post(old, new, b, r),
        r is Ok,
        q.id is None,
        q.category == Some(b.category),
        q.pagination is None,
        query_breeds_post(new, q, listed),
    ensures
        exists|i: int|
            0 <= i < breeds_page(new, q).len() && (#[trigger] breeds_page(new, q)[i]).name
                == b.name@ && breeds_page(new, q)[i].category == b.category,
        listed matches Ok(res) && exists|i: int|
            0 <= i < res.0@.len() && (#[trigger] res.0@[i]).id@ == r->Ok_0@ && res.0@[i].name@
                == b.name@ && res.0@[i].category == b.category,
{
    let f = |x: BreedState| breed_query_admits(q, x);
    let last = new.breeds.last();
    assert(new.breeds == old.breeds.push(last));
    old.breeds.lemma_filter_push(last, f);
    let sel = breeds_selected(new, q);
    assert(sel == old.breeds.filter(f).push(last));
    let i = sel.len() - 1;
    assert(breeds_page(new, q)[i] == breed_info(last));
    new.breeds.lemma_filter_len(f);
    assert(sel.len() <= i64::MAX);
    assert(listed is Ok);
    match listed {
        Ok(res) => {
            assert(breed_infos(res.0@) == breeds_page(new, q));
            assert(breeds_page(new, q).len() == sel.len());
            assert(breed_infos(res.0@).len() == res.0@.len());
            assert(breed_infos(res.0@)[i] == res.0@[i]@);
        },
        Err(_) => {},
    }
}

/// Whether a dog exists for a query on an id and an owner: exactly when a
/// stored dog has that id and belongs to that owner.
pub proof fn law_exists_dog_checks_id_and_owner(
    c: CatalogState,
    q: DogQuery,
    r: Result<bool, Error>,
)
    requires
        exists_dog_post(c, q, r),
        q.id is Some,
        q.owner_id is Some,
        q.id_in is None,
    ensures
        is_id_text(q.id->0@) ==> r is Ok,
        r matches Ok(found) ==> found == exists|i: int|
            0 <= i < c.dogs.len() && c.dogs[i].id == id_of_text(q.id->0@) && c.dogs[i].owner_id
                == q.owner_id->0@,
{
    lemma_filter_nonempty(c.dogs, |d: DogState| dog_query_admits(q, d));
}

pub open spec fn min(a: int, b: int) -> int {
    if a <= b {
        a
    } else {
        b
    }
}

/// Where a page of `limit` rows at `skip` starts and ends in `len` rows.
proof fn lemma_page_bounds(len: int, skip: int, limit: int)
    requires
        0 <= len,
        0 <= skip <= i64::MAX,
        0 <= limit <= i64::MAX,
    ensures
        page_start(len, Pagination { limit: limit as i64, skip: skip as i64 }) == min(skip, len),
        page_end(len, Pagination { limit: limit as i64, skip: skip as i64 }) == min(
            min(skip, len) + limit,
            len,
        ),
{
}

/// The page of dogs at `skip` with at most `limit` rows.
pub open spec fn dogs_page_at(c: CatalogState, q: DogQuery, skip: int, limit: int) -> Seq<DogInfo> {
    window(
        dogs_selected(c, q),
        Some(Pagination { limit: limit as i64, skip: skip as i64 }),
    ).map_values(|d: DogState| dog_read(d, c.breeds))
}

/// The first `n` pages of `limit` rows, one after the other.
pub open spec fn first_pages(c: CatalogState, q: DogQuery, limit: int, n: nat) -> Seq<DogInfo>
    decreases n,
{
    if n == 0 {
        seq![]
    } else {
        first_pages(c, q, limit, (n - 1) as nat) + dogs_page_at(c, q, (n - 1) * limit, limit)
    }
}

/// Every dog that `dogs_selected` yields is stored.
proof fn lemma_selected_stored(c: CatalogState, q: DogQuery, i: int)
    requires
        0 <= i < dogs_selected(c, q).len(),
    ensures
        c.dogs.contains(dogs_selected(c, q)[i]),
{
    let f = |d: DogState| dog_query_admits(q, d);
    assert(c.dogs.filter(f).contains(c.dogs.filter(f)[i]));
    c.dogs.lemma_filter_contains_rev(f, c.dogs.filter(f)[i]);
}

/// Filtering keeps dogs in ascending id order.
proof fn lemma_filter_ordered(s: Seq<DogState>, f: spec_fn(DogState) -> bool)
    requires
        dogs_ordered(s),
    ensures
        dogs_ordered(s.filter(f)),
    decreases s.len(),
{
    reveal(Seq::filter);
    if s.len() > 0 {
        let t = s.drop_last();
        assert(dogs_ordered(t));
        lemma_filter_ordered(t, f);
        if f(s.last()) {
            let u = t.filter(f);
            assert forall|i: int, j: int| 0 <= i < j < u.len() + 1 implies (#[trigger] u.push(
                s.last(),
            )[i]).id.value < (#[trigger] u.push(s.last())[j]).id.value by {
                if j == u.len() {
                    assert(u.contains(u[i]));
                    t.lemma_filter_contains_rev(f, u[i]);
                    let k = choose|k: int| 0 <= k < t.len() && t[k] == u[i];
                    assert(s[k] == u[i]);
                }
            }
        }
    }
}

/// Pages of `limit` rows taken at offsets `0, limit, 2 * limit, ...` follow
/// one another: the first `n` of them, in order, are the single page of
/// `n * limit` rows at offset 0, and once they reach past the last matching
/// dog they are every matching dog, each exactly once.
pub proof fn law_pages_tile(c: CatalogState, q: DogQuery, limit: int, n: nat)
    requires
        0 < limit,
        n * limit <= i64::MAX,
    ensures
        first_pages(c, q, limit, n) == dogs_page_at(c, q, 0, n * limit),
        n * limit >= dogs_selected(c, q).len() ==> first_pages(c, q, limit, n)
            == window(dogs_selected(c, q), None).map_values(|d: DogState| dog_read(d, c.breeds)),
    decreases n,
{
    let s = dogs_selected(c, q);
    let len = s.len() as int;
    let f = |d: DogState| dog_read(d, c.breeds);
    assert(0 <= n * limit) by (nonlinear_arith)
        requires
            0 < limit,
    ;
    lemma_page_bounds(len, 0, n * limit);
    let e2 = min(n * limit, len);
    assert(dogs_page_at(c, q, 0, n * limit) == s.subrange(0, e2).map_values(f));
    if n > 0 {
        let m = (n - 1) as nat;
        assert(m * limit <= n * limit) by (nonlinear_arith)
            requires
                m == n - 1,
                0 < limit,
        ;
        assert(n * limit == m * limit + limit) by (nonlinear_arith)
            requires
                m == n - 1,
        ;
        assert(0 <= m * limit) by (nonlinear_arith)
            requires
                0 < limit,
        ;
        law_pages_tile(c, q, limit, m);
        lemma_page_bounds(len, 0, m * limit);
        lemma_page_bounds(len, m * limit, limit);
        let e1 = min(m * limit, len);
        assert(dogs_page_at(c, q, 0, m * limit) == s.subrange(0, e1).map_values(f));
        assert(dogs_page_at(c, q, m * limit, limit) == s.subrange(e1, e2).map_values(f));
        assert(first_pages(c, q, limit, n) == first_pages(c, q, limit, m) + dogs_page_at(
            c,
            q,
            m * limit,
            limit,
        ));
        assert(s.subrange(0, e1).map_values(f) + s.subrange(e1, e2).map_values(f) =~= s.subrange(
            0,
            e2,
        ).map_values(f));
    } else {
        assert(n * limit == 0) by (nonlinear_arith)
            requires
                n == 0,
        ;
        assert(first_pages(c, q, limit, n) =~= dogs_page_at(c, q, 0, n * limit));
    }
    if n * limit >= s.len() {
        assert(dogs_page_at(c, q, 0, n * limit) =~= window(s, None).map_values(f));
    }
}

/// Two different pages of `limit` rows, at offsets `i * limit` and
/// `j * limit`, share no dog.
pub proof fn law_pages_disjoint(
    c: CatalogState,
    q: DogQuery,
    limit: int,
    i: nat,
    j: nat,
    a: int,
    b: int,
)
    requires
        c.wf(),
        0 < limit,
        i < j,
        j * limit <= i64::MAX,
        0 <= a < dogs_page_at(c, q, i * limit, limit).len(),
        0 <= b < dogs_page_at(c, q, j * limit, limit).len(),
    ensures
        dogs_page_at(c, q, i * limit, limit)[a].id != dogs_page_at(c, q, j * limit, limit)[b].id,
{
    let s = dogs_selected(c, q);
    assert((i + 1) * limit <= j * limit) by (nonlinear_arith)
        requires
            i < j,
            0 < limit,
    ;
    assert(0 <= i * limit) by (nonlinear_arith)
        requires
            0 < limit,
    ;
    let len = s.len() as int;
    assert(i * limit + limit <= j * limit && limit <= j * limit) by (nonlinear_arith)
        requires
            i < j,
            0 < limit,
    ;
    lemma_page_bounds(len, i * limit, limit);
    lemma_page_bounds(len, j * limit, limit);
    let pa = min(i * limit, len) + a;
    let pb = min(j * limit, len) + b;
    assert(dogs_page_at(c, q, i * limit, limit).len() == min(min(i * limit, len) + limit, len) - min(
        i * limit,
        len,
    ));
    assert(dogs_page_at(c, q, j * limit, limit).len() == min(min(j * limit, len) + limit, len) - min(
        j * limit,
        len,
    ));
    assert(pa < pb);
    lemma_filter_ordered(c.dogs, |d: DogState| dog_query_admits(q, d));
    assert(s[pa].id.value < s[pb].id.value);
    lemma_selected_stored(c, q, pa);
    lemma_selected_stored(c, q, pb);
    let ka = choose|k: int| 0 <= k < c.dogs.len() && c.dogs[k] == s[pa];
    let kb = choose|k: int| 0 <= k < c.dogs.len() && c.dogs[k] == s[pb];
    assert(s[pa].id.value < ID_SPACE);
    assert(s[pb].id.value < ID_SPACE);
    lemma_decode_encode(s[pa].id);
    lemma_decode_encode(s[pb].id);
    assert(dogs_page_at(c, q, i * limit, limit)[a].id == id_text(s[pa].id));
    assert(dogs_page_at(c, q, j * limit, limit)[b].id == id_text(s[pb].id));
}

} // verus!
