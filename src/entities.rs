use vstd::prelude::*;

use crate::text::same_text;

verus! {

/// The size class of a breed.
#[derive(Clone, Copy, Debug, PartialEq, Eq, Structural)]
pub enum Category {
    Small,
    Medium,
    Large,
    Giant,
}

pub open spec fn category_name(c: Category) -> Seq<char> {
    match c {
        Category::Small => "Small"@,
        Category::Medium => "Medium"@,
        Category::Large => "Large"@,
        Category::Giant => "Giant"@,
    }
}

impl Category {
    /// The name of the category, as it is written out.
    pub fn to_string(&self) -> (r: String)
        ensures
            r@ == category_name(*self),
    {
        match self {
            Category::Small => "Small".to_owned(),
            Category::Medium => "Medium".to_owned(),
            Category::Large => "Large".to_owned(),
            Category::Giant => "Giant".to_owned(),
        }
    }
}

#[derive(Clone, Copy, Debug, PartialEq, Eq, Structural)]
pub enum Gender {
    Other,
    Male,
    Female,
}

impl Default for Gender {
    fn default() -> (r: Gender)
        ensures
            r == Gender::Other,
    {
        Gender::Other
    }
}

/// The gender a name stands for: `"Male"` and `"Female"` name theirs, any
/// other text falls back to the default, `Other`.
pub open spec fn gender_of_name(s: Seq<char>) -> Gender {
    if s == "Male"@ {
        Gender::Male
    } else if s == "Female"@ {
        Gender::Female
    } else {
        Gender::Other
    }
}

impl Gender {
    pub fn from_name(s: &str) -> (r: Gender)
        ensures
            r == gender_of_name(s@),
    {
        if same_text(s, "Male") {
            Gender::Male
        } else if same_text(s, "Female") {
            Gender::Female
        } else {
            Gender::Other
        }
    }
}

pub open spec fn opt_text(o: Option<String>) -> Option<Seq<char>> {
    match o {
        Some(s) => Some(s@),
        None => None,
    }
}

/// A copy of an optional string.
pub fn copy_opt_text(o: &Option<String>) -> (r: Option<String>)
    ensures
        opt_text(r) == opt_text(*o),
{
    match o {
        Some(s) => Some(s.clone()),
        None => None,
    }
}

/// A breed as a caller reads it. Timestamps are milliseconds since the Unix
/// epoch, UTC.
#[derive(Debug)]
pub struct Breed {
    pub id: String,
    pub category: Category,
    pub name: String,
    pub created_at: i64,
    pub updated_at: i64,
}

/// The value of a `Breed`.
pub struct BreedInfo {
    pub id: Seq<char>,
    pub category: Category,
    pub name: Seq<char>,
    pub created_at: i64,
    pub updated_at: i64,
}

impl View for Breed {
    type V = BreedInfo;

    open spec fn view(&self) -> BreedInfo {
        BreedInfo {
            id: self.id@,
            category: self.category,
            name: self.name@,
            created_at: self.created_at,
            updated_at: self.updated_at,
        }
    }
}

/// The breed embedded in a dog as read: a snapshot of the referenced breed,
/// or the mark that the reference no longer resolves.
#[derive(Debug)]
pub enum BreedView {
    Resolved(Breed),
    Unresolved,
}

impl View for BreedView {
    type V = Option<BreedInfo>;

    open spec fn view(&self) -> Option<BreedInfo> {
        match self {
            BreedView::Resolved(b) => Some(b@),
            BreedView::Unresolved => None,
        }
    }
}

/// A dog as a caller reads it, with its breed embedded.
#[derive(Debug)]
pub struct Dog {
    pub id: String,
    pub name: String,
    pub gender: Gender,
    pub breed: BreedView,
    pub birthday: i64,
    pub is_sterilized: bool,
    pub introduction: String,
    pub owner_id: String,
    pub tags: Vec<String>,
    pub portrait_id: Option<String>,
    pub created_at: i64,
    pub updated_at: i64,
}

/// The value of a `Dog`.
pub struct DogInfo {
    pub id: Seq<char>,
    pub name: Seq<char>,
    pub gender: Gender,
    pub breed: Option<BreedInfo>,
    pub birthday: i64,
    pub is_sterilized: bool,
    pub introduction: Seq<char>,
    pub owner_id: Seq<char>,
    pub tags: Seq<String>,
    pub portrait_id: Option<Seq<char>>,
    pub created_at: i64,
    pub updated_at: i64,
}

impl View for Dog {
    type V = DogInfo;

    open spec fn view(&self) -> DogInfo {
        DogInfo {
            id: self.id@,
            name: self.name@,
            gender: self.gender,
            breed: self.breed@,
            birthday: self.birthday,
            is_sterilized: self.is_sterilized,
            introduction: self.introduction@,
            owner_id: self.owner_id@,
            tags: self.tags@,
            portrait_id: opt_text(self.portrait_id),
            created_at: self.created_at,
            updated_at: self.updated_at,
        }
    }
}

/// A window over an ordered result: skip `skip` rows, then take at most
/// `limit`. Negative values count as zero.
#[derive(Clone, Copy, Debug, PartialEq, Eq, Structural)]
pub struct Pagination {
    pub limit: i64,
    pub skip: i64,
}

#[derive(Debug)]
pub struct BreedCreate {
    pub category: Category,
    pub name: String,
}

#[derive(Debug)]
pub struct BreedUpdate {
    pub name: Option<String>,
}

/// Criteria for breeds; an unset field sets no constraint.
#[derive(Debug)]
pub struct BreedQuery {
    pub id: Option<String>,
    pub category: Option<Category>,
    pub pagination: Option<Pagination>,
}

impl Default for BreedQuery {
    fn default() -> (r: BreedQuery)
        ensures
            r.id is None,
            r.category is None,
            r.pagination is None,
    {
        BreedQuery { id: None, category: None, pagination: None }
    }
}

/// What a caller supplies to create a dog; `breed` is the id of an existing
/// breed.
#[derive(Debug)]
pub struct DogCreate {
    pub name: String,
    pub gender: String,
    pub breed: String,
    pub birthday: i64,
    pub is_sterilized: bool,
    pub introduction: String,
    pub tags: Vec<String>,
    pub portrait_id: Option<String>,
}

/// A partial update of a dog; only the set fields change.
#[derive(Debug)]
pub struct DogUpdate {
    pub name: Option<String>,
    pub gender: Option<String>,
    pub breed: Option<String>,
    pub birthday: Option<i64>,
    pub is_sterilized: Option<bool>,
    pub introduction: Option<String>,
    pub owner_id: Option<String>,
    pub tags: Option<Vec<String>>,
    pub portrait_id: Option<String>,
}

impl Default for DogUpdate {
    fn default() -> (r: DogUpdate)
        ensures
            r.name is None,
            r.gender is None,
            r.breed is None,
            r.birthday is None,
            r.is_sterilized is None,
            r.introduction is None,
            r.owner_id is None,
            r.tags is None,
            r.portrait_id is None,
    {
        DogUpdate {
            name: None,
            gender: None,
            breed: None,
            birthday: None,
            is_sterilized: None,
            introduction: None,
            owner_id: None,
            tags: None,
            portrait_id: None,
        }
    }
}

/// Criteria for dogs; an unset field sets no constraint, and so does an empty
/// `id_in`.
#[derive(Debug)]
pub struct DogQuery {
    pub id: Option<String>,
    pub id_in: Option<Vec<String>>,
    pub owner_id: Option<String>,
    pub pagination: Option<Pagination>,
}

impl Default for DogQuery {
    fn default() -> (r: DogQuery)
        ensures
            r.id is None,
            r.id_in is None,
            r.owner_id is None,
            r.pagination is None,
    {
        DogQuery { id: None, id_in: None, owner_id: None, pagination: None }
    }
}

} // verus!
