//! Reading and changing the persons of a store.

use vstd::prelude::*;

use crate::error::{not_found, not_found_with, AppError};
use crate::ids::PersonId;
use crate::person::{Gender, Person};
use crate::sorting::{
    text_or_empty, lemma_person_order, person_order, person_order_sign, persons_sorted, PersonSort,
    SortDirection,
};
use crate::store::{AppEvent, AppStore};
use crate::strings::{copy_opt_text, lowercase, text_order};
use crate::table::{has_key, lemma_map_of_index};
use crate::time::Timestamp;

verus! {

/// The persons of `v` in order by `sort_field`; persons that compare equal keep their
/// relative order.
pub fn sort_persons(v: Vec<Person>, sort_field: &PersonSort) -> (r: Vec<Person>)
    ensures
        r@.to_multiset() == v@.to_multiset(),
        persons_sorted(r@, *sort_field),
{
    broadcast use vstd::seq_lib::group_to_multiset_ensures;

    let ghost input = v@;
    let ghost f = *sort_field;
    let mut r: Vec<Person> = Vec::new();
    let n = v.len();
    let mut i: usize = 0;
    assert(input.take(0) =~= Seq::<Person>::empty());
    while i < n
        invariant
            n == v@.len(),
            0 <= i <= n,
            input == v@,
            f == *sort_field,
            r@.to_multiset() == input.take(i as int).to_multiset(),
            persons_sorted(r@, f),
        decreases n - i,
    {
        let x = v[i].clone();
        let ghost rv = r@;
        let m = r.len();
        let mut p: usize = 0;
        while p < m && person_order_sign(&x, &r[p], sort_field) >= 0
            invariant
                m == r@.len(),
                0 <= p <= m,
                rv == r@,
                f == *sort_field,
                forall|q: int| 0 <= q < p ==> person_order(x, #[trigger] rv[q], f) >= 0,
            decreases m - p,
        {
            p = p + 1;
        }
        r.insert(p, x);
        proof {
            let s = r@;
            assert(s =~= rv.insert(p as int, x));
            assert(persons_sorted(s, f)) by {
                assert forall|a: int, b: int| 0 <= a < b < s.len() implies person_order(#[trigger] s[a], #[trigger] s[b], f) <= 0 by {
                    if a < p && b < p {
                        assert(s[a] == rv[a] && s[b] == rv[b]);
                    } else if a < p && b == p {
                        assert(s[a] == rv[a]);
                        lemma_person_order(x, rv[a], x, f);
                    } else if a < p && b > p {
                        assert(s[a] == rv[a] && s[b] == rv[b - 1]);
                    } else if a == p {
                        assert(s[b] == rv[b - 1]);
                        assert(person_order(x, rv[p as int], f) < 0);
                        if b - 1 > p {
                            assert(person_order(rv[p as int], rv[b - 1], f) <= 0);
                            lemma_person_order(x, rv[p as int], rv[b - 1], f);
                        }
                    } else {
                        assert(s[a] == rv[a - 1] && s[b] == rv[b - 1]);
                    }
                }
            }
            assert(input.take(i + 1) =~= input.take(i as int).push(input[i as int]));
            vstd::seq_lib::to_multiset_insert(rv, p as int, x);
            vstd::seq_lib::to_multiset_build(input.take(i as int), x);
        }
        i = i + 1;
    }
    assert(input.take(n as int) =~= input);
    r
}

} // verus!

verus! {

/// The part of `s` that a listing page shows: from position `offset` on, at most
/// `limit` elements; a negative offset or limit counts as 0.
pub open spec fn page_of<T>(s: Seq<T>, offset: i64, limit: i64) -> Seq<T> {
    let off: int = if offset < 0 { 0 } else { offset as int };
    let lim: int = if limit < 0 { 0 } else { limit as int };
    let start: int = if off < s.len() { off } else { s.len() as int };
    let end: int = if start + lim < s.len() { start + lim } else { s.len() as int };
    s.subrange(start, end)
}

/// `r` is a listing of the persons `all` by `f` in direction `d`: the persons of
/// `all` in order, reversed when descending, cut to the page.
pub open spec fn is_listing(
    r: Seq<Person>,
    all: Seq<Person>,
    f: PersonSort,
    d: SortDirection,
    offset: i64,
    limit: i64,
) -> bool {
    exists|sorted: Seq<Person>|
        #![trigger persons_sorted(sorted, f)]
        sorted.to_multiset() == all.to_multiset() && persons_sorted(sorted, f) && r == page_of(
            if d == SortDirection::Desc { sorted.reverse() } else { sorted },
            offset,
            limit,
        )
}

/// Every person on a listing page is one of the listed persons.
pub proof fn lemma_listing_members(
    r: Seq<Person>,
    all: Seq<Person>,
    f: PersonSort,
    d: SortDirection,
    offset: i64,
    limit: i64,
)
    requires
        is_listing(r, all, f, d, offset, limit),
    ensures
        forall|i: int| 0 <= i < r.len() ==> all.contains(#[trigger] r[i]),
{
    broadcast use vstd::seq_lib::group_to_multiset_ensures;

    let sorted = choose|sorted: Seq<Person>|
        #![trigger persons_sorted(sorted, f)]
        sorted.to_multiset() == all.to_multiset() && persons_sorted(sorted, f) && r == page_of(
            if d == SortDirection::Desc { sorted.reverse() } else { sorted },
            offset,
            limit,
        );
    let base = if d == SortDirection::Desc { sorted.reverse() } else { sorted };
    assert forall|i: int| 0 <= i < r.len() implies all.contains(#[trigger] r[i]) by {
        let off: int = if offset < 0 { 0 } else { offset as int };
        let start: int = if off < base.len() { off } else { base.len() as int };
        assert(r[i] == base[start + i]);
        let j = if d == SortDirection::Desc { sorted.len() - 1 - (start + i) } else { start + i };
        assert(base[start + i] == sorted[j]);
        assert(sorted.contains(sorted[j]));
        assert(sorted.to_multiset().count(sorted[j]) > 0);
        assert(all.to_multiset().count(sorted[j]) > 0);
    }
}

/// In a listing, no person comes after one that the chosen field puts later: by creation
/// or update time (then identifier), by last name, first name, initials or place of
/// residence ignoring case (an absent text counting as empty), or by gender (none,
/// female, male); reversed for a descending listing.
pub proof fn law_listing_order(
    r: Seq<Person>,
    all: Seq<Person>,
    f: PersonSort,
    d: SortDirection,
    offset: i64,
    limit: i64,
)
    requires
        is_listing(r, all, f, d, offset, limit),
    ensures
        forall|i: int, j: int|
            #![trigger r[i], r[j]]
            0 <= i < j < r.len() ==> {
                let a = if d == SortDirection::Asc { r[i] } else { r[j] };
                let b = if d == SortDirection::Asc { r[j] } else { r[i] };
                match f {
                    PersonSort::CreatedAt => {
                        ||| a.created_at.secs < b.created_at.secs
                        ||| (a.created_at.secs == b.created_at.secs && a.created_at.nanos < b.created_at.nanos)
                        ||| (a.created_at == b.created_at && a.id.0 <= b.id.0)
                    },
                    PersonSort::UpdatedAt => {
                        ||| a.updated_at.secs < b.updated_at.secs
                        ||| (a.updated_at.secs == b.updated_at.secs && a.updated_at.nanos < b.updated_at.nanos)
                        ||| (a.updated_at == b.updated_at && a.id.0 <= b.id.0)
                    },
                    PersonSort::LastName => text_order(lowercase(a.last_name@), lowercase(b.last_name@)) <= 0,
                    PersonSort::FirstName => text_order(
                        lowercase(match a.first_name { Some(t) => t@, None => Seq::empty() }),
                        lowercase(match b.first_name { Some(t) => t@, None => Seq::empty() }),
                    ) <= 0,
                    PersonSort::Initials => text_order(lowercase(a.initials@), lowercase(b.initials@)) <= 0,
                    PersonSort::PlaceOfResidence => text_order(
                        lowercase(match a.place_of_residence { Some(t) => t@, None => Seq::empty() }),
                        lowercase(match b.place_of_residence { Some(t) => t@, None => Seq::empty() }),
                    ) <= 0,
                    PersonSort::Gender => (match a.gender { None => 0int, Some(Gender::Female) => 1int, Some(Gender::Male) => 2int })
                        <= (match b.gender { None => 0int, Some(Gender::Female) => 1int, Some(Gender::Male) => 2int }),
                }
            },
{
    let sorted = choose|sorted: Seq<Person>|
        #![trigger persons_sorted(sorted, f)]
        sorted.to_multiset() == all.to_multiset() && persons_sorted(sorted, f) && r == page_of(
            if d == SortDirection::Desc { sorted.reverse() } else { sorted },
            offset,
            limit,
        );
    let base = if d == SortDirection::Desc { sorted.reverse() } else { sorted };
    let off: int = if offset < 0 { 0 } else { offset as int };
    let start: int = if off < base.len() { off } else { base.len() as int };
    reveal_strlit("");
    assert(""@ =~= Seq::<char>::empty());
    assert forall|i: int, j: int| #![trigger r[i], r[j]] 0 <= i < j < r.len() implies {
        let a = if d == SortDirection::Asc { r[i] } else { r[j] };
        let b = if d == SortDirection::Asc { r[j] } else { r[i] };
        match f {
            PersonSort::CreatedAt => {
                ||| a.created_at.secs < b.created_at.secs
                ||| (a.created_at.secs == b.created_at.secs && a.created_at.nanos < b.created_at.nanos)
                ||| (a.created_at == b.created_at && a.id.0 <= b.id.0)
            },
            PersonSort::UpdatedAt => {
                ||| a.updated_at.secs < b.updated_at.secs
                ||| (a.updated_at.secs == b.updated_at.secs && a.updated_at.nanos < b.updated_at.nanos)
                ||| (a.updated_at == b.updated_at && a.id.0 <= b.id.0)
            },
            PersonSort::LastName => text_order(lowercase(a.last_name@), lowercase(b.last_name@)) <= 0,
            PersonSort::FirstName => text_order(
                lowercase(match a.first_name { Some(t) => t@, None => Seq::empty() }),
                lowercase(match b.first_name { Some(t) => t@, None => Seq::empty() }),
            ) <= 0,
            PersonSort::Initials => text_order(lowercase(a.initials@), lowercase(b.initials@)) <= 0,
            PersonSort::PlaceOfResidence => text_order(
                lowercase(match a.place_of_residence { Some(t) => t@, None => Seq::empty() }),
                lowercase(match b.place_of_residence { Some(t) => t@, None => Seq::empty() }),
            ) <= 0,
            PersonSort::Gender => (match a.gender { None => 0int, Some(Gender::Female) => 1int, Some(Gender::Male) => 2int })
                <= (match b.gender { None => 0int, Some(Gender::Female) => 1int, Some(Gender::Male) => 2int }),
        }
    } by {
        assert(r[i] == base[start + i]);
        assert(r[j] == base[start + j]);
        let a = if d == SortDirection::Asc { r[i] } else { r[j] };
        let b = if d == SortDirection::Asc { r[j] } else { r[i] };
        if d == SortDirection::Desc {
            let n = sorted.len() as int;
            assert(base[start + i] == sorted[n - 1 - (start + i)]);
            assert(base[start + j] == sorted[n - 1 - (start + j)]);
            assert(person_order(sorted[n - 1 - (start + j)], sorted[n - 1 - (start + i)], f) <= 0);
        } else {
            assert(person_order(sorted[start + i], sorted[start + j], f) <= 0);
        }
        assert(person_order(a, b, f) <= 0);
        assert(text_or_empty(a.first_name) == match a.first_name { Some(t) => t@, None => Seq::<char>::empty() });
        assert(text_or_empty(b.first_name) == match b.first_name { Some(t) => t@, None => Seq::<char>::empty() });
        assert(text_or_empty(a.place_of_residence) == match a.place_of_residence { Some(t) => t@, None => Seq::<char>::empty() });
        assert(text_or_empty(b.place_of_residence) == match b.place_of_residence { Some(t) => t@, None => Seq::<char>::empty() });
    }
}

/// The elements of `v` in reverse order.
fn reversed(v: Vec<Person>) -> (r: Vec<Person>)
    ensures
        r@ == v@.reverse(),
{
    let mut r: Vec<Person> = Vec::new();
    let n = v.len();
    let mut i: usize = n;
    while i > 0
        invariant
            n == v@.len(),
            0 <= i <= n,
            r@ == v@.subrange(i as int, n as int).reverse(),
        decreases i,
    {
        i = i - 1;
        r.push(v[i].clone());
        assert(r@ =~= v@.subrange(i as int, n as int).reverse());
    }
    assert(v@.subrange(0, n as int) =~= v@);
    r
}

/// The page of `v` that `offset` and `limit` select (see `page_of`).
fn page(v: Vec<Person>, offset: i64, limit: i64) -> (r: Vec<Person>)
    ensures
        r@ == page_of(v@, offset, limit),
{
    let n = v.len();
    let start: usize = if offset <= 0 {
        0
    } else if offset as u64 >= n as u64 {
        n
    } else {
        offset as usize
    };
    let room = n - start;
    let count: usize = if limit <= 0 {
        0
    } else if limit as u64 >= room as u64 {
        room
    } else {
        limit as usize
    };
    let end = start + count;
    let mut r: Vec<Person> = Vec::new();
    let mut i = start;
    while i < end
        invariant
            n == v@.len(),
            start <= i <= end <= n,
            r@ == v@.subrange(start as int, i as int),
        decreases end - i,
    {
        r.push(v[i].clone());
        i = i + 1;
        assert(r@ =~= v@.subrange(start as int, i as int));
    }
    r
}

impl Person {
    /// Records the person, stamping creation and update with the current time.
    pub fn create(&self, store: &mut AppStore) -> (r: Result<Person, AppError>)
        requires
            old(store).wf(),
        ensures
            r matches Ok(p) && p == (Person { created_at: p.created_at, updated_at: p.created_at, ..*self })
                && AppStore::applied(&*old(store), &*final(store), AppEvent::CreatePerson(p)),
    {
        let now = Timestamp::now();
        let mut person = self.clone();
        person.created_at = now;
        person.updated_at = now;
        store.update(AppEvent::CreatePerson(person.clone()))?;
        Ok(person)
    }

    /// Replaces the person's details, keeping the stored address and creation time and
    /// stamping the update with the current time. `GenericNotFound` when the person is
    /// not stored; the store is then unchanged.
    pub fn update(&self, store: &mut AppStore) -> (r: Result<Person, AppError>)
        requires
            old(store).wf(),
        ensures
            r is Ok == old(store).person_map().contains_key(self.id.0),
            r matches Err(e) ==> e is GenericNotFound && AppStore::unchanged(&*old(store), &*final(store)),
            r matches Ok(p) ==> {
                let ex = old(store).person_map()[self.id.0];
                &&& p == (Person {
                    locality: ex.locality,
                    postal_code: ex.postal_code,
                    house_number: ex.house_number,
                    house_number_addition: ex.house_number_addition,
                    street_name: ex.street_name,
                    created_at: ex.created_at,
                    updated_at: p.updated_at,
                    ..*self
                })
                &&& AppStore::applied(&*old(store), &*final(store), AppEvent::UpdatePerson(p))
            },
    {
        let existing = store.get_person(self.id)?;
        let mut updated = self.clone();
        updated.locality = existing.locality;
        updated.postal_code = existing.postal_code;
        updated.house_number = existing.house_number;
        updated.house_number_addition = existing.house_number_addition;
        updated.street_name = existing.street_name;
        updated.created_at = existing.created_at;
        updated.updated_at = Timestamp::now();
        store.update(AppEvent::UpdatePerson(updated.clone()))?;
        Ok(updated)
    }

    /// Replaces the stored person's address by this one's, stamping the update with the
    /// current time. `GenericNotFound` when the person is not stored; the store is then
    /// unchanged.
    pub fn update_address(&self, store: &mut AppStore) -> (r: Result<Person, AppError>)
        requires
            old(store).wf(),
        ensures
            r is Ok == old(store).person_map().contains_key(self.id.0),
            r matches Err(e) ==> e is GenericNotFound && AppStore::unchanged(&*old(store), &*final(store)),
            r matches Ok(p) ==> {
                let ex = old(store).person_map()[self.id.0];
                &&& p == (Person {
                    locality: self.locality,
                    postal_code: self.postal_code,
                    house_number: self.house_number,
                    house_number_addition: self.house_number_addition,
                    street_name: self.street_name,
                    updated_at: p.updated_at,
                    ..ex
                })
                &&& AppStore::applied(&*old(store), &*final(store), AppEvent::UpdatePerson(p))
            },
    {
        let existing = store.get_person(self.id)?;
        let mut updated = existing;
        updated.locality = copy_opt_text(&self.locality);
        updated.postal_code = copy_opt_text(&self.postal_code);
        updated.house_number = copy_opt_text(&self.house_number);
        updated.house_number_addition = copy_opt_text(&self.house_number_addition);
        updated.street_name = copy_opt_text(&self.street_name);
        updated.updated_at = Timestamp::now();
        store.update(AppEvent::UpdatePerson(updated.clone()))?;
        Ok(updated)
    }

    /// Removes the person.
    pub fn delete(&self, store: &mut AppStore) -> (r: Result<(), AppError>)
        requires
            old(store).wf(),
        ensures
            r is Ok,
            AppStore::applied(&*old(store), &*final(store), AppEvent::DeletePerson(self.id)),
    {
        store.update(AppEvent::DeletePerson(self.id))?;
        Ok(())
    }

    /// Removes the person with this identifier.
    pub fn delete_by_id(store: &mut AppStore, person_id: PersonId) -> (r: Result<(), AppError>)
        requires
            old(store).wf(),
        ensures
            r is Ok,
            AppStore::applied(&*old(store), &*final(store), AppEvent::DeletePerson(person_id)),
    {
        store.update(AppEvent::DeletePerson(person_id))?;
        Ok(())
    }

    /// The number of persons.
    pub fn count(store: &AppStore) -> (n: usize)
        ensures
            n == store.state().persons.len(),
    {
        store.get_person_count()
    }

    /// One page of the persons in order by `sort_field`, descending when asked: from
    /// position `offset` on, at most `limit` of them.
    pub fn list(
        store: &AppStore,
        limit: i64,
        offset: i64,
        sort_field: &PersonSort,
        sort_direction: &SortDirection,
    ) -> (r: Vec<Person>)
        ensures
            is_listing(r@, store.state().persons, *sort_field, *sort_direction, offset, limit),
    {
        let sorted = sort_persons(store.get_persons(), sort_field);
        let ghost s = sorted@;
        let ordered = match sort_direction {
            SortDirection::Desc => reversed(sorted),
            SortDirection::Asc => sorted,
        };
        let r = page(ordered, offset, limit);
        assert(persons_sorted(s, *sort_field));
        r
    }
}

/// The number of persons.
pub fn count_persons(store: &AppStore) -> (n: usize)
    ensures
        n == store.state().persons.len(),
{
    store.get_person_count()
}

/// One page of the persons in order by `sort_field` (see `Person::list`).
pub fn list_persons(
    store: &AppStore,
    limit: i64,
    offset: i64,
    sort_field: &PersonSort,
    sort_direction: &SortDirection,
) -> (r: Vec<Person>)
    ensures
        is_listing(r@, store.state().persons, *sort_field, *sort_direction, offset, limit),
{
    Person::list(store, limit, offset, sort_field, sort_direction)
}

/// The person with this identifier, if stored.
pub fn get_person(store: &AppStore, person_id: PersonId) -> (r: Option<Person>)
    requires
        store.wf(),
    ensures
        r is Some == store.person_map().contains_key(person_id.0),
        r matches Some(p) ==> p == store.person_map()[person_id.0],
{
    let persons = store.get_persons();
    let n = persons.len();
    let mut i: usize = 0;
    while i < n
        invariant
            n == persons@.len(),
            persons@ == store.state().persons,
            store.wf(),
            0 <= i <= n,
            forall|j: int| 0 <= j < i ==> #[trigger] persons@[j].id != person_id,
        decreases n - i,
    {
        if persons[i].id == person_id {
            proof {
                lemma_map_of_index::<Person>(persons@, i as int);
            }
            return Some(persons[i].clone());
        }
        i = i + 1;
    }
    assert(!has_key::<Person>(persons@, person_id.0));
    None
}

/// Records the person (see `Person::create`).
pub fn create_person(store: &mut AppStore, new_person: &Person) -> (r: Result<Person, AppError>)
    requires
        old(store).wf(),
    ensures
        r matches Ok(p) && p == (Person { created_at: p.created_at, updated_at: p.created_at, ..*new_person })
            && AppStore::applied(&*old(store), &*final(store), AppEvent::CreatePerson(p)),
{
    new_person.create(store)
}

/// Replaces a stored person's details (see `Person::update`); `NotFound("person not
/// found")` when the person is not stored, the store then unchanged.
pub fn update_person(store: &mut AppStore, updated_person: &Person) -> (r: Result<Person, AppError>)
    requires
        old(store).wf(),
    ensures
        r is Ok == old(store).person_map().contains_key(updated_person.id.0),
        r matches Err(e) ==> not_found_with(e, "person not found"@)
            && AppStore::unchanged(&*old(store), &*final(store)),
        r matches Ok(p) ==> {
            let ex = old(store).person_map()[updated_person.id.0];
            &&& p == (Person {
                locality: ex.locality,
                postal_code: ex.postal_code,
                house_number: ex.house_number,
                house_number_addition: ex.house_number_addition,
                street_name: ex.street_name,
                created_at: ex.created_at,
                updated_at: p.updated_at,
                ..*updated_person
            })
            &&& AppStore::applied(&*old(store), &*final(store), AppEvent::UpdatePerson(p))
        },
{
    if get_person(store, updated_person.id).is_none() {
        return Err(not_found("person not found"));
    }
    updated_person.update(store)
}

/// Replaces a stored person's address (see `Person::update_address`); `NotFound("person
/// not found")` when the person is not stored, the store then unchanged.
pub fn update_address(store: &mut AppStore, updated_person: &Person) -> (r: Result<Person, AppError>)
    requires
        old(store).wf(),
    ensures
        r is Ok == old(store).person_map().contains_key(updated_person.id.0),
        r matches Err(e) ==> not_found_with(e, "person not found"@)
            && AppStore::unchanged(&*old(store), &*final(store)),
        r matches Ok(p) ==> {
            let ex = old(store).person_map()[updated_person.id.0];
            &&& p == (Person {
                locality: updated_person.locality,
                postal_code: updated_person.postal_code,
                house_number: updated_person.house_number,
                house_number_addition: updated_person.house_number_addition,
                street_name: updated_person.street_name,
                updated_at: p.updated_at,
                ..ex
            })
            &&& AppStore::applied(&*old(store), &*final(store), AppEvent::UpdatePerson(p))
        },
{
    if get_person(store, updated_person.id).is_none() {
        return Err(not_found("person not found"));
    }
    updated_person.update_address(store)
}

/// Removes the person with this identifier.
pub fn remove_person(store: &mut AppStore, person_id: PersonId) -> (r: Result<(), AppError>)
    requires
        old(store).wf(),
    ensures
        r is Ok,
        AppStore::applied(&*old(store), &*final(store), AppEvent::DeletePerson(person_id)),
{
    Person::delete_by_id(store, person_id)
}

} // verus!
