//! What the candidate pages of a list do to the store once a form has been accepted.

use vstd::prelude::*;

use crate::candidate_list::{with_candidates, Candidate, CandidateList, FullCandidateList};
use crate::candidate_lists::is_first_position;
use crate::candidate_lists::append_candidate_to_list;
use crate::error::{not_found_with, AppError};
use crate::ids::PersonId;
use crate::person::Person;
use crate::store::{apply_event, AppEvent, AppStore};
use crate::table::{lemma_replace, lemma_upsert};
use crate::time::Timestamp;

verus! {

/// The form that picks an existing person to add to a list.
#[derive(Debug)]
pub struct AddPersonForm {
    pub person_id: PersonId,
}

/// Adds the chosen person at the end of the list, unless the list as shown already has
/// them or no such person is stored; then nothing changes.
/// `NotFound("candidate list not found")` when the list is no longer stored.
pub fn add_person_to_candidate_list(store: &mut AppStore, full_list: &FullCandidateList, form: &AddPersonForm) -> (r: Result<(), AppError>)
    requires
        old(store).wf(),
    ensures
        (full_list.list.candidates@.contains(form.person_id) || !old(store).person_map().contains_key(form.person_id.0))
            ==> r is Ok && AppStore::unchanged(&*old(store), &*final(store)),
        !(full_list.list.candidates@.contains(form.person_id) || !old(store).person_map().contains_key(form.person_id.0)) ==> {
            &&& r is Ok == old(store).list_map().contains_key(full_list.list.id.0)
            &&& r matches Err(e) ==> not_found_with(e, "candidate list not found"@)
                && AppStore::unchanged(&*old(store), &*final(store))
            &&& r is Ok ==> {
                let l = old(store).list_map()[full_list.list.id.0];
                if l.candidates.contains(form.person_id) {
                    AppStore::unchanged(&*old(store), &*final(store))
                } else {
                    exists|t: Timestamp| AppStore::list_updated(
                        &*old(store),
                        &*final(store),
                        #[trigger] with_candidates(l, l.candidates.push(form.person_id), t),
                    )
                }
            }
        },
{
    let person_exists = store.get_person(form.person_id).is_ok();
    if full_list.contains(form.person_id) || !person_exists {
        return Ok(());
    }
    append_candidate_to_list(store, full_list.id(), form.person_id)
}

/// Records a new person (created and updated now), adds them at the end of the list and
/// returns them as its candidate. `NotFound("candidate list not found")` when the list is
/// not stored; the person is recorded all the same.
#[verifier::rlimit(40)]
pub fn create_person_candidate_list(store: &mut AppStore, full_list: &FullCandidateList, person: Person) -> (r: Result<Candidate, AppError>)
    requires
        old(store).wf(),
    ensures
        final(store).wf(),
        r is Ok == old(store).list_map().contains_key(full_list.list.id.0),
        r matches Err(e) ==> not_found_with(e, "candidate list not found"@)
            && exists|t: Timestamp| final(store).state() == apply_event(
                old(store).state(),
                AppEvent::CreatePerson(#[trigger] Person::with_times(person, t, t)),
            ),
        r matches Ok(c) ==> {
            &&& c.list_id == full_list.list.id
            &&& c.person == Person::with_times(person, c.person.created_at, c.person.created_at)
            &&& final(store).person_map()[person.id.0] == c.person
            &&& final(store).list_map().contains_key(full_list.list.id.0)
            &&& is_first_position(final(store).list_map()[full_list.list.id.0].candidates, person.id, c.position as int)
        },
{
    let list_id = full_list.id();
    let now = Timestamp::now();
    let ghost original = person;
    let mut person = person;
    person.created_at = now;
    person.updated_at = now;
    let ghost p = person;
    proof {
        lemma_upsert::<Person>(store.state().persons, p);
    }
    store.update(AppEvent::CreatePerson(person.clone()))?;
    let ghost st1 = *store;
    assert(p == Person::with_times(original, now, now));
    assert(store.person_map()[p.id.0] == p);
    match CandidateList::append_candidate(store, list_id, person.id) {
        Ok(()) => {},
        Err(e) => {
            return Err(e);
        },
    }
    proof {
        let l = st1.list_map()[list_id.0];
        if !l.candidates.contains(p.id) {
            let t = choose|t: Timestamp| AppStore::list_updated(&st1, &*store, #[trigger] with_candidates(l, l.candidates.push(p.id), t));
            lemma_replace::<CandidateList>(st1.state().candidate_lists, with_candidates(l, l.candidates.push(p.id), t));
            assert(l.candidates.push(p.id)[l.candidates.len() as int] == p.id);
            assert(store.list_map()[list_id.0].candidates.contains(p.id));
        }
    }
    CandidateList::get_candidate(store, list_id, person.id)
}

/// Stores the person's accepted address change, stamped with the current time.
pub fn update_person_address(store: &mut AppStore, person: Person) -> (r: Result<(), AppError>)
    requires
        old(store).wf(),
    ensures
        r is Ok,
        exists|t: Timestamp| AppStore::applied(&*old(store), &*final(store), AppEvent::UpdatePerson(
            #[trigger] Person::with_update_time(person, t),
        )),
{
    store_person_update(store, person)
}

/// Stores the person's accepted details, stamped with the current time.
pub fn update_person(store: &mut AppStore, person: Person) -> (r: Result<(), AppError>)
    requires
        old(store).wf(),
    ensures
        r is Ok,
        exists|t: Timestamp| AppStore::applied(&*old(store), &*final(store), AppEvent::UpdatePerson(
            #[trigger] Person::with_update_time(person, t),
        )),
{
    store_person_update(store, person)
}

/// Stores `person` as an update stamped with the current time.
fn store_person_update(store: &mut AppStore, person: Person) -> (r: Result<(), AppError>)
    requires
        old(store).wf(),
    ensures
        r is Ok,
        exists|t: Timestamp| AppStore::applied(&*old(store), &*final(store), AppEvent::UpdatePerson(
            #[trigger] Person::with_update_time(person, t),
        )),
{
    let ghost original = person;
    let mut person = person;
    person.updated_at = Timestamp::now();
    let ghost p = person;
    store.update(AppEvent::UpdatePerson(person))?;
    assert(p == Person::with_update_time(original, p.updated_at));
    Ok(())
}

} // verus!
