//! What the person pages do to the store once a form has been accepted.

use vstd::prelude::*;

use crate::candidate_list::{lemma_without_person, CandidateListView};
use crate::candidate_lists::{on_some_list, remove_candidate, removed_from_lists};
use crate::error::AppError;
use crate::ids::PersonId;
use crate::person::Person;
use crate::persons::remove_person;
use crate::store::{AppEvent, AppStore};
use crate::table::lemma_remove;

verus! {

/// After a person has been taken off the lists, no list has them.
pub proof fn law_removed_person_is_on_no_list(
    before: Map<u128, CandidateListView>,
    after: Map<u128, CandidateListView>,
    p: PersonId,
)
    requires
        removed_from_lists(before, after, p),
    ensures
        forall|k: u128| #[trigger] after.contains_key(k) ==> !after[k].candidates.contains(p),
{
    assert forall|k: u128| #[trigger] after.contains_key(k) implies !after[k].candidates.contains(p) by {
        assert(before.contains_key(k));
        lemma_without_person(before[k].candidates, p);
    }
}

/// Deletes the person: first takes them off every list that has them (stamping each such
/// list with the current time), then removes their record. Afterwards neither the
/// persons nor any list has them.
#[verifier::rlimit(40)]
pub fn delete_person(store: &mut AppStore, person_id: PersonId) -> (r: Result<(), AppError>)
    requires
        old(store).wf(),
    ensures
        r is Ok,
        final(store).wf(),
        final(store).person_map() == old(store).person_map().remove(person_id.0),
        final(store).list_map().dom() == old(store).list_map().dom(),
        on_some_list(old(store).list_map(), person_id)
            ==> removed_from_lists(old(store).list_map(), final(store).list_map(), person_id),
        !on_some_list(old(store).list_map(), person_id) ==> final(store).list_map() == old(store).list_map(),
        forall|k: u128| #[trigger] final(store).list_map().contains_key(k) ==> !final(store).list_map()[k].candidates.contains(person_id),
{
    match remove_candidate(store, person_id) {
        Err(AppError::NotFound(_)) => {},
        Err(e) => {
            return Err(e);
        },
        Ok(()) => {},
    }
    proof {
        lemma_remove::<Person>(store.state().persons, person_id.0);
        if on_some_list(old(store).list_map(), person_id) {
            law_removed_person_is_on_no_list(old(store).list_map(), store.list_map(), person_id);
        } else {
            assert forall|k: u128| #[trigger] store.list_map().contains_key(k) implies !store.list_map()[k].candidates.contains(person_id) by {
                if store.list_map()[k].candidates.contains(person_id) {
                    assert(on_some_list(old(store).list_map(), person_id));
                }
            }
        }
    }
    remove_person(store, person_id)
}

/// Stores the accepted details of a person (see `Person::update`).
pub fn update_person(store: &mut AppStore, person: &Person) -> (r: Result<Person, AppError>)
    requires
        old(store).wf(),
    ensures
        r is Ok == old(store).person_map().contains_key(person.id.0),
        r matches Err(e) ==> e is GenericNotFound && AppStore::unchanged(&*old(store), &*final(store)),
        r matches Ok(p) ==> {
            let ex = old(store).person_map()[person.id.0];
            &&& p == (Person {
                locality: ex.locality,
                postal_code: ex.postal_code,
                house_number: ex.house_number,
                house_number_addition: ex.house_number_addition,
                street_name: ex.street_name,
                created_at: ex.created_at,
                updated_at: p.updated_at,
                ..*person
            })
            &&& AppStore::applied(&*old(store), &*final(store), AppEvent::UpdatePerson(p))
        },
{
    person.update(store)
}

} // verus!
