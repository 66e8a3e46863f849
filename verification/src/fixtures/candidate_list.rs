//! The demonstration candidate list.

use vstd::prelude::*;

use crate::candidate_list::{all_known, with_candidates, CandidateList, CandidateListView};
use crate::candidate_lists::only_lists_changed;
use crate::table::map_of;
use crate::candidate_lists::{create_candidate_list, update_candidate_list_order};
use crate::district::{all_districts, ElectionConfig};
use crate::error::AppError;
use crate::ids::{uuid_v5_oid, CandidateListId, PersonId};
use crate::person::Person;
use crate::persons::{is_listing, lemma_listing_members, list_persons};
use crate::sorting::{PersonSort, SortDirection};
use crate::store::AppStore;
use crate::table::lemma_map_of_index;
use crate::time::Timestamp;

verus! {

/// How many persons the demonstration list holds at most.
pub const FIXTURE_CANDIDATE_LIST_SIZE: usize = 55;

/// The identifiers of `persons`, in order.
fn collect_person_ids(persons: &Vec<Person>) -> (ids: Vec<PersonId>)
    ensures
        ids@ == persons@.map_values(|p: Person| p.id),
{
    let mut ids: Vec<PersonId> = Vec::new();
    let n = persons.len();
    let mut i: usize = 0;
    while i < n
        invariant
            n == persons@.len(),
            0 <= i <= n,
            ids@ == persons@.take(i as int).map_values(|p: Person| p.id),
        decreases n - i,
    {
        ids.push(persons[i].id);
        i = i + 1;
        assert(ids@ =~= persons@.take(i as int).map_values(|p: Person| p.id));
    }
    assert(persons@.take(n as int) =~= persons@);
    ids
}

/// The identifier of the demonstration list: the version-5 identifier of
/// `the_one_and_only_fixture_candidate_list`.
pub open spec fn fixture_list_key() -> u128 {
    uuid_v5_oid(vstd::utf8::encode_utf8("the_one_and_only_fixture_candidate_list"@))
}

/// The demonstration list: every district of the election, the persons of `page` as its
/// candidates in that order, created at `created` and updated at `updated`.
pub open spec fn fixture_list(page: Seq<Person>, created: Timestamp, updated: Timestamp) -> CandidateListView {
    CandidateListView {
        id: CandidateListId(fixture_list_key()),
        electoral_districts: all_districts(),
        candidates: page.map_values(|p: Person| p.id),
        created_at: created,
        updated_at: updated,
    }
}

/// Creates the demonstration list: every district of the election, with the first 55
/// persons by creation time as its candidates, in that order. It takes the place of a
/// list with its identifier; nothing else changes.
#[verifier::rlimit(60)]
pub fn load(store: &mut AppStore) -> (r: Result<(), AppError>)
    requires
        old(store).wf(),
    ensures
        r is Ok,
        final(store).wf(),
        only_lists_changed(old(store).state(), final(store).state()),
        exists|page: Seq<Person>, created: Timestamp, updated: Timestamp|
            #![trigger fixture_list(page, created, updated)]
            is_listing(page, old(store).state().persons, PersonSort::CreatedAt, SortDirection::Asc, 0, 55)
                && final(store).list_map() == old(store).list_map().insert(
                    fixture_list_key(),
                    fixture_list(page, created, updated),
                ),
{
    let electoral_districts = ElectionConfig::EK2027.electoral_districts();
    let persons = list_persons(store, FIXTURE_CANDIDATE_LIST_SIZE as i64, 0, &PersonSort::CreatedAt, &SortDirection::Asc);
    let person_ids = collect_person_ids(&persons);
    let id = CandidateListId::from_name("the_one_and_only_fixture_candidate_list".as_bytes());
    let now = Timestamp::now();
    let candidate_list = CandidateList { id, electoral_districts, candidates: Vec::new(), created_at: now, updated_at: now };
    proof {
        lemma_listing_members(persons@, store.state().persons, PersonSort::CreatedAt, SortDirection::Asc, 0, 55);
        assert forall|i: int| 0 <= i < person_ids@.len() implies store.person_map().contains_key(#[trigger] person_ids@[i].0) by {
            assert(store.state().persons.contains(persons@[i]));
            let j = choose|j: int| 0 <= j < store.state().persons.len() && store.state().persons[j] == persons@[i];
            lemma_map_of_index::<Person>(store.state().persons, j);
        }
    }
    let ghost s0 = store.state();
    let created = create_candidate_list(store, &candidate_list)?;
    let ghost st1 = *store;
    proof {
        crate::table::lemma_upsert::<CandidateList>(s0.candidate_lists, created@);
    }
    assert(all_known(person_ids@, store.person_map()));
    let full = update_candidate_list_order(store, created.id, person_ids.as_slice())?;
    proof {
        let nl = with_candidates(created@, person_ids@, full.list.updated_at);
        crate::table::lemma_replace::<CandidateList>(st1.state().candidate_lists, nl);
        assert(nl == fixture_list(persons@, created.created_at, full.list.updated_at));
        assert(store.list_map() =~= map_of::<CandidateList>(s0.candidate_lists).insert(
            fixture_list_key(),
            fixture_list(persons@, created.created_at, full.list.updated_at),
        ));
        assert(is_listing(persons@, s0.persons, PersonSort::CreatedAt, SortDirection::Asc, 0, 55));
    }
    Ok(())
}

} // verus!
