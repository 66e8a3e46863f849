//! What every change to the store guarantees, stated over the store's maps of records.

use vstd::prelude::*;

use crate::candidate_list::{with_candidates, CandidateList, CandidateListView};
use crate::ids::PersonId;
use crate::person::Person;
use crate::political_group::{AuthorisedAgent, ListSubmitter, SubstituteSubmitter};
use crate::store::{apply_event, store_wf, AppEvent, AppStore, StoreView};
use crate::table::{lemma_remove, lemma_replace, lemma_upsert, map_of};
use crate::time::Timestamp;

verus! {

/// A create event makes its record the one stored under its identifier, leaving the other
/// records as they were; setting the political group makes it the group.
pub proof fn law_create_then_read(v: StoreView, e: AppEvent)
    requires
        store_wf(v),
    ensures
        match e {
            AppEvent::UpdatePoliticalGroup(g) => apply_event(v, e).political_group == g,
            AppEvent::CreatePerson(p) => map_of::<Person>(apply_event(v, e).persons)
                == map_of::<Person>(v.persons).insert(p.id.0, p),
            AppEvent::CreateCandidateList(l) => map_of::<CandidateList>(apply_event(v, e).candidate_lists)
                == map_of::<CandidateList>(v.candidate_lists).insert(l.id.0, l@),
            AppEvent::CreateAuthorisedAgent(a) => map_of::<AuthorisedAgent>(apply_event(v, e).authorised_agents)
                == map_of::<AuthorisedAgent>(v.authorised_agents).insert(a.id.0, a),
            AppEvent::CreateListSubmitter(s) => map_of::<ListSubmitter>(apply_event(v, e).list_submitters)
                == map_of::<ListSubmitter>(v.list_submitters).insert(s.id.0, s),
            AppEvent::CreateSubstituteSubmitter(s) => map_of::<SubstituteSubmitter>(apply_event(v, e).substitute_submitters)
                == map_of::<SubstituteSubmitter>(v.substitute_submitters).insert(s.id.0, s),
            _ => true,
        },
{
    match e {
        AppEvent::CreatePerson(p) => lemma_upsert::<Person>(v.persons, p),
        AppEvent::CreateCandidateList(l) => lemma_upsert::<CandidateList>(v.candidate_lists, l@),
        AppEvent::CreateAuthorisedAgent(a) => lemma_upsert::<AuthorisedAgent>(v.authorised_agents, a),
        AppEvent::CreateListSubmitter(s) => lemma_upsert::<ListSubmitter>(v.list_submitters, s),
        AppEvent::CreateSubstituteSubmitter(s) => lemma_upsert::<SubstituteSubmitter>(v.substitute_submitters, s),
        _ => {},
    }
}

/// An update event replaces the stored record with its identifier; when there is none it
/// changes nothing at all.
pub proof fn law_update_replaces_existing_only(v: StoreView, e: AppEvent)
    requires
        store_wf(v),
    ensures
        match e {
            AppEvent::UpdatePerson(p) => if map_of::<Person>(v.persons).contains_key(p.id.0) {
                map_of::<Person>(apply_event(v, e).persons) == map_of::<Person>(v.persons).insert(p.id.0, p)
            } else {
                apply_event(v, e) == v
            },
            AppEvent::UpdateCandidateList(l) => if map_of::<CandidateList>(v.candidate_lists).contains_key(l.id.0) {
                map_of::<CandidateList>(apply_event(v, e).candidate_lists)
                    == map_of::<CandidateList>(v.candidate_lists).insert(l.id.0, l@)
            } else {
                apply_event(v, e) == v
            },
            AppEvent::UpdateAuthorisedAgent(a) => if map_of::<AuthorisedAgent>(v.authorised_agents).contains_key(a.id.0) {
                map_of::<AuthorisedAgent>(apply_event(v, e).authorised_agents)
                    == map_of::<AuthorisedAgent>(v.authorised_agents).insert(a.id.0, a)
            } else {
                apply_event(v, e) == v
            },
            AppEvent::UpdateListSubmitter(s) => if map_of::<ListSubmitter>(v.list_submitters).contains_key(s.id.0) {
                map_of::<ListSubmitter>(apply_event(v, e).list_submitters)
                    == map_of::<ListSubmitter>(v.list_submitters).insert(s.id.0, s)
            } else {
                apply_event(v, e) == v
            },
            AppEvent::UpdateSubstituteSubmitter(s) => if map_of::<SubstituteSubmitter>(v.substitute_submitters).contains_key(s.id.0) {
                map_of::<SubstituteSubmitter>(apply_event(v, e).substitute_submitters)
                    == map_of::<SubstituteSubmitter>(v.substitute_submitters).insert(s.id.0, s)
            } else {
                apply_event(v, e) == v
            },
            _ => true,
        },
{
    match e {
        AppEvent::UpdatePerson(p) => {
            lemma_replace::<Person>(v.persons, p);
            lemma_missing_key_replace_is_identity::<Person>(v.persons, p);
        },
        AppEvent::UpdateCandidateList(l) => {
            lemma_replace::<CandidateList>(v.candidate_lists, l@);
            lemma_missing_key_replace_is_identity::<CandidateList>(v.candidate_lists, l@);
        },
        AppEvent::UpdateAuthorisedAgent(a) => {
            lemma_replace::<AuthorisedAgent>(v.authorised_agents, a);
            lemma_missing_key_replace_is_identity::<AuthorisedAgent>(v.authorised_agents, a);
        },
        AppEvent::UpdateListSubmitter(s) => {
            lemma_replace::<ListSubmitter>(v.list_submitters, s);
            lemma_missing_key_replace_is_identity::<ListSubmitter>(v.list_submitters, s);
        },
        AppEvent::UpdateSubstituteSubmitter(s) => {
            lemma_replace::<SubstituteSubmitter>(v.substitute_submitters, s);
            lemma_missing_key_replace_is_identity::<SubstituteSubmitter>(v.substitute_submitters, s);
        },
        _ => {},
    }
}

/// Replacing a record whose key is absent leaves the sequence as it was.
proof fn lemma_missing_key_replace_is_identity<T: crate::table::Keyed>(s: Seq<T::V>, x: T::V)
    requires
        crate::table::unique_keys::<T>(s),
    ensures
        !map_of::<T>(s).contains_key(T::key_of(x)) ==> crate::table::replace_seq::<T>(s, x) == s,
{
}

/// A delete event removes the record with its identifier, if there is one, and nothing
/// else of that kind.
pub proof fn law_delete_then_absent(v: StoreView, e: AppEvent)
    requires
        store_wf(v),
    ensures
        match e {
            AppEvent::DeletePerson(id) => map_of::<Person>(apply_event(v, e).persons)
                == map_of::<Person>(v.persons).remove(id.0),
            AppEvent::DeleteCandidateList(id) => map_of::<CandidateList>(apply_event(v, e).candidate_lists)
                == map_of::<CandidateList>(v.candidate_lists).remove(id.0),
            AppEvent::DeleteAuthorisedAgent(id) => map_of::<AuthorisedAgent>(apply_event(v, e).authorised_agents)
                == map_of::<AuthorisedAgent>(v.authorised_agents).remove(id.0),
            AppEvent::DeleteListSubmitter(id) => map_of::<ListSubmitter>(apply_event(v, e).list_submitters)
                == map_of::<ListSubmitter>(v.list_submitters).remove(id.0),
            AppEvent::DeleteSubstituteSubmitter(id) => map_of::<SubstituteSubmitter>(apply_event(v, e).substitute_submitters)
                == map_of::<SubstituteSubmitter>(v.substitute_submitters).remove(id.0),
            _ => true,
        },
{
    match e {
        AppEvent::DeletePerson(id) => lemma_remove::<Person>(v.persons, id.0),
        AppEvent::DeleteCandidateList(id) => lemma_remove::<CandidateList>(v.candidate_lists, id.0),
        AppEvent::DeleteAuthorisedAgent(id) => lemma_remove::<AuthorisedAgent>(v.authorised_agents, id.0),
        AppEvent::DeleteListSubmitter(id) => lemma_remove::<ListSubmitter>(v.list_submitters, id.0),
        AppEvent::DeleteSubstituteSubmitter(id) => lemma_remove::<SubstituteSubmitter>(v.substitute_submitters, id.0),
        _ => {},
    }
}

/// A person recorded by a create is what reading the person back gives.
pub proof fn law_created_person_is_read_back(before: &AppStore, after: &AppStore, p: Person)
    requires
        before.wf(),
        AppStore::applied(before, after, AppEvent::CreatePerson(p)),
    ensures
        after.person_map().contains_key(p.id.0),
        after.person_map()[p.id.0] == p,
{
    lemma_upsert::<Person>(before.state().persons, p);
}

/// A candidate list recorded by a create is what reading the list back gives.
pub proof fn law_created_list_is_read_back(before: &AppStore, after: &AppStore, l: CandidateListView)
    requires
        before.wf(),
        AppStore::list_created(before, after, l),
    ensures
        after.list_map().contains_key(l.id.0),
        after.list_map()[l.id.0] == l,
{
    lemma_upsert::<CandidateList>(before.state().candidate_lists, l);
}

/// A list that had a person appended has that person among its candidates, so appending
/// the same person again changes nothing.
pub proof fn law_appended_person_is_on_list(l: CandidateListView, p: PersonId, t: Timestamp)
    ensures
        with_candidates(l, l.candidates.push(p), t).candidates.contains(p),
{
    assert(l.candidates.push(p)[l.candidates.len() as int] == p);
}

} // verus!
