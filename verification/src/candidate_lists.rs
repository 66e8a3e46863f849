//! Reading and changing the candidate lists of a store.

use vstd::prelude::*;

use crate::candidate_list::{
    all_known, copy_districts, copy_person_ids, count_district, district_in_use, districts_in_use,
    has_district, is_full_list, lemma_sorted_lists_equal, lists_sorted, occurrences, persons_not_in, remove_person_id,
    shared_districts, with_candidates, without_person, contains_person, Candidate,
    CandidateList, CandidateListSummary, CandidateListView, FullCandidateList,
};
use crate::district::{all_districts, ElectoralDistrict};
use crate::error::{not_found, not_found_with, AppError};
use crate::ids::{CandidateListId, PersonId};
use crate::person::Person;
use crate::store::{journaled, lemma_journaled_refl, lemma_journaled_trans, AppEvent, AppStore, StoreView};
use crate::table::{has_key, lemma_has_key_push, lemma_replace, map_of, unique_keys, views};
use crate::time::Timestamp;

verus! {

/// A copy of the identifiers of `s`.
fn ids_to_vec(s: &[PersonId]) -> (r: Vec<PersonId>)
    ensures
        r@ == s@,
{
    let mut r: Vec<PersonId> = Vec::new();
    let n = s.len();
    let mut i: usize = 0;
    while i < n
        invariant
            n == s@.len(),
            0 <= i <= n,
            r@ == s@.subrange(0, i as int),
        decreases n - i,
    {
        r.push(s[i]);
        i = i + 1;
        assert(r@ =~= s@.subrange(0, i as int));
    }
    assert(r@ =~= s@);
    r
}

/// `Ok` when every identifier of `person_ids` belongs to a stored person, else
/// `GenericNotFound`.
fn ensure_persons_exist(store: &AppStore, person_ids: &[PersonId]) -> (r: Result<(), AppError>)
    requires
        store.wf(),
    ensures
        r is Ok == all_known(person_ids@, store.person_map()),
        r matches Err(e) ==> e is GenericNotFound,
{
    let n = person_ids.len();
    let mut i: usize = 0;
    while i < n
        invariant
            n == person_ids@.len(),
            0 <= i <= n,
            store.wf(),
            forall|j: int| 0 <= j < i ==> store.person_map().contains_key(#[trigger] person_ids@[j].0),
        decreases n - i,
    {
        if store.get_person(person_ids[i]).is_err() {
            return Err(AppError::GenericNotFound);
        }
        i = i + 1;
    }
    Ok(())
}

/// Whether `d` occurs more than once over the districts of the lists of `lists`.
fn occurs_more_than_once(lists: &Vec<CandidateList>, d: ElectoralDistrict) -> (b: bool)
    ensures
        b == (occurrences(views(lists@), d) > 1),
{
    let n = lists.len();
    let mut seen: usize = 0;
    let mut i: usize = 0;
    while i < n
        invariant
            n == lists@.len(),
            0 <= i <= n,
            seen <= 2,
            seen == (if occurrences(views(lists@).subrange(0, i as int), d) > 2 { 2 } else {
                occurrences(views(lists@).subrange(0, i as int), d)
            }),
        decreases n - i,
    {
        assert(views(lists@).subrange(0, i + 1).drop_last() =~= views(lists@).subrange(0, i as int));
        assert(views(lists@).subrange(0, i + 1).last() == lists@[i as int]@);
        let c = count_district(&lists[i].electoral_districts, d);
        if c >= 2 || seen + c >= 2 {
            seen = 2;
        } else {
            seen = seen + c;
        }
        i = i + 1;
    }
    assert(views(lists@).subrange(0, n as int) =~= views(lists@));
    seen > 1
}

/// The districts of `ds`, order kept, that occur more than once over `lists`.
fn duplicate_districts_of(ds: &Vec<ElectoralDistrict>, lists: &Vec<CandidateList>) -> (r: Vec<ElectoralDistrict>)
    ensures
        r@ == shared_districts(ds@, views(lists@)),
        r@ == ds@.filter(|x: ElectoralDistrict| occurrences(views(lists@), x) > 1),
{
    let mut r: Vec<ElectoralDistrict> = Vec::new();
    let n = ds.len();
    let mut i: usize = 0;
    while i < n
        invariant
            n == ds@.len(),
            0 <= i <= n,
            r@ == shared_districts(ds@.subrange(0, i as int), views(lists@)),
        decreases n - i,
    {
        assert(ds@.subrange(0, i + 1).drop_last() =~= ds@.subrange(0, i as int));
        if occurs_more_than_once(lists, ds[i]) {
            r.push(ds[i]);
        }
        i = i + 1;
    }
    assert(ds@.subrange(0, n as int) =~= ds@);
    proof {
        crate::candidate_list::law_shared_districts_filter(ds@, views(lists@));
    }
    r
}

/// Whether `id` occurs in `ids`.
fn contains_list_id(ids: &Vec<CandidateListId>, id: CandidateListId) -> (b: bool)
    ensures
        b == ids@.contains(id),
{
    let n = ids.len();
    let mut i: usize = 0;
    while i < n
        invariant
            n == ids@.len(),
            0 <= i <= n,
            forall|j: int| 0 <= j < i ==> ids@[j] != id,
        decreases n - i,
    {
        if ids[i] == id {
            assert(ids@[i as int] == id);
            return true;
        }
        i = i + 1;
    }
    false
}

/// Whether some list of `lists` not in `exclude` has district `d`.
fn district_used(lists: &Vec<CandidateList>, exclude: &Vec<CandidateListId>, d: ElectoralDistrict) -> (b: bool)
    ensures
        b == district_in_use(views(lists@), exclude@, d),
{
    let n = lists.len();
    let mut i: usize = 0;
    while i < n
        invariant
            n == lists@.len(),
            0 <= i <= n,
            forall|j: int| 0 <= j < i ==> !(!exclude@.contains(lists@[j].id) && (#[trigger] lists@[j]).electoral_districts@.contains(d)),
        decreases n - i,
    {
        if !contains_list_id(exclude, lists[i].id) && has_district(&lists[i].electoral_districts, d) {
            assert(views(lists@)[i as int] == lists@[i as int]@);
            return true;
        }
        i = i + 1;
    }
    assert forall|j: int| 0 <= j < n implies !(!exclude@.contains(views(lists@)[j].id) && (#[trigger] views(lists@)[j]).electoral_districts.contains(d)) by {
        assert(views(lists@)[j] == lists@[j]@);
    }
    false
}

/// The lists of a summary, in its order.
pub open spec fn summary_lists(v: Seq<CandidateListSummary>) -> Seq<CandidateListView> {
    v.map_values(|s: CandidateListSummary| s.list@)
}

/// `v` summarises the lists `lists`: each list once, in the store's order (creation time,
/// then identifier), with its number of candidates and the districts it has that occur
/// more than once over all lists.
pub open spec fn is_list_summary(v: Seq<CandidateListSummary>, lists: Seq<CandidateListView>) -> bool {
    let ls = summary_lists(v);
    &&& ls.to_multiset() == lists.to_multiset()
    &&& lists_sorted(ls)
    &&& forall|i: int| 0 <= i < v.len() ==> {
        &&& (#[trigger] v[i]).person_count == ls[i].candidates.len()
        &&& v[i].duplicate_districts@ == shared_districts(ls[i].electoral_districts, ls)
    }
}

/// A summary of a store's lists is determined by the lists: any two summaries of the
/// same lists hold the same lists in the same order with the same counts and the same
/// shared districts. So `CandidateList::list_summary` and `list_candidate_list_summary`
/// give the same summaries.
pub proof fn law_list_summary_is_unique(
    v1: Seq<CandidateListSummary>,
    v2: Seq<CandidateListSummary>,
    lists: Seq<CandidateListView>,
)
    requires
        unique_keys::<CandidateList>(lists),
        is_list_summary(v1, lists),
        is_list_summary(v2, lists),
    ensures
        v1.len() == v2.len(),
        summary_lists(v1) == summary_lists(v2),
        forall|i: int| 0 <= i < v1.len() ==> {
            &&& (#[trigger] v1[i]).list@ == v2[i].list@
            &&& v1[i].person_count == v2[i].person_count
            &&& v1[i].duplicate_districts@ == v2[i].duplicate_districts@
        },
{
    let ls1 = summary_lists(v1);
    let ls2 = summary_lists(v2);
    crate::table::lemma_permutation_entries::<CandidateList>(ls1, lists);
    lemma_sorted_lists_equal(ls1, ls2);
    assert forall|i: int| 0 <= i < v1.len() implies {
        &&& (#[trigger] v1[i]).list@ == v2[i].list@
        &&& v1[i].person_count == v2[i].person_count
        &&& v1[i].duplicate_districts@ == v2[i].duplicate_districts@
    } by {
        assert(ls1[i] == v1[i].list@);
        assert(ls2[i] == v2[i].list@);
    }
}

/// The overview of a store's lists comes in creation order: creation times never go back
/// along it, and lists created at the same instant come in rising identifier order.
pub proof fn law_list_summary_in_creation_order(v: Seq<CandidateListSummary>, lists: Seq<CandidateListView>)
    requires
        unique_keys::<CandidateList>(lists),
        is_list_summary(v, lists),
    ensures
        forall|i: int, j: int| 0 <= i < j < v.len() ==> {
            ||| (#[trigger] v[i]).list@.created_at.secs < (#[trigger] v[j]).list@.created_at.secs
            ||| (v[i].list@.created_at.secs == v[j].list@.created_at.secs
                && v[i].list@.created_at.nanos < v[j].list@.created_at.nanos)
            ||| (v[i].list@.created_at == v[j].list@.created_at && v[i].list@.id.0 < v[j].list@.id.0)
        },
{
    let ls = summary_lists(v);
    crate::table::lemma_permutation_entries::<CandidateList>(ls, lists);
    crate::candidate_list::law_lists_in_creation_order(ls);
    assert forall|i: int, j: int| 0 <= i < j < v.len() implies {
        ||| (#[trigger] v[i]).list@.created_at.secs < (#[trigger] v[j]).list@.created_at.secs
        ||| (v[i].list@.created_at.secs == v[j].list@.created_at.secs
            && v[i].list@.created_at.nanos < v[j].list@.created_at.nanos)
        ||| (v[i].list@.created_at == v[j].list@.created_at && v[i].list@.id.0 < v[j].list@.id.0)
    } by {
        assert(ls[i] == v[i].list@);
        assert(ls[j] == v[j].list@);
    }
}

/// Some list of `lists` has `p` among its candidates.
pub open spec fn on_some_list(lists: Map<u128, CandidateListView>, p: PersonId) -> bool {
    exists|k: u128| lists.contains_key(k) && #[trigger] lists[k].candidates.contains(p)
}

/// `after` holds the lists of `before`; each list that had `p` among its candidates
/// now has them without `p` and some update time, the others are as they were.
pub open spec fn removed_from_lists(
    before: Map<u128, CandidateListView>,
    after: Map<u128, CandidateListView>,
    p: PersonId,
) -> bool {
    &&& after.dom() == before.dom()
    &&& forall|k: u128| #[trigger] before.contains_key(k) ==> if before[k].candidates.contains(p) {
        exists|t: Timestamp| after[k] == #[trigger] with_candidates(before[k], without_person(before[k].candidates, p), t)
    } else {
        after[k] == before[k]
    }
}

/// `after` differs from `before` in its candidate lists at most.
pub open spec fn only_lists_changed(before: StoreView, after: StoreView) -> bool {
    after == StoreView { candidate_lists: after.candidate_lists, ..before }
}

/// `pos` is the 1-based position of the first occurrence of `p` in `s`.
pub open spec fn is_first_position(s: Seq<PersonId>, p: PersonId, pos: int) -> bool {
    &&& 1 <= pos <= s.len()
    &&& s[pos - 1] == p
    &&& forall|j: int| 0 <= j < pos - 1 ==> s[j] != p
}

/// The 1-based position of the first occurrence of `p` in `v`, if any.
pub fn first_position(v: &Vec<PersonId>, p: PersonId) -> (r: Option<usize>)
    ensures
        r is None <==> !v@.contains(p),
        r matches Some(pos) ==> is_first_position(v@, p, pos as int),
{
    let n = v.len();
    let mut i: usize = 0;
    while i < n
        invariant
            n == v@.len(),
            0 <= i <= n,
            forall|j: int| 0 <= j < i ==> v@[j] != p,
        decreases n - i,
    {
        if v[i] == p {
            assert(v@[i as int] == p);
            return Some(i + 1);
        }
        i = i + 1;
    }
    None
}

impl CandidateList {
    /// Every list with its number of candidates and the districts it has that occur
    /// more than once over all lists; the lists in the store's order.
    pub fn list_summary(store: &AppStore) -> (r: Result<Vec<CandidateListSummary>, AppError>)
        requires
            store.wf(),
        ensures
            r matches Ok(v) && is_list_summary(v@, store.state().candidate_lists),
    {
        let lists = store.get_candidate_lists();
        let ghost ls = views(lists@);
        let n = lists.len();
        let mut out: Vec<CandidateListSummary> = Vec::new();
        let mut i: usize = 0;
        while i < n
            invariant
                n == lists@.len(),
                ls == views(lists@),
                0 <= i <= n,
                out@.len() == i,
                forall|j: int| 0 <= j < i ==> {
                    &&& (#[trigger] out@[j]).list@ == ls[j]
                    &&& out@[j].person_count == ls[j].candidates.len()
                    &&& out@[j].duplicate_districts@ == shared_districts(ls[j].electoral_districts, ls)
                },
            decreases n - i,
        {
            let list = lists[i].clone();
            let person_count = list.candidates.len();
            let duplicate_districts = duplicate_districts_of(&list.electoral_districts, &lists);
            out.push(CandidateListSummary { list, person_count, duplicate_districts });
            i = i + 1;
        }
        assert(out@.map_values(|s: CandidateListSummary| s.list@) =~= ls);
        Ok(out)
    }

    /// The list with this identifier, or `None`.
    pub fn get(store: &AppStore, list_id: CandidateListId) -> (r: Result<Option<CandidateList>, AppError>)
        requires
            store.wf(),
        ensures
            r matches Ok(o) && (o is Some == store.list_map().contains_key(list_id.0))
                && (o matches Some(l) ==> l@ == store.list_map()[list_id.0]),
    {
        match store.get_candidate_list(list_id) {
            Ok(l) => Ok(Some(l)),
            Err(_) => Ok(None),
        }
    }

    /// The districts in use by some list whose identifier is not in `exclude_list_ids`,
    /// each once, in the order of the district enumeration.
    pub fn used_districts(store: &AppStore, exclude_list_ids: Vec<CandidateListId>) -> (r: Result<Vec<ElectoralDistrict>, AppError>)
        ensures
            r matches Ok(v) && v@ == districts_in_use(all_districts(), store.state().candidate_lists, exclude_list_ids@),
    {
        let lists = store.list_records();
        let all = ElectoralDistrict::all();
        let n = all.len();
        let mut used: Vec<ElectoralDistrict> = Vec::new();
        let mut i: usize = 0;
        while i < n
            invariant
                n == all@.len(),
                all@ == all_districts(),
                views(lists@) == store.state().candidate_lists,
                0 <= i <= n,
                used@ == districts_in_use(all@.subrange(0, i as int), views(lists@), exclude_list_ids@),
            decreases n - i,
        {
            assert(all@.subrange(0, i + 1).drop_last() =~= all@.subrange(0, i as int));
            if district_used(&lists, &exclude_list_ids, all[i]) {
                used.push(all[i]);
            }
            i = i + 1;
        }
        assert(all@.subrange(0, n as int) =~= all@);
        Ok(used)
    }

    /// The list with this identifier and the records of its candidates, or `None` when
    /// there is no such list; `GenericNotFound` when a candidate is not stored.
    pub fn full(store: &AppStore, list_id: CandidateListId) -> (r: Result<Option<FullCandidateList>, AppError>)
        requires
            store.wf(),
        ensures
            !store.list_map().contains_key(list_id.0) ==> r matches Ok(None),
            store.list_map().contains_key(list_id.0) ==> {
                let l = store.list_map()[list_id.0];
                &&& r is Ok == all_known(l.candidates, store.person_map())
                &&& r matches Ok(o) ==> o matches Some(f) && is_full_list(f, l, store.person_map())
                &&& r matches Err(e) ==> e is GenericNotFound
            },
    {
        let list = CandidateList::get(store, list_id)?;
        let list = match list {
            Some(l) => l,
            None => return Ok(None),
        };
        let full_list = CandidateList::build_full_candidate_list(store, list)?;
        Ok(Some(full_list))
    }

    /// `list` with the records of its candidates; `GenericNotFound` when one is not stored.
    fn build_full_candidate_list(store: &AppStore, list: CandidateList) -> (r: Result<FullCandidateList, AppError>)
        requires
            store.wf(),
        ensures
            r is Ok == all_known(list@.candidates, store.person_map()),
            r matches Ok(f) ==> is_full_list(f, list@, store.person_map()),
            r matches Err(e) ==> e is GenericNotFound,
    {
        let ghost l = list@;
        let n = list.candidates.len();
        let mut candidates: Vec<Candidate> = Vec::new();
        let mut i: usize = 0;
        while i < n
            invariant
                n == l.candidates.len(),
                l == list@,
                store.wf(),
                0 <= i <= n,
                candidates@.len() == i,
                forall|j: int| 0 <= j < i ==> store.person_map().contains_key(#[trigger] l.candidates[j].0),
                forall|j: int| 0 <= j < i ==> {
                    &&& (#[trigger] candidates@[j]).list_id == l.id
                    &&& candidates@[j].position == j + 1
                    &&& candidates@[j].person == store.person_map()[l.candidates[j].0]
                },
            decreases n - i,
        {
            let person = store.get_person(list.candidates[i])?;
            candidates.push(Candidate { list_id: list.id, position: i + 1, person });
            i = i + 1;
        }
        Ok(FullCandidateList { list, candidates })
    }

    /// Sets the list's candidates to `person_ids`, in that order, stamping the update
    /// with the current time, and returns the list with its candidates' records.
    /// `NotFound("candidate list not found")` without the list, `GenericNotFound` when an
    /// identifier is not a stored person; the store is then unchanged.
    pub fn update_order(store: &mut AppStore, list_id: CandidateListId, person_ids: &[PersonId]) -> (r: Result<FullCandidateList, AppError>)
        requires
            old(store).wf(),
        ensures
            r is Ok == (old(store).list_map().contains_key(list_id.0) && all_known(person_ids@, old(store).person_map())),
            r matches Err(e) ==> AppStore::unchanged(&*old(store), &*final(store)) && if !old(store).list_map().contains_key(list_id.0) {
                not_found_with(e, "candidate list not found"@)
            } else {
                e is GenericNotFound
            },
            r matches Ok(f) ==> {
                let nl = with_candidates(old(store).list_map()[list_id.0], person_ids@, f.list.updated_at);
                &&& AppStore::list_updated(&*old(store), &*final(store), nl)
                &&& is_full_list(f, nl, old(store).person_map())
            },
    {
        let mut list = match CandidateList::get(store, list_id)? {
            Some(l) => l,
            None => return Err(not_found("candidate list not found")),
        };
        ensure_persons_exist(store, person_ids)?;
        list.candidates = ids_to_vec(person_ids);
        list.updated_at = Timestamp::now();
        store.update(AppEvent::UpdateCandidateList(list.clone()))?;
        CandidateList::build_full_candidate_list(store, list)
    }

    /// Adds the person at the end of the list, stamping the update with the current time,
    /// unless the person is on it already (then nothing changes).
    /// `NotFound("candidate list not found")` without the list, `GenericNotFound` when the
    /// person is not stored; the store is then unchanged.
    pub fn append_candidate(store: &mut AppStore, list_id: CandidateListId, person_id: PersonId) -> (r: Result<(), AppError>)
        requires
            old(store).wf(),
        ensures
            r is Ok == (old(store).list_map().contains_key(list_id.0) && old(store).person_map().contains_key(person_id.0)),
            r matches Err(e) ==> AppStore::unchanged(&*old(store), &*final(store)) && if !old(store).list_map().contains_key(list_id.0) {
                not_found_with(e, "candidate list not found"@)
            } else {
                e is GenericNotFound
            },
            r is Ok ==> {
                let l = old(store).list_map()[list_id.0];
                if l.candidates.contains(person_id) {
                    AppStore::unchanged(&*old(store), &*final(store))
                } else {
                    exists|t: Timestamp| AppStore::list_updated(
                        &*old(store),
                        &*final(store),
                        #[trigger] with_candidates(l, l.candidates.push(person_id), t),
                    )
                }
            },
    {
        let mut list = match CandidateList::get(store, list_id)? {
            Some(l) => l,
            None => return Err(not_found("candidate list not found")),
        };
        if store.get_person(person_id).is_err() {
            return Err(AppError::GenericNotFound);
        }
        if !contains_person(&list.candidates, person_id) {
            list.candidates.push(person_id);
            list.updated_at = Timestamp::now();
            let ghost nl = list@;
            let ghost l = old(store).list_map()[list_id.0];
            store.update(AppEvent::UpdateCandidateList(list))?;
            proof {
                assert(nl == with_candidates(l, l.candidates.push(person_id), nl.updated_at));
                assert(store.pending().drop_last() =~= old(store).pending());
            }
        }
        Ok(())
    }

    /// Takes the person off every list that has them, stamping each such list with the
    /// current time; the lists are visited in the store's order.
    /// `NotFound("candidate not found in any list")` when no list has the person; the
    /// store is then unchanged.
    #[verifier::rlimit(40)]
    pub fn remove_candidate_from_all(store: &mut AppStore, person_id: PersonId) -> (r: Result<(), AppError>)
        requires
            old(store).wf(),
        ensures
            r is Ok == on_some_list(old(store).list_map(), person_id),
            r matches Err(e) ==> AppStore::unchanged(&*old(store), &*final(store))
                && not_found_with(e, "candidate not found in any list"@),
            r is Ok ==> {
                &&& final(store).wf()
                &&& only_lists_changed(old(store).state(), final(store).state())
                &&& removed_from_lists(old(store).list_map(), final(store).list_map(), person_id)
                &&& AppStore::journaled(&*old(store), &*final(store))
            },
    {
        let lists = store.get_candidate_lists();
        let ghost s0 = store.state();
        let ghost l0 = store.pending();
        let ghost m0 = store.list_map();
        let ghost vs = views(lists@);
        let n = lists.len();
        let mut removed_any = false;
        let mut i: usize = 0;
        proof {
            lemma_journaled_refl(s0, l0);
        }
        while i < n
            invariant
                n == lists@.len(),
                vs == views(lists@),
                0 <= i <= n,
                store.wf(),
                m0 == map_of::<CandidateList>(s0.candidate_lists),
                unique_keys::<CandidateList>(vs),
                forall|q: int| 0 <= q < lists@.len() ==> m0.contains_key((#[trigger] lists@[q]).id.0)
                    && m0[lists@[q].id.0] == lists@[q]@,
                forall|k: u128| has_key::<CandidateList>(vs, k) == m0.contains_key(k),
                only_lists_changed(s0, store.state()),
                store.list_map().dom() == m0.dom(),
                forall|k: u128| #[trigger] m0.contains_key(k) ==> if has_key::<CandidateList>(vs.take(i as int), k)
                    && m0[k].candidates.contains(person_id) {
                    exists|t: Timestamp| store.list_map()[k] == #[trigger] with_candidates(m0[k], without_person(m0[k].candidates, person_id), t)
                } else {
                    store.list_map()[k] == m0[k]
                },
                removed_any == exists|q: int| 0 <= q < i && (#[trigger] lists@[q]).candidates@.contains(person_id),
                !removed_any ==> store.state() == s0 && store.pending() == l0,
                journaled(s0, l0, store.state(), store.pending()),
            decreases n - i,
        {
            let ghost k = lists@[i as int].id.0;
            proof {
                assert(vs.take(i + 1) =~= vs.take(i as int).push(vs[i as int]));
                assert(vs[i as int] == lists@[i as int]@);
                assert forall|kk: u128| has_key::<CandidateList>(vs.take(i + 1), kk)
                    == (has_key::<CandidateList>(vs.take(i as int), kk) || kk == k) by {
                    lemma_has_key_push::<CandidateList>(vs.take(i as int), vs[i as int], kk);
                }
                if has_key::<CandidateList>(vs.take(i as int), k) {
                    let q = choose|q: int| 0 <= q < vs.take(i as int).len()
                        && #[trigger] <CandidateList as crate::table::Keyed>::key_of(vs.take(i as int)[q]) == k;
                    assert(vs.take(i as int)[q] == vs[q]);
                    assert(false);
                }
            }
            if contains_person(&lists[i].candidates, person_id) {
                let mut nl = lists[i].clone();
                nl.candidates = remove_person_id(&lists[i].candidates, person_id);
                nl.updated_at = Timestamp::now();
                let ghost nlv = nl@;
                let ghost sp = store.state();
                let ghost lp = store.pending();
                proof {
                    lemma_replace::<CandidateList>(sp.candidate_lists, nlv);
                }
                store.update(AppEvent::UpdateCandidateList(nl))?;
                proof {
                    lemma_journaled_trans(s0, l0, sp, lp, store.state(), store.pending());
                    assert(store.list_map() == map_of::<CandidateList>(sp.candidate_lists).insert(k, nlv));
                    assert(nlv == with_candidates(m0[k], without_person(m0[k].candidates, person_id), nlv.updated_at));
                }
                removed_any = true;
            }
            i = i + 1;
        }
        proof {
            assert(vs.take(n as int) =~= vs);
        }
        if !removed_any {
            proof {
                if on_some_list(m0, person_id) {
                    let k = choose|k: u128| m0.contains_key(k) && #[trigger] m0[k].candidates.contains(person_id);
                    assert(has_key::<CandidateList>(vs, k));
                    let q = choose|q: int| 0 <= q < vs.len() && #[trigger] <CandidateList as crate::table::Keyed>::key_of(vs[q]) == k;
                    assert(vs[q] == lists@[q]@);
                    assert(lists@[q].candidates@.contains(person_id));
                }
            }
            return Err(not_found("candidate not found in any list"));
        }
        proof {
            let q = choose|q: int| 0 <= q < n && (#[trigger] lists@[q]).candidates@.contains(person_id);
            assert(m0[lists@[q].id.0].candidates.contains(person_id));
        }
        Ok(())
    }

    /// Takes the person off the list, stamping the list with the current time.
    /// `NotFound("candidate list not found")` without the list, `NotFound("candidate not
    /// found on list")` when the person is not on it; the store is then unchanged.
    pub fn remove_candidate_from_list(store: &mut AppStore, list_id: CandidateListId, person_id: PersonId) -> (r: Result<(), AppError>)
        requires
            old(store).wf(),
        ensures
            r is Ok == (old(store).list_map().contains_key(list_id.0)
                && old(store).list_map()[list_id.0].candidates.contains(person_id)),
            r matches Err(e) ==> AppStore::unchanged(&*old(store), &*final(store)) && if !old(store).list_map().contains_key(list_id.0) {
                not_found_with(e, "candidate list not found"@)
            } else {
                not_found_with(e, "candidate not found on list"@)
            },
            r is Ok ==> {
                let l = old(store).list_map()[list_id.0];
                exists|t: Timestamp| AppStore::list_updated(
                    &*old(store),
                    &*final(store),
                    #[trigger] with_candidates(l, without_person(l.candidates, person_id), t),
                )
            },
    {
        let mut list = match CandidateList::get(store, list_id)? {
            Some(l) => l,
            None => return Err(not_found("candidate list not found")),
        };
        if !contains_person(&list.candidates, person_id) {
            return Err(not_found("candidate not found on list"));
        }
        list.candidates = remove_person_id(&list.candidates, person_id);
        list.updated_at = Timestamp::now();
        let ghost nl = list@;
        let ghost l = old(store).list_map()[list_id.0];
        store.update(AppEvent::UpdateCandidateList(list))?;
        proof {
            assert(nl == with_candidates(l, without_person(l.candidates, person_id), nl.updated_at));
            assert(store.pending().drop_last() =~= old(store).pending());
        }
        Ok(())
    }

    /// The person as a candidate of the list: the list's identifier, the 1-based position
    /// of the person's first occurrence on it, and the person's record.
    /// `NotFound("candidate list not found")` without the list, `NotFound("candidate not
    /// found on list")` when the person is not on it, `GenericNotFound` when the person is
    /// not stored.
    pub fn get_candidate(store: &AppStore, list_id: CandidateListId, person_id: PersonId) -> (r: Result<Candidate, AppError>)
        requires
            store.wf(),
        ensures
            r is Ok == (store.list_map().contains_key(list_id.0)
                && store.list_map()[list_id.0].candidates.contains(person_id)
                && store.person_map().contains_key(person_id.0)),
            r matches Err(e) ==> if !store.list_map().contains_key(list_id.0) {
                not_found_with(e, "candidate list not found"@)
            } else if !store.list_map()[list_id.0].candidates.contains(person_id) {
                not_found_with(e, "candidate not found on list"@)
            } else {
                e is GenericNotFound
            },
            r matches Ok(c) ==> {
                &&& c.list_id == list_id
                &&& is_first_position(store.list_map()[list_id.0].candidates, person_id, c.position as int)
                &&& c.person == store.person_map()[person_id.0]
            },
    {
        let list = match CandidateList::get(store, list_id)? {
            Some(l) => l,
            None => return Err(not_found("candidate list not found")),
        };
        let position = match first_position(&list.candidates, person_id) {
            Some(p) => p,
            None => return Err(not_found("candidate not found on list")),
        };
        let person = store.get_person(person_id)?;
        Ok(Candidate { list_id, position, person })
    }

    /// The stored persons that are not on the list, in the store's order.
    /// `NotFound("candidate list not found")` without the list.
    pub fn persons_not_on_list(store: &AppStore, list_id: CandidateListId) -> (r: Result<Vec<Person>, AppError>)
        requires
            store.wf(),
        ensures
            r is Ok == store.list_map().contains_key(list_id.0),
            r matches Err(e) ==> not_found_with(e, "candidate list not found"@),
            r matches Ok(v) ==> v@ == persons_not_in(store.state().persons, store.list_map()[list_id.0].candidates),
            r matches Ok(v) ==> v@ == store.state().persons.filter(
                |q: Person| !store.list_map()[list_id.0].candidates.contains(q.id),
            ),
    {
        let list = match CandidateList::get(store, list_id)? {
            Some(l) => l,
            None => return Err(not_found("candidate list not found")),
        };
        let persons = store.get_persons();
        let n = persons.len();
        let mut out: Vec<Person> = Vec::new();
        let mut i: usize = 0;
        while i < n
            invariant
                n == persons@.len(),
                0 <= i <= n,
                out@ == persons_not_in(persons@.subrange(0, i as int), list.candidates@),
            decreases n - i,
        {
            assert(persons@.subrange(0, i + 1).drop_last() =~= persons@.subrange(0, i as int));
            if !contains_person(&list.candidates, persons[i].id) {
                out.push(persons[i].clone());
            }
            i = i + 1;
        }
        assert(persons@.subrange(0, n as int) =~= persons@);
        proof {
            crate::candidate_list::law_persons_not_in_filters(persons@, list.candidates@);
        }
        Ok(out)
    }

    /// Stores the list as a new list, created and updated now, and returns it.
    pub fn create(&self, store: &mut AppStore) -> (r: Result<CandidateList, AppError>)
        requires
            old(store).wf(),
        ensures
            r matches Ok(l) && {
                &&& l@ == (CandidateListView { created_at: l.created_at, updated_at: l.created_at, ..self@ })
                &&& AppStore::list_created(&*old(store), &*final(store), l@)
            },
    {
        let now = Timestamp::now();
        let list = CandidateList {
            id: self.id,
            electoral_districts: copy_districts(&self.electoral_districts),
            candidates: copy_person_ids(&self.candidates),
            created_at: now,
            updated_at: now,
        };
        store.update(AppEvent::CreateCandidateList(list.clone()))?;
        proof {
            assert(store.pending().drop_last() =~= old(store).pending());
        }
        Ok(list)
    }

    /// Gives the stored list with this list's identifier this list's districts, keeping
    /// its candidates and creation time and stamping it with the current time; returns
    /// the stored list. `GenericNotFound` when there is no such list; the store is then
    /// unchanged.
    pub fn update(&self, store: &mut AppStore) -> (r: Result<CandidateList, AppError>)
        requires
            old(store).wf(),
        ensures
            r is Ok == old(store).list_map().contains_key(self.id.0),
            r matches Err(e) ==> e is GenericNotFound && AppStore::unchanged(&*old(store), &*final(store)),
            r matches Ok(l) ==> {
                &&& l@ == (CandidateListView {
                    electoral_districts: self@.electoral_districts,
                    updated_at: l.updated_at,
                    ..old(store).list_map()[self.id.0]
                })
                &&& AppStore::list_updated(&*old(store), &*final(store), l@)
            },
    {
        let existing = store.get_candidate_list(self.id)?;
        let updated = CandidateList {
            id: existing.id,
            electoral_districts: copy_districts(&self.electoral_districts),
            candidates: existing.candidates,
            created_at: existing.created_at,
            updated_at: Timestamp::now(),
        };
        store.update(AppEvent::UpdateCandidateList(updated.clone()))?;
        proof {
            assert(store.pending().drop_last() =~= old(store).pending());
        }
        Ok(updated)
    }

    /// Removes the list with this list's identifier, if there is one.
    pub fn delete(&self, store: &mut AppStore) -> (r: Result<(), AppError>)
        requires
            old(store).wf(),
        ensures
            r is Ok,
            AppStore::applied(&*old(store), &*final(store), AppEvent::DeleteCandidateList(self.id)),
            final(store).list_map() == old(store).list_map().remove(self.id.0),
    {
        CandidateList::delete_by_id(store, self.id)
    }

    /// Removes the list with this identifier, if there is one.
    pub fn delete_by_id(store: &mut AppStore, list_id: CandidateListId) -> (r: Result<(), AppError>)
        requires
            old(store).wf(),
        ensures
            r is Ok,
            AppStore::applied(&*old(store), &*final(store), AppEvent::DeleteCandidateList(list_id)),
            final(store).list_map() == old(store).list_map().remove(list_id.0),
    {
        proof {
            crate::table::lemma_remove::<CandidateList>(store.state().candidate_lists, list_id.0);
        }
        store.update(AppEvent::DeleteCandidateList(list_id))?;
        Ok(())
    }
}

} // verus!

verus! {

/// Every list with its number of candidates and the districts it has that occur more
/// than once over all lists; the lists in the store's order.
pub fn list_candidate_list_summary(store: &AppStore) -> (r: Result<Vec<CandidateListSummary>, AppError>)
    requires
        store.wf(),
    ensures
        r matches Ok(v) && is_list_summary(v@, store.state().candidate_lists),
{
    CandidateList::list_summary(store)
}

/// The list with this identifier, or `None`.
pub fn get_candidate_list(store: &AppStore, list_id: CandidateListId) -> (r: Result<Option<CandidateList>, AppError>)
    requires
        store.wf(),
    ensures
        r matches Ok(o) && (o is Some == store.list_map().contains_key(list_id.0))
            && (o matches Some(l) ==> l@ == store.list_map()[list_id.0]),
{
    CandidateList::get(store, list_id)
}

/// The districts in use by some list whose identifier is not in `exclude_list_ids`, each
/// once, in the order of the district enumeration.
pub fn get_used_districts(store: &AppStore, exclude_list_ids: Vec<CandidateListId>) -> (r: Result<Vec<ElectoralDistrict>, AppError>)
    ensures
        r matches Ok(v) && v@ == districts_in_use(all_districts(), store.state().candidate_lists, exclude_list_ids@),
{
    CandidateList::used_districts(store, exclude_list_ids)
}

/// Stores the list as a new list, created and updated now, and returns it.
pub fn create_candidate_list(store: &mut AppStore, candidate_list: &CandidateList) -> (r: Result<CandidateList, AppError>)
    requires
        old(store).wf(),
    ensures
        r matches Ok(l) && {
            &&& l@ == (CandidateListView { created_at: l.created_at, updated_at: l.created_at, ..candidate_list@ })
            &&& AppStore::list_created(&*old(store), &*final(store), l@)
        },
{
    candidate_list.create(store)
}

/// Gives the stored list with the identifier of `updated_candidate_list` its districts,
/// keeping candidates and creation time and stamping it with the current time; returns
/// the stored list. `NotFound("candidate list not found")` when there is no such list;
/// the store is then unchanged.
pub fn update_candidate_list(store: &mut AppStore, updated_candidate_list: &CandidateList) -> (r: Result<CandidateList, AppError>)
    requires
        old(store).wf(),
    ensures
        r is Ok == old(store).list_map().contains_key(updated_candidate_list.id.0),
        r matches Err(e) ==> not_found_with(e, "candidate list not found"@)
            && AppStore::unchanged(&*old(store), &*final(store)),
        r matches Ok(l) ==> {
            &&& l@ == (CandidateListView {
                electoral_districts: updated_candidate_list@.electoral_districts,
                updated_at: l.updated_at,
                ..old(store).list_map()[updated_candidate_list.id.0]
            })
            &&& AppStore::list_updated(&*old(store), &*final(store), l@)
        },
{
    match updated_candidate_list.update(store) {
        Ok(l) => Ok(l),
        Err(_) => Err(not_found("candidate list not found")),
    }
}

/// Removes the list with this identifier, if there is one.
pub fn remove_candidate_list(store: &mut AppStore, list_id: CandidateListId) -> (r: Result<(), AppError>)
    requires
        old(store).wf(),
    ensures
        r is Ok,
        AppStore::applied(&*old(store), &*final(store), AppEvent::DeleteCandidateList(list_id)),
        final(store).list_map() == old(store).list_map().remove(list_id.0),
{
    CandidateList::delete_by_id(store, list_id)
}

/// The list with this identifier and the records of its candidates, or `None` when there
/// is no such list; `NotFound("person not found")` when a candidate is not stored.
pub fn get_full_candidate_list(store: &AppStore, list_id: CandidateListId) -> (r: Result<Option<FullCandidateList>, AppError>)
    requires
        store.wf(),
    ensures
        !store.list_map().contains_key(list_id.0) ==> r matches Ok(None),
        store.list_map().contains_key(list_id.0) ==> {
            let l = store.list_map()[list_id.0];
            &&& r is Ok == all_known(l.candidates, store.person_map())
            &&& r matches Ok(o) ==> o matches Some(f) && is_full_list(f, l, store.person_map())
            &&& r matches Err(e) ==> not_found_with(e, "person not found"@)
        },
{
    match CandidateList::full(store, list_id) {
        Ok(o) => Ok(o),
        Err(_) => Err(not_found("person not found")),
    }
}

/// Sets the list's candidates to `person_ids`, in that order, stamping the update with
/// the current time, and returns the list with its candidates' records.
/// `NotFound("candidate list not found")` without the list, `NotFound("person not
/// found")` when an identifier is not a stored person; the store is then unchanged.
pub fn update_candidate_list_order(store: &mut AppStore, list_id: CandidateListId, person_ids: &[PersonId]) -> (r: Result<FullCandidateList, AppError>)
    requires
        old(store).wf(),
    ensures
        r is Ok == (old(store).list_map().contains_key(list_id.0) && all_known(person_ids@, old(store).person_map())),
        r matches Err(e) ==> AppStore::unchanged(&*old(store), &*final(store)) && if !old(store).list_map().contains_key(list_id.0) {
            not_found_with(e, "candidate list not found"@)
        } else {
            not_found_with(e, "person not found"@)
        },
        r matches Ok(f) ==> {
            let nl = with_candidates(old(store).list_map()[list_id.0], person_ids@, f.list.updated_at);
            &&& AppStore::list_updated(&*old(store), &*final(store), nl)
            &&& is_full_list(f, nl, old(store).person_map())
        },
{
    match CandidateList::update_order(store, list_id, person_ids) {
        Err(AppError::GenericNotFound) => Err(not_found("person not found")),
        other => other,
    }
}

/// Adds the person at the end of the list, stamping the update with the current time,
/// unless the person is on it already (then nothing changes).
/// `NotFound("candidate list not found")` without the list, `NotFound("person not
/// found")` when the person is not stored; the store is then unchanged.
pub fn append_candidate_to_list(store: &mut AppStore, list_id: CandidateListId, person_id: PersonId) -> (r: Result<(), AppError>)
    requires
        old(store).wf(),
    ensures
        r is Ok == (old(store).list_map().contains_key(list_id.0) && old(store).person_map().contains_key(person_id.0)),
        r matches Err(e) ==> AppStore::unchanged(&*old(store), &*final(store)) && if !old(store).list_map().contains_key(list_id.0) {
            not_found_with(e, "candidate list not found"@)
        } else {
            not_found_with(e, "person not found"@)
        },
        r is Ok ==> {
            let l = old(store).list_map()[list_id.0];
            if l.candidates.contains(person_id) {
                AppStore::unchanged(&*old(store), &*final(store))
            } else {
                exists|t: Timestamp| AppStore::list_updated(
                    &*old(store),
                    &*final(store),
                    #[trigger] with_candidates(l, l.candidates.push(person_id), t),
                )
            }
        },
{
    match CandidateList::append_candidate(store, list_id, person_id) {
        Err(AppError::GenericNotFound) => Err(not_found("person not found")),
        other => other,
    }
}

/// Takes the person off every list that has them, stamping each such list with the
/// current time. `NotFound("candidate not found in any list")` when no list has the
/// person; the store is then unchanged.
pub fn remove_candidate(store: &mut AppStore, person_id: PersonId) -> (r: Result<(), AppError>)
    requires
        old(store).wf(),
    ensures
        r is Ok == on_some_list(old(store).list_map(), person_id),
        r matches Err(e) ==> AppStore::unchanged(&*old(store), &*final(store))
            && not_found_with(e, "candidate not found in any list"@),
        r is Ok ==> {
            &&& final(store).wf()
            &&& only_lists_changed(old(store).state(), final(store).state())
            &&& removed_from_lists(old(store).list_map(), final(store).list_map(), person_id)
            &&& AppStore::journaled(&*old(store), &*final(store))
        },
{
    CandidateList::remove_candidate_from_all(store, person_id)
}

/// Takes the person off the list, stamping the list with the current time.
/// `NotFound("candidate list not found")` without the list, `NotFound("candidate not found
/// on list")` when the person is not on it; the store is then unchanged.
pub fn remove_candidate_from_list(store: &mut AppStore, list_id: CandidateListId, person_id: PersonId) -> (r: Result<(), AppError>)
    requires
        old(store).wf(),
    ensures
        r is Ok == (old(store).list_map().contains_key(list_id.0)
            && old(store).list_map()[list_id.0].candidates.contains(person_id)),
        r matches Err(e) ==> AppStore::unchanged(&*old(store), &*final(store)) && if !old(store).list_map().contains_key(list_id.0) {
            not_found_with(e, "candidate list not found"@)
        } else {
            not_found_with(e, "candidate not found on list"@)
        },
        r is Ok ==> {
            let l = old(store).list_map()[list_id.0];
            exists|t: Timestamp| AppStore::list_updated(
                &*old(store),
                &*final(store),
                #[trigger] with_candidates(l, without_person(l.candidates, person_id), t),
            )
        },
{
    CandidateList::remove_candidate_from_list(store, list_id, person_id)
}

/// The person as a candidate of the list: the list's identifier, the 1-based position of
/// the person's first occurrence on it, and the person's record.
/// `NotFound("candidate list not found")` without the list, `NotFound("candidate not found
/// on list")` when the person is not on it, `NotFound("person not found")` when the person
/// is not stored.
pub fn get_candidate(store: &AppStore, list_id: CandidateListId, person_id: PersonId) -> (r: Result<Candidate, AppError>)
    requires
        store.wf(),
    ensures
        r is Ok == (store.list_map().contains_key(list_id.0)
            && store.list_map()[list_id.0].candidates.contains(person_id)
            && store.person_map().contains_key(person_id.0)),
        r matches Err(e) ==> if !store.list_map().contains_key(list_id.0) {
            not_found_with(e, "candidate list not found"@)
        } else if !store.list_map()[list_id.0].candidates.contains(person_id) {
            not_found_with(e, "candidate not found on list"@)
        } else {
            not_found_with(e, "person not found"@)
        },
        r matches Ok(c) ==> {
            &&& c.list_id == list_id
            &&& is_first_position(store.list_map()[list_id.0].candidates, person_id, c.position as int)
            &&& c.person == store.person_map()[person_id.0]
        },
{
    match CandidateList::get_candidate(store, list_id, person_id) {
        Err(AppError::GenericNotFound) => Err(not_found("person not found")),
        other => other,
    }
}

/// The stored persons that are not on the list, in the store's order.
/// `NotFound("candidate list not found")` without the list.
pub fn list_persons_not_on_candidate_list(store: &AppStore, list_id: CandidateListId) -> (r: Result<Vec<Person>, AppError>)
    requires
        store.wf(),
    ensures
        r is Ok == store.list_map().contains_key(list_id.0),
        r matches Err(e) ==> not_found_with(e, "candidate list not found"@),
        r matches Ok(v) ==> v@ == persons_not_in(store.state().persons, store.list_map()[list_id.0].candidates),
{
    CandidateList::persons_not_on_list(store, list_id)
}

} // verus!
