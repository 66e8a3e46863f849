//! The event-sourced store: every change is an event, and the state is what the
//! events applied in order produce.

use vstd::prelude::*;

use crate::candidate_list::{sort_lists, lists_sorted, CandidateList, CandidateListView};
use crate::error::AppError;
use crate::ids::{
    AuthorisedAgentId, CandidateListId, ListSubmitterId, PersonId, SubstituteSubmitterId,
};
use crate::person::Person;
use crate::political_group::{
    blank_political_group, AuthorisedAgent, ListSubmitter, PoliticalGroup, SubstituteSubmitter,
};
use crate::table::{
    has_key, lemma_permutation_entries, map_of, remove_seq, replace_seq, unique_keys, upsert_seq, views, Table, lemma_remove,
    lemma_replace, lemma_upsert,
};

verus! {

/// A change to the store.
#[derive(Debug)]
pub enum AppEvent {
    UpdatePoliticalGroup(PoliticalGroup),
    CreatePerson(Person),
    UpdatePerson(Person),
    DeletePerson(PersonId),
    CreateCandidateList(CandidateList),
    UpdateCandidateList(CandidateList),
    DeleteCandidateList(CandidateListId),
    CreateAuthorisedAgent(AuthorisedAgent),
    UpdateAuthorisedAgent(AuthorisedAgent),
    DeleteAuthorisedAgent(AuthorisedAgentId),
    CreateListSubmitter(ListSubmitter),
    UpdateListSubmitter(ListSubmitter),
    DeleteListSubmitter(ListSubmitterId),
    CreateSubstituteSubmitter(SubstituteSubmitter),
    UpdateSubstituteSubmitter(SubstituteSubmitter),
    DeleteSubstituteSubmitter(SubstituteSubmitterId),
}

/// The contents of a store: the political group, the records of each kind in the
/// order in which they were first created, and the identifier of the last stored
/// event applied.
pub struct StoreView {
    pub political_group: PoliticalGroup,
    pub persons: Seq<Person>,
    pub candidate_lists: Seq<CandidateListView>,
    pub authorised_agents: Seq<AuthorisedAgent>,
    pub list_submitters: Seq<ListSubmitter>,
    pub substitute_submitters: Seq<SubstituteSubmitter>,
    pub last_event_id: nat,
}

/// No record kind holds two records with the same identifier.
pub open spec fn store_wf(v: StoreView) -> bool {
    &&& unique_keys::<Person>(v.persons)
    &&& unique_keys::<CandidateList>(v.candidate_lists)
    &&& unique_keys::<AuthorisedAgent>(v.authorised_agents)
    &&& unique_keys::<ListSubmitter>(v.list_submitters)
    &&& unique_keys::<SubstituteSubmitter>(v.substitute_submitters)
}

/// The contents of a fresh store: the blank political group and no records.
pub open spec fn empty_store() -> StoreView {
    StoreView {
        political_group: blank_political_group(),
        persons: Seq::empty(),
        candidate_lists: Seq::empty(),
        authorised_agents: Seq::empty(),
        list_submitters: Seq::empty(),
        substitute_submitters: Seq::empty(),
        last_event_id: 0,
    }
}

/// What an event does to the store: a create inserts the record (replacing one with
/// the same identifier), an update replaces an existing record and is ignored when
/// there is none, a delete removes the record if present. The political group is
/// replaced outright. The last event identifier is not touched.
pub open spec fn apply_event(v: StoreView, e: AppEvent) -> StoreView {
    match e {
        AppEvent::UpdatePoliticalGroup(g) => StoreView { political_group: g, ..v },
        AppEvent::CreatePerson(p) => StoreView { persons: upsert_seq::<Person>(v.persons, p), ..v },
        AppEvent::UpdatePerson(p) => StoreView { persons: replace_seq::<Person>(v.persons, p), ..v },
        AppEvent::DeletePerson(id) => StoreView { persons: remove_seq::<Person>(v.persons, id.0), ..v },
        AppEvent::CreateCandidateList(l) => StoreView {
            candidate_lists: upsert_seq::<CandidateList>(v.candidate_lists, l@),
            ..v
        },
        AppEvent::UpdateCandidateList(l) => StoreView {
            candidate_lists: replace_seq::<CandidateList>(v.candidate_lists, l@),
            ..v
        },
        AppEvent::DeleteCandidateList(id) => StoreView {
            candidate_lists: remove_seq::<CandidateList>(v.candidate_lists, id.0),
            ..v
        },
        AppEvent::CreateAuthorisedAgent(a) => StoreView {
            authorised_agents: upsert_seq::<AuthorisedAgent>(v.authorised_agents, a),
            ..v
        },
        AppEvent::UpdateAuthorisedAgent(a) => StoreView {
            authorised_agents: replace_seq::<AuthorisedAgent>(v.authorised_agents, a),
            ..v
        },
        AppEvent::DeleteAuthorisedAgent(id) => StoreView {
            authorised_agents: remove_seq::<AuthorisedAgent>(v.authorised_agents, id.0),
            ..v
        },
        AppEvent::CreateListSubmitter(s) => StoreView {
            list_submitters: upsert_seq::<ListSubmitter>(v.list_submitters, s),
            ..v
        },
        AppEvent::UpdateListSubmitter(s) => StoreView {
            list_submitters: replace_seq::<ListSubmitter>(v.list_submitters, s),
            ..v
        },
        AppEvent::DeleteListSubmitter(id) => StoreView {
            list_submitters: remove_seq::<ListSubmitter>(v.list_submitters, id.0),
            ..v
        },
        AppEvent::CreateSubstituteSubmitter(s) => StoreView {
            substitute_submitters: upsert_seq::<SubstituteSubmitter>(v.substitute_submitters, s),
            ..v
        },
        AppEvent::UpdateSubstituteSubmitter(s) => StoreView {
            substitute_submitters: replace_seq::<SubstituteSubmitter>(v.substitute_submitters, s),
            ..v
        },
        AppEvent::DeleteSubstituteSubmitter(id) => StoreView {
            substitute_submitters: remove_seq::<SubstituteSubmitter>(v.substitute_submitters, id.0),
            ..v
        },
    }
}

/// The events of `es` applied in order to `v`.
pub open spec fn apply_events(v: StoreView, es: Seq<AppEvent>) -> StoreView
    decreases es.len(),
{
    if es.len() == 0 {
        v
    } else {
        apply_event(apply_events(v, es.drop_last()), es.last())
    }
}

/// Applying an event keeps every record kind free of duplicate identifiers.
pub proof fn lemma_apply_keeps_wf(v: StoreView, e: AppEvent)
    requires
        store_wf(v),
    ensures
        store_wf(apply_event(v, e)),
{
    match e {
        AppEvent::UpdatePoliticalGroup(g) => {},
        AppEvent::CreatePerson(p) => lemma_upsert::<Person>(v.persons, p),
        AppEvent::UpdatePerson(p) => lemma_replace::<Person>(v.persons, p),
        AppEvent::DeletePerson(id) => lemma_remove::<Person>(v.persons, id.0),
        AppEvent::CreateCandidateList(l) => lemma_upsert::<CandidateList>(v.candidate_lists, l@),
        AppEvent::UpdateCandidateList(l) => lemma_replace::<CandidateList>(v.candidate_lists, l@),
        AppEvent::DeleteCandidateList(id) => lemma_remove::<CandidateList>(v.candidate_lists, id.0),
        AppEvent::CreateAuthorisedAgent(a) => lemma_upsert::<AuthorisedAgent>(v.authorised_agents, a),
        AppEvent::UpdateAuthorisedAgent(a) => lemma_replace::<AuthorisedAgent>(v.authorised_agents, a),
        AppEvent::DeleteAuthorisedAgent(id) => lemma_remove::<AuthorisedAgent>(v.authorised_agents, id.0),
        AppEvent::CreateListSubmitter(s) => lemma_upsert::<ListSubmitter>(v.list_submitters, s),
        AppEvent::UpdateListSubmitter(s) => lemma_replace::<ListSubmitter>(v.list_submitters, s),
        AppEvent::DeleteListSubmitter(id) => lemma_remove::<ListSubmitter>(v.list_submitters, id.0),
        AppEvent::CreateSubstituteSubmitter(s) => lemma_upsert::<SubstituteSubmitter>(v.substitute_submitters, s),
        AppEvent::UpdateSubstituteSubmitter(s) => lemma_replace::<SubstituteSubmitter>(v.substitute_submitters, s),
        AppEvent::DeleteSubstituteSubmitter(id) => lemma_remove::<SubstituteSubmitter>(v.substitute_submitters, id.0),
    }
}

/// Applying a sequence of events one after another equals applying its two parts in turn.
pub proof fn lemma_apply_events_concat(v: StoreView, x: Seq<AppEvent>, y: Seq<AppEvent>)
    ensures
        apply_events(v, x + y) == apply_events(apply_events(v, x), y),
    decreases y.len(),
{
    if y.len() == 0 {
        assert(x + y =~= x);
    } else {
        assert((x + y).drop_last() =~= x + y.drop_last());
        assert((x + y).last() == y.last());
        lemma_apply_events_concat(v, x, y.drop_last());
    }
}

/// Applying a single event through `apply_events` is applying it.
pub proof fn lemma_apply_events_single(v: StoreView, e: AppEvent)
    ensures
        apply_events(v, seq![e]) == apply_event(v, e),
{
    assert(seq![e].drop_last() =~= Seq::<AppEvent>::empty());
    assert(apply_events(v, Seq::<AppEvent>::empty()) == v);
    assert(seq![e].last() == e);
}

/// Applying events keeps every record kind free of duplicate identifiers.
pub proof fn lemma_apply_events_keeps_wf(v: StoreView, es: Seq<AppEvent>)
    requires
        store_wf(v),
    ensures
        store_wf(apply_events(v, es)),
    decreases es.len(),
{
    if es.len() > 0 {
        lemma_apply_events_keeps_wf(v, es.drop_last());
        lemma_apply_keeps_wf(apply_events(v, es.drop_last()), es.last());
    }
}

/// An event as kept in a persisted stream: its identifier in the stream, when it was
/// stored, and the change.
#[derive(Debug)]
pub struct StoreEvent {
    pub event_id: i64,
    pub created_at: crate::time::Timestamp,
    pub payload: AppEvent,
}

/// The identifier of a stored event as the store tracks it (`as usize`).
pub open spec fn stored_id(event_id: i64) -> nat {
    (event_id as usize) as nat
}

/// What a stored event does to the store: nothing when an event with this identifier or
/// a later one was applied already; else the change is applied and the identifier
/// becomes the last one applied.
pub open spec fn replay_one(v: StoreView, event_id: i64, e: AppEvent) -> StoreView {
    if v.last_event_id >= stored_id(event_id) {
        v
    } else {
        StoreView { last_event_id: stored_id(event_id), ..apply_event(v, e) }
    }
}

/// The stored events of `es` replayed in order on `v`.
pub open spec fn replay(v: StoreView, es: Seq<StoreEvent>) -> StoreView
    decreases es.len(),
{
    if es.len() == 0 {
        v
    } else {
        replay_one(replay(v, es.drop_last()), es.last().event_id, es.last().payload)
    }
}

/// The changes carried by the stored events of `es`, in order.
pub open spec fn payloads(es: Seq<StoreEvent>) -> Seq<AppEvent> {
    es.map_values(|e: StoreEvent| e.payload)
}

/// `after` extends the event log of `before`, and its state is what the added events
/// make of the state of `before`.
pub open spec fn journaled(
    before_state: StoreView,
    before_log: Seq<AppEvent>,
    after_state: StoreView,
    after_log: Seq<AppEvent>,
) -> bool {
    &&& after_log.len() >= before_log.len()
    &&& after_log.take(before_log.len() as int) == before_log
    &&& after_state == apply_events(before_state, after_log.skip(before_log.len() as int))
}

/// A journal that extends a journal is a journal of the first state.
pub proof fn lemma_journaled_trans(
    s1: StoreView,
    l1: Seq<AppEvent>,
    s2: StoreView,
    l2: Seq<AppEvent>,
    s3: StoreView,
    l3: Seq<AppEvent>,
)
    requires
        journaled(s1, l1, s2, l2),
        journaled(s2, l2, s3, l3),
    ensures
        journaled(s1, l1, s3, l3),
{
    let a = l2.skip(l1.len() as int);
    let b = l3.skip(l2.len() as int);
    assert(l3.take(l1.len() as int) =~= l2.take(l1.len() as int));
    assert(l3.skip(l1.len() as int) =~= a + b);
    lemma_apply_events_concat(s1, a, b);
}

/// A state with an unchanged log is a journal of itself.
pub proof fn lemma_journaled_refl(s: StoreView, l: Seq<AppEvent>)
    ensures
        journaled(s, l, s, l),
{
    assert(l.take(l.len() as int) =~= l);
    assert(l.skip(l.len() as int) =~= Seq::<AppEvent>::empty());
}

/// The state `v` with `l` in place of the candidate list with its identifier.
pub open spec fn with_list(v: StoreView, l: CandidateListView) -> StoreView {
    StoreView { candidate_lists: replace_seq::<CandidateList>(v.candidate_lists, l), ..v }
}

/// The state `v` with `l` added as a candidate list (or in place of the one with its
/// identifier).
pub open spec fn with_new_list(v: StoreView, l: CandidateListView) -> StoreView {
    StoreView { candidate_lists: upsert_seq::<CandidateList>(v.candidate_lists, l), ..v }
}

/// The state of a store.
pub struct AppStoreData {
    political_group: PoliticalGroup,
    persons: Table<Person>,
    candidate_lists: Table<CandidateList>,
    authorised_agents: Table<AuthorisedAgent>,
    list_submitters: Table<ListSubmitter>,
    substitute_submitters: Table<SubstituteSubmitter>,
    last_event_id: usize,
}

impl View for AppStoreData {
    type V = StoreView;

    closed spec fn view(&self) -> StoreView {
        StoreView {
            political_group: self.political_group,
            persons: self.persons.seq(),
            candidate_lists: self.candidate_lists.seq(),
            authorised_agents: self.authorised_agents.seq(),
            list_submitters: self.list_submitters.seq(),
            substitute_submitters: self.substitute_submitters.seq(),
            last_event_id: self.last_event_id as nat,
        }
    }
}

impl AppStoreData {
    /// The state is well formed: no record kind holds a duplicate identifier.
    pub open spec fn wf(&self) -> bool {
        store_wf(self@)
    }

    /// A fresh state.
    pub fn new() -> (d: Self)
        ensures
            d.wf(),
            d@ == empty_store(),
    {
        AppStoreData {
            political_group: PoliticalGroup::blank(),
            persons: Table::new(),
            candidate_lists: Table::new(),
            authorised_agents: Table::new(),
            list_submitters: Table::new(),
            substitute_submitters: Table::new(),
            last_event_id: 0,
        }
    }
}

/// An in-memory store. Every change goes through `update`, which applies the event
/// and also appends it to the store's log of events not yet handed on.
pub struct AppStore {
    data: AppStoreData,
    events: Vec<AppEvent>,
}

impl AppStore {
    /// The store's contents.
    pub closed spec fn state(&self) -> StoreView {
        self.data@
    }

    /// The events applied by `update` and not yet taken with `take_events`, oldest first.
    pub closed spec fn pending(&self) -> Seq<AppEvent> {
        self.events@
    }

    /// The store is well formed.
    pub open spec fn wf(&self) -> bool {
        store_wf(self.state())
    }

    /// `after` holds what `before` holds: same contents, same pending events.
    pub open spec fn unchanged(before: &AppStore, after: &AppStore) -> bool {
        &&& after.state() == before.state()
        &&& after.pending() == before.pending()
    }

    /// `after` is `before` with the single event `e` applied and logged.
    pub open spec fn applied(before: &AppStore, after: &AppStore, e: AppEvent) -> bool {
        &&& after.wf()
        &&& after.state() == apply_event(before.state(), e)
        &&& after.pending() == before.pending().push(e)
    }

    /// `after` is `before` after one logged update event that put `l` in place of the
    /// candidate list with its identifier.
    pub open spec fn list_updated(before: &AppStore, after: &AppStore, l: CandidateListView) -> bool {
        &&& after.wf()
        &&& after.state() == with_list(before.state(), l)
        &&& after.pending().len() == before.pending().len() + 1
        &&& after.pending().drop_last() == before.pending()
        &&& after.pending().last() matches AppEvent::UpdateCandidateList(x) && x@ == l
    }

    /// `after` is `before` after one logged create event for candidate list `l`.
    pub open spec fn list_created(before: &AppStore, after: &AppStore, l: CandidateListView) -> bool {
        &&& after.wf()
        &&& after.state() == with_new_list(before.state(), l)
        &&& after.pending().len() == before.pending().len() + 1
        &&& after.pending().drop_last() == before.pending()
        &&& after.pending().last() matches AppEvent::CreateCandidateList(x) && x@ == l
    }

    /// `after` came from `before` by applying events, and logged exactly those.
    pub open spec fn journaled(before: &AppStore, after: &AppStore) -> bool {
        journaled(before.state(), before.pending(), after.state(), after.pending())
    }

    /// The persons, keyed by identifier.
    pub open spec fn person_map(&self) -> Map<u128, Person> {
        map_of::<Person>(self.state().persons)
    }

    /// The candidate lists, keyed by identifier.
    pub open spec fn list_map(&self) -> Map<u128, CandidateListView> {
        map_of::<CandidateList>(self.state().candidate_lists)
    }

    /// The authorised agents, keyed by identifier.
    pub open spec fn agent_map(&self) -> Map<u128, AuthorisedAgent> {
        map_of::<AuthorisedAgent>(self.state().authorised_agents)
    }

    /// The list submitters, keyed by identifier.
    pub open spec fn submitter_map(&self) -> Map<u128, ListSubmitter> {
        map_of::<ListSubmitter>(self.state().list_submitters)
    }

    /// The substitute submitters, keyed by identifier.
    pub open spec fn substitute_map(&self) -> Map<u128, SubstituteSubmitter> {
        map_of::<SubstituteSubmitter>(self.state().substitute_submitters)
    }

    /// A fresh, empty store.
    pub fn new() -> (s: Self)
        ensures
            s.wf(),
            s.state() == empty_store(),
            s.pending() == Seq::<AppEvent>::empty(),
    {
        let s = AppStore { data: AppStoreData::new(), events: Vec::new() };
        assert(s.pending() =~= Seq::<AppEvent>::empty());
        s
    }

    /// Applies `event` to `data`.
    pub fn apply(event: &AppEvent, data: &mut AppStoreData)
        requires
            old(data).wf(),
        ensures
            final(data).wf(),
            final(data)@ == apply_event(old(data)@, *event),
    {
        proof {
            lemma_apply_keeps_wf(data@, *event);
        }
        match event {
            AppEvent::UpdatePoliticalGroup(g) => {
                data.political_group = g.clone();
            },
            AppEvent::CreatePerson(p) => data.persons.upsert(p.clone()),
            AppEvent::UpdatePerson(p) => data.persons.replace(p.clone()),
            AppEvent::DeletePerson(id) => data.persons.remove(id.0),
            AppEvent::CreateCandidateList(l) => data.candidate_lists.upsert(l.clone()),
            AppEvent::UpdateCandidateList(l) => data.candidate_lists.replace(l.clone()),
            AppEvent::DeleteCandidateList(id) => data.candidate_lists.remove(id.0),
            AppEvent::CreateAuthorisedAgent(a) => data.authorised_agents.upsert(a.clone()),
            AppEvent::UpdateAuthorisedAgent(a) => data.authorised_agents.replace(a.clone()),
            AppEvent::DeleteAuthorisedAgent(id) => data.authorised_agents.remove(id.0),
            AppEvent::CreateListSubmitter(s) => data.list_submitters.upsert(s.clone()),
            AppEvent::UpdateListSubmitter(s) => data.list_submitters.replace(s.clone()),
            AppEvent::DeleteListSubmitter(id) => data.list_submitters.remove(id.0),
            AppEvent::CreateSubstituteSubmitter(s) => data.substitute_submitters.upsert(s.clone()),
            AppEvent::UpdateSubstituteSubmitter(s) => data.substitute_submitters.replace(s.clone()),
            AppEvent::DeleteSubstituteSubmitter(id) => data.substitute_submitters.remove(id.0),
        }
    }

    /// Applies `event` and appends it to the pending events. Never fails.
    pub fn update(&mut self, event: AppEvent) -> (r: Result<(), AppError>)
        requires
            old(self).wf(),
        ensures
            r is Ok,
            final(self).wf(),
            final(self).state() == apply_event(old(self).state(), event),
            final(self).pending() == old(self).pending().push(event),
            AppStore::journaled(&*old(self), &*final(self)),
    {
        proof {
            let l = self.events@.push(event);
            assert(l.take(self.events@.len() as int) =~= self.events@);
            assert(l.skip(self.events@.len() as int) =~= seq![event]);
            lemma_apply_events_single(self.data@, event);
        }
        AppStore::apply(&event, &mut self.data);
        self.events.push(event);
        Ok(())
    }

    /// Hands over the pending events, oldest first, and empties the log.
    pub fn take_events(&mut self) -> (es: Vec<AppEvent>)
        ensures
            es@ == old(self).pending(),
            final(self).pending() == Seq::<AppEvent>::empty(),
            final(self).state() == old(self).state(),
    {
        let mut es: Vec<AppEvent> = Vec::new();
        std::mem::swap(&mut es, &mut self.events);
        assert(self.events@ =~= Seq::<AppEvent>::empty());
        es
    }

    /// All candidate lists, earliest created first (the identifier decides among lists
    /// created at the same instant).
    pub fn get_candidate_lists(&self) -> (r: Vec<CandidateList>)
        requires
            self.wf(),
        ensures
            views(r@).to_multiset() == self.state().candidate_lists.to_multiset(),
            lists_sorted(views(r@)),
            unique_keys::<CandidateList>(views(r@)),
            forall|i: int| 0 <= i < r@.len() ==> self.list_map().contains_key((#[trigger] r@[i]).id.0)
                && self.list_map()[r@[i].id.0] == r@[i]@,
            forall|k: u128| has_key::<CandidateList>(views(r@), k) == self.list_map().contains_key(k),
            forall|i: int, j: int| 0 <= i < j < r@.len() ==> {
                ||| (#[trigger] views(r@)[i]).created_at.secs < (#[trigger] views(r@)[j]).created_at.secs
                ||| (views(r@)[i].created_at.secs == views(r@)[j].created_at.secs
                    && views(r@)[i].created_at.nanos < views(r@)[j].created_at.nanos)
                ||| (views(r@)[i].created_at == views(r@)[j].created_at && views(r@)[i].id.0 < views(r@)[j].id.0)
            },
    {
        let r = sort_lists(self.data.candidate_lists.to_vec());
        proof {
            lemma_permutation_entries::<CandidateList>(views(r@), self.state().candidate_lists);
            assert forall|i: int| 0 <= i < r@.len() implies self.list_map().contains_key((#[trigger] r@[i]).id.0)
                && self.list_map()[r@[i].id.0] == r@[i]@ by {
                assert(views(r@)[i] == r@[i]@);
            }
            crate::candidate_list::law_lists_in_creation_order(views(r@));
        }
        r
    }

    /// All candidate lists, in the order in which they were first created.
    pub(crate) fn list_records(&self) -> (r: Vec<CandidateList>)
        ensures
            views(r@) == self.state().candidate_lists,
    {
        self.data.candidate_lists.to_vec()
    }

    /// The political group.
    pub fn get_political_group(&self) -> (r: PoliticalGroup)
        ensures
            r == self.state().political_group,
    {
        self.data.political_group.clone()
    }

    /// All persons, in the order in which they were first created.
    pub fn get_persons(&self) -> (r: Vec<Person>)
        ensures
            r@ == self.state().persons,
    {
        let v = self.data.persons.to_vec();
        assert(v@ =~= views(v@));
        v
    }

    /// All authorised agents, in the order in which they were first created.
    pub fn get_authorised_agents(&self) -> (r: Vec<AuthorisedAgent>)
        ensures
            r@ == self.state().authorised_agents,
    {
        let v = self.data.authorised_agents.to_vec();
        assert(v@ =~= views(v@));
        v
    }

    /// All list submitters, in the order in which they were first created.
    pub fn get_list_submitters(&self) -> (r: Vec<ListSubmitter>)
        ensures
            r@ == self.state().list_submitters,
    {
        let v = self.data.list_submitters.to_vec();
        assert(v@ =~= views(v@));
        v
    }

    /// All substitute submitters, in the order in which they were first created.
    pub fn get_substitute_submitters(&self) -> (r: Vec<SubstituteSubmitter>)
        ensures
            r@ == self.state().substitute_submitters,
    {
        let v = self.data.substitute_submitters.to_vec();
        assert(v@ =~= views(v@));
        v
    }

    /// The number of persons.
    pub fn get_person_count(&self) -> (n: usize)
        ensures
            n == self.state().persons.len(),
    {
        self.data.persons.len()
    }

    /// The candidate list with this identifier, or `GenericNotFound`.
    pub fn get_candidate_list(&self, list_id: CandidateListId) -> (r: Result<CandidateList, AppError>)
        requires
            self.wf(),
        ensures
            r is Ok == self.list_map().contains_key(list_id.0),
            r matches Ok(l) ==> l@ == self.list_map()[list_id.0],
            r matches Err(e) ==> e is GenericNotFound,
    {
        match self.data.candidate_lists.get(list_id.0) {
            Some(l) => Ok(l),
            None => Err(AppError::GenericNotFound),
        }
    }

    /// The person with this identifier, or `GenericNotFound`.
    pub fn get_person(&self, person_id: PersonId) -> (r: Result<Person, AppError>)
        requires
            self.wf(),
        ensures
            r is Ok == self.person_map().contains_key(person_id.0),
            r matches Ok(p) ==> p == self.person_map()[person_id.0],
            r matches Err(e) ==> e is GenericNotFound,
    {
        match self.data.persons.get(person_id.0) {
            Some(p) => Ok(p),
            None => Err(AppError::GenericNotFound),
        }
    }

    /// The authorised agent with this identifier, or `GenericNotFound`.
    pub fn get_authorised_agent(&self, authorised_agent_id: AuthorisedAgentId) -> (r: Result<AuthorisedAgent, AppError>)
        requires
            self.wf(),
        ensures
            r is Ok == self.agent_map().contains_key(authorised_agent_id.0),
            r matches Ok(a) ==> a == self.agent_map()[authorised_agent_id.0],
            r matches Err(e) ==> e is GenericNotFound,
    {
        match self.data.authorised_agents.get(authorised_agent_id.0) {
            Some(a) => Ok(a),
            None => Err(AppError::GenericNotFound),
        }
    }

    /// The list submitter with this identifier, or `GenericNotFound`.
    pub fn get_list_submitter(&self, list_submitter_id: ListSubmitterId) -> (r: Result<ListSubmitter, AppError>)
        requires
            self.wf(),
        ensures
            r is Ok == self.submitter_map().contains_key(list_submitter_id.0),
            r matches Ok(s) ==> s == self.submitter_map()[list_submitter_id.0],
            r matches Err(e) ==> e is GenericNotFound,
    {
        match self.data.list_submitters.get(list_submitter_id.0) {
            Some(s) => Ok(s),
            None => Err(AppError::GenericNotFound),
        }
    }

    /// The substitute submitter with this identifier, or `GenericNotFound`.
    pub fn get_substitute_submitter(&self, substitute_submitter_id: SubstituteSubmitterId) -> (r: Result<SubstituteSubmitter, AppError>)
        requires
            self.wf(),
        ensures
            r is Ok == self.substitute_map().contains_key(substitute_submitter_id.0),
            r matches Ok(s) ==> s == self.substitute_map()[substitute_submitter_id.0],
            r matches Err(e) ==> e is GenericNotFound,
    {
        match self.data.substitute_submitters.get(substitute_submitter_id.0) {
            Some(s) => Ok(s),
            None => Err(AppError::GenericNotFound),
        }
    }

    /// Applies a stored event unless an event with this identifier or a later one has
    /// been applied already; the identifier then becomes the last one applied. The event
    /// is not added to the pending events.
    pub fn apply_stored_event(&mut self, event_id: i64, event: AppEvent)
        requires
            old(self).wf(),
        ensures
            final(self).wf(),
            final(self).state() == replay_one(old(self).state(), event_id, event),
            final(self).pending() == old(self).pending(),
    {
        let id = event_id as usize;
        if self.data.last_event_id >= id {
            return;
        }
        AppStore::apply(&event, &mut self.data);
        self.data.last_event_id = id;
    }

    /// Records that the stored event with this identifier is already reflected in the
    /// store (it was applied before it was stored): the identifier becomes the last one
    /// applied unless a later one is recorded. Nothing else changes.
    pub fn note_stored_event_id(&mut self, event_id: i64)
        ensures
            final(self).state() == (StoreView {
                last_event_id: if old(self).state().last_event_id >= stored_id(event_id) {
                    old(self).state().last_event_id
                } else {
                    stored_id(event_id)
                },
                ..old(self).state()
            }),
            final(self).pending() == old(self).pending(),
            old(self).wf() ==> final(self).wf(),
    {
        let id = event_id as usize;
        if self.data.last_event_id < id {
            self.data.last_event_id = id;
        }
    }

    /// The identifier of the last stored event applied.
    pub fn get_last_event_id(&self) -> (n: usize)
        ensures
            n == self.state().last_event_id,
    {
        self.data.last_event_id
    }
}

impl Default for AppStore {
    fn default() -> (s: Self)
        ensures
            s.wf(),
            s.state() == empty_store(),
            s.pending() == Seq::<AppEvent>::empty(),
    {
        AppStore::new()
    }
}

} // verus!
