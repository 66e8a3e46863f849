//! Reading and changing the political group and the people who act for it.

use vstd::prelude::*;

use crate::error::{not_found, not_found_with, AppError};
use crate::ids::{AuthorisedAgentId, ListSubmitterId, PoliticalGroupId, SubstituteSubmitterId};
use crate::political_group::{AuthorisedAgent, ListSubmitter, PoliticalGroup, SubstituteSubmitter};
use crate::store::{AppEvent, AppStore};
use crate::table::{lemma_remove, lemma_upsert, lemma_replace};
use crate::time::Timestamp;

verus! {

/// The store's political group has this identifier.
pub open spec fn is_group(store: &AppStore, political_group_id: PoliticalGroupId) -> bool {
    store.state().political_group.id == political_group_id
}

/// `Ok` when the store's political group has this identifier, else
/// `NotFound("Political group not found.")`.
fn check_group(store: &AppStore, political_group_id: PoliticalGroupId) -> (r: Result<(), AppError>)
    ensures
        r is Ok == is_group(store, political_group_id),
        r matches Err(e) ==> not_found_with(e, "Political group not found."@),
{
    let group = PoliticalGroup::get_single(store)?;
    match group {
        Some(g) => {
            if g.id == political_group_id {
                Ok(())
            } else {
                Err(not_found("Political group not found."))
            }
        },
        None => Err(not_found("Political group not found.")),
    }
}

impl PoliticalGroup {
    /// The store's political group.
    pub fn get_single(store: &AppStore) -> (r: Result<Option<PoliticalGroup>, AppError>)
        ensures
            r matches Ok(Some(g)) && g == store.state().political_group,
    {
        Ok(Some(store.get_political_group()))
    }

    /// The list submitters, in the order in which they were first created, when the
    /// store's group has this identifier; else `NotFound("Political group not found.")`.
    pub fn list_submitters(store: &AppStore, political_group_id: PoliticalGroupId) -> (r: Result<Vec<ListSubmitter>, AppError>)
        ensures
            r is Ok == is_group(store, political_group_id),
            r matches Err(e) ==> not_found_with(e, "Political group not found."@),
            r matches Ok(v) ==> v@ == store.state().list_submitters,
    {
        check_group(store, political_group_id)?;
        Ok(store.get_list_submitters())
    }

    /// The authorised agents, in the order in which they were first created, when the
    /// store's group has this identifier; else `NotFound("Political group not found.")`.
    pub fn list_authorised_agents(store: &AppStore, political_group_id: PoliticalGroupId) -> (r: Result<Vec<AuthorisedAgent>, AppError>)
        ensures
            r is Ok == is_group(store, political_group_id),
            r matches Err(e) ==> not_found_with(e, "Political group not found."@),
            r matches Ok(v) ==> v@ == store.state().authorised_agents,
    {
        check_group(store, political_group_id)?;
        Ok(store.get_authorised_agents())
    }

    /// The substitute submitters, in the order in which they were first created, when the
    /// store's group has this identifier; else `NotFound("Political group not found.")`.
    pub fn list_substitute_submitters(store: &AppStore, political_group_id: PoliticalGroupId) -> (r: Result<Vec<SubstituteSubmitter>, AppError>)
        ensures
            r is Ok == is_group(store, political_group_id),
            r matches Err(e) ==> not_found_with(e, "Political group not found."@),
            r matches Ok(v) ==> v@ == store.state().substitute_submitters,
    {
        check_group(store, political_group_id)?;
        Ok(store.get_substitute_submitters())
    }

    /// The authorised agent with this identifier. `NotFound("Political group not found.")`
    /// when the group has another identifier, `GenericNotFound` when there is no such agent.
    pub fn get_authorised_agent(
        store: &AppStore,
        political_group_id: PoliticalGroupId,
        authorised_agent_id: AuthorisedAgentId,
    ) -> (r: Result<AuthorisedAgent, AppError>)
        requires
            store.wf(),
        ensures
            r is Ok == (is_group(store, political_group_id) && store.agent_map().contains_key(authorised_agent_id.0)),
            r matches Err(e) ==> if !is_group(store, political_group_id) {
                not_found_with(e, "Political group not found."@)
            } else {
                e is GenericNotFound
            },
            r matches Ok(a) ==> a == store.agent_map()[authorised_agent_id.0],
    {
        check_group(store, political_group_id)?;
        store.get_authorised_agent(authorised_agent_id)
    }

    /// The list submitter with this identifier. `NotFound("Political group not found.")`
    /// when the group has another identifier, `GenericNotFound` when there is no such
    /// submitter.
    pub fn get_list_submitter(
        store: &AppStore,
        political_group_id: PoliticalGroupId,
        submitter_id: ListSubmitterId,
    ) -> (r: Result<ListSubmitter, AppError>)
        requires
            store.wf(),
        ensures
            r is Ok == (is_group(store, political_group_id) && store.submitter_map().contains_key(submitter_id.0)),
            r matches Err(e) ==> if !is_group(store, political_group_id) {
                not_found_with(e, "Political group not found."@)
            } else {
                e is GenericNotFound
            },
            r matches Ok(s) ==> s == store.submitter_map()[submitter_id.0],
    {
        check_group(store, political_group_id)?;
        store.get_list_submitter(submitter_id)
    }

    /// The substitute submitter with this identifier. `NotFound("Political group not
    /// found.")` when the group has another identifier, `GenericNotFound` when there is no
    /// such submitter.
    pub fn get_substitute_submitter(
        store: &AppStore,
        political_group_id: PoliticalGroupId,
        submitter_id: SubstituteSubmitterId,
    ) -> (r: Result<SubstituteSubmitter, AppError>)
        requires
            store.wf(),
        ensures
            r is Ok == (is_group(store, political_group_id) && store.substitute_map().contains_key(submitter_id.0)),
            r matches Err(e) ==> if !is_group(store, political_group_id) {
                not_found_with(e, "Political group not found."@)
            } else {
                e is GenericNotFound
            },
            r matches Ok(s) ==> s == store.substitute_map()[submitter_id.0],
    {
        check_group(store, political_group_id)?;
        store.get_substitute_submitter(submitter_id)
    }

    /// Makes this the store's political group, created and updated now, and returns it.
    pub fn create(&self, store: &mut AppStore) -> (r: Result<PoliticalGroup, AppError>)
        requires
            old(store).wf(),
        ensures
            r matches Ok(g) && g == (PoliticalGroup { created_at: g.created_at, updated_at: g.created_at, ..*self })
                && AppStore::applied(&*old(store), &*final(store), AppEvent::UpdatePoliticalGroup(g)),
    {
        let now = Timestamp::now();
        let mut group = self.clone();
        group.created_at = now;
        group.updated_at = now;
        store.update(AppEvent::UpdatePoliticalGroup(group.clone()))?;
        Ok(group)
    }

    /// Makes this the store's political group, keeping the stored creation time and
    /// stamping the update with the current time; returns it.
    pub fn update(&self, store: &mut AppStore) -> (r: Result<PoliticalGroup, AppError>)
        requires
            old(store).wf(),
        ensures
            r matches Ok(g) && g == (PoliticalGroup {
                created_at: old(store).state().political_group.created_at,
                updated_at: g.updated_at,
                ..*self
            }) && AppStore::applied(&*old(store), &*final(store), AppEvent::UpdatePoliticalGroup(g)),
    {
        let existing = match PoliticalGroup::get_single(store)? {
            Some(g) => g,
            None => return Err(not_found("Political group not found.")),
        };
        let mut group = self.clone();
        group.created_at = existing.created_at;
        group.updated_at = Timestamp::now();
        store.update(AppEvent::UpdatePoliticalGroup(group.clone()))?;
        Ok(group)
    }
}

impl AuthorisedAgent {
    /// Records the authorised agent for the political group with this identifier, created and
    /// updated now, and returns it. `NotFound("Political group not found.")` when the
    /// store's group has another identifier; the store is then unchanged.
    pub fn create(&self, store: &mut AppStore, political_group_id: PoliticalGroupId) -> (r: Result<AuthorisedAgent, AppError>)
        requires
            old(store).wf(),
        ensures
            r is Ok == is_group(&*old(store), political_group_id),
            r matches Err(e) ==> not_found_with(e, "Political group not found."@)
                && AppStore::unchanged(&*old(store), &*final(store)),
            r matches Ok(x) ==> {
                &&& x == (AuthorisedAgent { created_at: x.created_at, updated_at: x.created_at, ..*self })
                &&& AppStore::applied(&*old(store), &*final(store), AppEvent::CreateAuthorisedAgent(x))
                &&& final(store).agent_map() == old(store).agent_map().insert(x.id.0, x)
            },
    {
        check_group(store, political_group_id)?;
        let now = Timestamp::now();
        let mut x = self.clone();
        x.created_at = now;
        x.updated_at = now;
        proof {
            lemma_upsert::<AuthorisedAgent>(store.state().authorised_agents, x);
        }
        store.update(AppEvent::CreateAuthorisedAgent(x.clone()))?;
        Ok(x)
    }

    /// Replaces the stored authorised agent with this one's identifier by this one, keeping the
    /// stored creation time and stamping the update with the current time; returns it.
    /// `NotFound("Political group not found.")` when the store's group has another
    /// identifier, `GenericNotFound` when there is no such authorised agent; the store is then
    /// unchanged.
    pub fn update(&self, store: &mut AppStore, political_group_id: PoliticalGroupId) -> (r: Result<AuthorisedAgent, AppError>)
        requires
            old(store).wf(),
        ensures
            r is Ok == (is_group(&*old(store), political_group_id) && old(store).agent_map().contains_key(self.id.0)),
            r matches Err(e) ==> AppStore::unchanged(&*old(store), &*final(store)) && if !is_group(&*old(store), political_group_id) {
                not_found_with(e, "Political group not found."@)
            } else {
                e is GenericNotFound
            },
            r matches Ok(x) ==> {
                &&& x == (AuthorisedAgent {
                    created_at: old(store).agent_map()[self.id.0].created_at,
                    updated_at: x.updated_at,
                    ..*self
                })
                &&& AppStore::applied(&*old(store), &*final(store), AppEvent::UpdateAuthorisedAgent(x))
                &&& final(store).agent_map() == old(store).agent_map().insert(x.id.0, x)
            },
    {
        check_group(store, political_group_id)?;
        let existing = store.get_authorised_agent(self.id)?;
        let mut x = self.clone();
        x.created_at = existing.created_at;
        x.updated_at = Timestamp::now();
        proof {
            lemma_replace::<AuthorisedAgent>(store.state().authorised_agents, x);
        }
        store.update(AppEvent::UpdateAuthorisedAgent(x.clone()))?;
        Ok(x)
    }

    /// Removes the stored authorised agent with this one's identifier, if there is one.
    /// `NotFound("Political group not found.")` when the store's group has another
    /// identifier; the store is then unchanged.
    pub fn delete(&self, store: &mut AppStore, political_group_id: PoliticalGroupId) -> (r: Result<(), AppError>)
        requires
            old(store).wf(),
        ensures
            r is Ok == is_group(&*old(store), political_group_id),
            r matches Err(e) ==> not_found_with(e, "Political group not found."@)
                && AppStore::unchanged(&*old(store), &*final(store)),
            r is Ok ==> AppStore::applied(&*old(store), &*final(store), AppEvent::DeleteAuthorisedAgent(self.id))
                && final(store).agent_map() == old(store).agent_map().remove(self.id.0),
    {
        AuthorisedAgent::delete_by_id(store, political_group_id, self.id)
    }

    /// Removes the authorised agent with this identifier, if there is one.
    /// `NotFound("Political group not found.")` when the store's group has another
    /// identifier; the store is then unchanged.
    pub fn delete_by_id(store: &mut AppStore, political_group_id: PoliticalGroupId, authorised_agent_id: AuthorisedAgentId) -> (r: Result<(), AppError>)
        requires
            old(store).wf(),
        ensures
            r is Ok == is_group(&*old(store), political_group_id),
            r matches Err(e) ==> not_found_with(e, "Political group not found."@)
                && AppStore::unchanged(&*old(store), &*final(store)),
            r is Ok ==> AppStore::applied(&*old(store), &*final(store), AppEvent::DeleteAuthorisedAgent(authorised_agent_id))
                && final(store).agent_map() == old(store).agent_map().remove(authorised_agent_id.0),
    {
        check_group(store, political_group_id)?;
        proof {
            lemma_remove::<AuthorisedAgent>(store.state().authorised_agents, authorised_agent_id.0);
        }
        store.update(AppEvent::DeleteAuthorisedAgent(authorised_agent_id))?;
        Ok(())
    }
}

impl ListSubmitter {
    /// Records the list submitter for the political group with this identifier, created and
    /// updated now, and returns it. `NotFound("Political group not found.")` when the
    /// store's group has another identifier; the store is then unchanged.
    pub fn create(&self, store: &mut AppStore, political_group_id: PoliticalGroupId) -> (r: Result<ListSubmitter, AppError>)
        requires
            old(store).wf(),
        ensures
            r is Ok == is_group(&*old(store), political_group_id),
            r matches Err(e) ==> not_found_with(e, "Political group not found."@)
                && AppStore::unchanged(&*old(store), &*final(store)),
            r matches Ok(x) ==> {
                &&& x == (ListSubmitter { created_at: x.created_at, updated_at: x.created_at, ..*self })
                &&& AppStore::applied(&*old(store), &*final(store), AppEvent::CreateListSubmitter(x))
                &&& final(store).submitter_map() == old(store).submitter_map().insert(x.id.0, x)
            },
    {
        check_group(store, political_group_id)?;
        let now = Timestamp::now();
        let mut x = self.clone();
        x.created_at = now;
        x.updated_at = now;
        proof {
            lemma_upsert::<ListSubmitter>(store.state().list_submitters, x);
        }
        store.update(AppEvent::CreateListSubmitter(x.clone()))?;
        Ok(x)
    }

    /// Replaces the stored list submitter with this one's identifier by this one, keeping the
    /// stored creation time and stamping the update with the current time; returns it.
    /// `NotFound("Political group not found.")` when the store's group has another
    /// identifier, `GenericNotFound` when there is no such list submitter; the store is then
    /// unchanged.
    pub fn update(&self, store: &mut AppStore, political_group_id: PoliticalGroupId) -> (r: Result<ListSubmitter, AppError>)
        requires
            old(store).wf(),
        ensures
            r is Ok == (is_group(&*old(store), political_group_id) && old(store).submitter_map().contains_key(self.id.0)),
            r matches Err(e) ==> AppStore::unchanged(&*old(store), &*final(store)) && if !is_group(&*old(store), political_group_id) {
                not_found_with(e, "Political group not found."@)
            } else {
                e is GenericNotFound
            },
            r matches Ok(x) ==> {
                &&& x == (ListSubmitter {
                    created_at: old(store).submitter_map()[self.id.0].created_at,
                    updated_at: x.updated_at,
                    ..*self
                })
                &&& AppStore::applied(&*old(store), &*final(store), AppEvent::UpdateListSubmitter(x))
                &&& final(store).submitter_map() == old(store).submitter_map().insert(x.id.0, x)
            },
    {
        check_group(store, political_group_id)?;
        let existing = store.get_list_submitter(self.id)?;
        let mut x = self.clone();
        x.created_at = existing.created_at;
        x.updated_at = Timestamp::now();
        proof {
            lemma_replace::<ListSubmitter>(store.state().list_submitters, x);
        }
        store.update(AppEvent::UpdateListSubmitter(x.clone()))?;
        Ok(x)
    }

    /// Removes the stored list submitter with this one's identifier, if there is one.
    /// `NotFound("Political group not found.")` when the store's group has another
    /// identifier; the store is then unchanged.
    pub fn delete(&self, store: &mut AppStore, political_group_id: PoliticalGroupId) -> (r: Result<(), AppError>)
        requires
            old(store).wf(),
        ensures
            r is Ok == is_group(&*old(store), political_group_id),
            r matches Err(e) ==> not_found_with(e, "Political group not found."@)
                && AppStore::unchanged(&*old(store), &*final(store)),
            r is Ok ==> AppStore::applied(&*old(store), &*final(store), AppEvent::DeleteListSubmitter(self.id))
                && final(store).submitter_map() == old(store).submitter_map().remove(self.id.0),
    {
        ListSubmitter::delete_by_id(store, political_group_id, self.id)
    }

    /// Removes the list submitter with this identifier, if there is one.
    /// `NotFound("Political group not found.")` when the store's group has another
    /// identifier; the store is then unchanged.
    pub fn delete_by_id(store: &mut AppStore, political_group_id: PoliticalGroupId, list_submitter_id: ListSubmitterId) -> (r: Result<(), AppError>)
        requires
            old(store).wf(),
        ensures
            r is Ok == is_group(&*old(store), political_group_id),
            r matches Err(e) ==> not_found_with(e, "Political group not found."@)
                && AppStore::unchanged(&*old(store), &*final(store)),
            r is Ok ==> AppStore::applied(&*old(store), &*final(store), AppEvent::DeleteListSubmitter(list_submitter_id))
                && final(store).submitter_map() == old(store).submitter_map().remove(list_submitter_id.0),
    {
        check_group(store, political_group_id)?;
        proof {
            lemma_remove::<ListSubmitter>(store.state().list_submitters, list_submitter_id.0);
        }
        store.update(AppEvent::DeleteListSubmitter(list_submitter_id))?;
        Ok(())
    }
}

impl SubstituteSubmitter {
    /// Records the substitute submitter for the political group with this identifier, created and
    /// updated now, and returns it. `NotFound("Political group not found.")` when the
    /// store's group has another identifier; the store is then unchanged.
    pub fn create(&self, store: &mut AppStore, political_group_id: PoliticalGroupId) -> (r: Result<SubstituteSubmitter, AppError>)
        requires
            old(store).wf(),
        ensures
            r is Ok == is_group(&*old(store), political_group_id),
            r matches Err(e) ==> not_found_with(e, "Political group not found."@)
                && AppStore::unchanged(&*old(store), &*final(store)),
            r matches Ok(x) ==> {
                &&& x == (SubstituteSubmitter { created_at: x.created_at, updated_at: x.created_at, ..*self })
                &&& AppStore::applied(&*old(store), &*final(store), AppEvent::CreateSubstituteSubmitter(x))
                &&& final(store).substitute_map() == old(store).substitute_map().insert(x.id.0, x)
            },
    {
        check_group(store, political_group_id)?;
        let now = Timestamp::now();
        let mut x = self.clone();
        x.created_at = now;
        x.updated_at = now;
        proof {
            lemma_upsert::<SubstituteSubmitter>(store.state().substitute_submitters, x);
        }
        store.update(AppEvent::CreateSubstituteSubmitter(x.clone()))?;
        Ok(x)
    }

    /// Replaces the stored substitute submitter with this one's identifier by this one, keeping the
    /// stored creation time and stamping the update with the current time; returns it.
    /// `NotFound("Political group not found.")` when the store's group has another
    /// identifier, `GenericNotFound` when there is no such substitute submitter; the store is then
    /// unchanged.
    pub fn update(&self, store: &mut AppStore, political_group_id: PoliticalGroupId) -> (r: Result<SubstituteSubmitter, AppError>)
        requires
            old(store).wf(),
        ensures
            r is Ok == (is_group(&*old(store), political_group_id) && old(store).substitute_map().contains_key(self.id.0)),
            r matches Err(e) ==> AppStore::unchanged(&*old(store), &*final(store)) && if !is_group(&*old(store), political_group_id) {
                not_found_with(e, "Political group not found."@)
            } else {
                e is GenericNotFound
            },
            r matches Ok(x) ==> {
                &&& x == (SubstituteSubmitter {
                    created_at: old(store).substitute_map()[self.id.0].created_at,
                    updated_at: x.updated_at,
                    ..*self
                })
                &&& AppStore::applied(&*old(store), &*final(store), AppEvent::UpdateSubstituteSubmitter(x))
                &&& final(store).substitute_map() == old(store).substitute_map().insert(x.id.0, x)
            },
    {
        check_group(store, political_group_id)?;
        let existing = store.get_substitute_submitter(self.id)?;
        let mut x = self.clone();
        x.created_at = existing.created_at;
        x.updated_at = Timestamp::now();
        proof {
            lemma_replace::<SubstituteSubmitter>(store.state().substitute_submitters, x);
        }
        store.update(AppEvent::UpdateSubstituteSubmitter(x.clone()))?;
        Ok(x)
    }

    /// Removes the stored substitute submitter with this one's identifier, if there is one.
    /// `NotFound("Political group not found.")` when the store's group has another
    /// identifier; the store is then unchanged.
    pub fn delete(&self, store: &mut AppStore, political_group_id: PoliticalGroupId) -> (r: Result<(), AppError>)
        requires
            old(store).wf(),
        ensures
            r is Ok == is_group(&*old(store), political_group_id),
            r matches Err(e) ==> not_found_with(e, "Political group not found."@)
                && AppStore::unchanged(&*old(store), &*final(store)),
            r is Ok ==> AppStore::applied(&*old(store), &*final(store), AppEvent::DeleteSubstituteSubmitter(self.id))
                && final(store).substitute_map() == old(store).substitute_map().remove(self.id.0),
    {
        SubstituteSubmitter::delete_by_id(store, political_group_id, self.id)
    }

    /// Removes the substitute submitter with this identifier, if there is one.
    /// `NotFound("Political group not found.")` when the store's group has another
    /// identifier; the store is then unchanged.
    pub fn delete_by_id(store: &mut AppStore, political_group_id: PoliticalGroupId, substitute_submitter_id: SubstituteSubmitterId) -> (r: Result<(), AppError>)
        requires
            old(store).wf(),
        ensures
            r is Ok == is_group(&*old(store), political_group_id),
            r matches Err(e) ==> not_found_with(e, "Political group not found."@)
                && AppStore::unchanged(&*old(store), &*final(store)),
            r is Ok ==> AppStore::applied(&*old(store), &*final(store), AppEvent::DeleteSubstituteSubmitter(substitute_submitter_id))
                && final(store).substitute_map() == old(store).substitute_map().remove(substitute_submitter_id.0),
    {
        check_group(store, political_group_id)?;
        proof {
            lemma_remove::<SubstituteSubmitter>(store.state().substitute_submitters, substitute_submitter_id.0);
        }
        store.update(AppEvent::DeleteSubstituteSubmitter(substitute_submitter_id))?;
        Ok(())
    }
}

} // verus!

verus! {

/// The text is absent or empty.
pub open spec fn text_empty(o: Option<String>) -> bool {
    o is None || o->0@.len() == 0
}

/// Nothing has been recorded of the group: no names, no answers and no representatives.
pub open spec fn group_is_blank(g: PoliticalGroup) -> bool {
    &&& text_empty(g.legal_name)
    &&& text_empty(g.display_name)
    &&& g.long_list_allowed is None
    &&& g.legal_name_confirmed is None
    &&& g.display_name_confirmed is None
    &&& g.authorised_agent_id is None
    &&& g.list_submitter_id is None
}

/// Something has been recorded of the store's political group and it has this identifier.
pub open spec fn is_recorded_group(store: &AppStore, political_group_id: PoliticalGroupId) -> bool {
    &&& !group_is_blank(store.state().political_group)
    &&& store.state().political_group.id == political_group_id
}

/// Whether the text is absent or empty.
fn is_text_empty(o: &Option<String>) -> (b: bool)
    ensures
        b == text_empty(*o),
{
    match o {
        Some(s) => s.as_str().unicode_len() == 0,
        None => true,
    }
}

/// The store's political group, or `None` while nothing has been recorded of it.
pub fn get_single_political_group(store: &AppStore) -> (r: Result<Option<PoliticalGroup>, AppError>)
    ensures
        r matches Ok(o) && if group_is_blank(store.state().political_group) {
            o is None
        } else {
            o == Some(store.state().political_group)
        },
{
    let g = store.get_political_group();
    if is_text_empty(&g.legal_name) && is_text_empty(&g.display_name) && g.long_list_allowed.is_none()
        && g.legal_name_confirmed.is_none() && g.display_name_confirmed.is_none()
        && g.authorised_agent_id.is_none() && g.list_submitter_id.is_none() {
        return Ok(None);
    }
    Ok(Some(g))
}

/// `Ok` when something has been recorded of the store's political group and it has this
/// identifier, else `NotFound("Political group not found.")`.
fn check_recorded_group(store: &AppStore, political_group_id: PoliticalGroupId) -> (r: Result<(), AppError>)
    ensures
        r is Ok == is_recorded_group(store, political_group_id),
        r matches Err(e) ==> not_found_with(e, "Political group not found."@),
{
    match get_single_political_group(store)? {
        Some(g) => {
            if g.id == political_group_id {
                Ok(())
            } else {
                Err(not_found("Political group not found."))
            }
        },
        None => Err(not_found("Political group not found.")),
    }
}

/// Makes `political_group` the store's group, keeping the stored creation time and
/// stamping the update with the current time; returns it.
/// `NotFound("Political group not found.")` while nothing has been recorded of the group;
/// the store is then unchanged.
pub fn update_political_group(store: &mut AppStore, political_group: &PoliticalGroup) -> (r: Result<PoliticalGroup, AppError>)
    requires
        old(store).wf(),
    ensures
        r is Ok == !group_is_blank(old(store).state().political_group),
        r matches Err(e) ==> not_found_with(e, "Political group not found."@)
            && AppStore::unchanged(&*old(store), &*final(store)),
        r matches Ok(g) ==> g == (PoliticalGroup {
            created_at: old(store).state().political_group.created_at,
            updated_at: g.updated_at,
            ..*political_group
        }) && AppStore::applied(&*old(store), &*final(store), AppEvent::UpdatePoliticalGroup(g)),
{
    let existing = match get_single_political_group(store)? {
        Some(g) => g,
        None => return Err(not_found("Political group not found.")),
    };
    let mut group = political_group.clone();
    group.created_at = existing.created_at;
    group.updated_at = Timestamp::now();
    store.update(AppEvent::UpdatePoliticalGroup(group.clone()))?;
    Ok(group)
}

/// Makes `political_group` the store's group, created and updated now, and returns it.
pub fn create_political_group(store: &mut AppStore, political_group: &PoliticalGroup) -> (r: Result<PoliticalGroup, AppError>)
    requires
        old(store).wf(),
    ensures
        r matches Ok(g) && g == (PoliticalGroup { created_at: g.created_at, updated_at: g.created_at, ..*political_group })
            && AppStore::applied(&*old(store), &*final(store), AppEvent::UpdatePoliticalGroup(g)),
{
    political_group.create(store)
}

/// The list submitters, in the order in which they were first created.
/// `NotFound("Political group not found.")` unless the recorded group has this identifier.
pub fn get_list_submitters(store: &AppStore, political_group_id: PoliticalGroupId) -> (r: Result<Vec<ListSubmitter>, AppError>)
    ensures
        r is Ok == is_recorded_group(store, political_group_id),
        r matches Err(e) ==> not_found_with(e, "Political group not found."@),
        r matches Ok(v) ==> v@ == store.state().list_submitters,
{
    check_recorded_group(store, political_group_id)?;
    Ok(store.get_list_submitters())
}

/// The authorised agents, in the order in which they were first created.
/// `NotFound("Political group not found.")` unless the recorded group has this identifier.
pub fn get_authorised_agents(store: &AppStore, political_group_id: PoliticalGroupId) -> (r: Result<Vec<AuthorisedAgent>, AppError>)
    ensures
        r is Ok == is_recorded_group(store, political_group_id),
        r matches Err(e) ==> not_found_with(e, "Political group not found."@),
        r matches Ok(v) ==> v@ == store.state().authorised_agents,
{
    check_recorded_group(store, political_group_id)?;
    Ok(store.get_authorised_agents())
}

/// Records the authorised agent, created and updated now, and returns it.
/// `NotFound("Political group not found.")` unless the recorded group has this identifier;
/// the store is then unchanged.
pub fn create_authorised_agent(
    store: &mut AppStore,
    political_group_id: PoliticalGroupId,
    authorised_agent: &AuthorisedAgent,
) -> (r: Result<AuthorisedAgent, AppError>)
    requires
        old(store).wf(),
    ensures
        r is Ok == is_recorded_group(&*old(store), political_group_id),
        r matches Err(e) ==> not_found_with(e, "Political group not found."@)
            && AppStore::unchanged(&*old(store), &*final(store)),
        r matches Ok(x) ==> {
            &&& x == (AuthorisedAgent { created_at: x.created_at, updated_at: x.created_at, ..*authorised_agent })
            &&& AppStore::applied(&*old(store), &*final(store), AppEvent::CreateAuthorisedAgent(x))
            &&& final(store).agent_map() == old(store).agent_map().insert(x.id.0, x)
        },
{
    check_recorded_group(store, political_group_id)?;
    authorised_agent.create(store, political_group_id)
}

/// The list submitter with this identifier. `NotFound("Political group not found.")`
/// unless the recorded group has this identifier, `NotFound("List submitter not found.")`
/// when there is no such submitter.
pub fn get_list_submitter(
    store: &AppStore,
    political_group_id: PoliticalGroupId,
    submitter_id: &ListSubmitterId,
) -> (r: Result<ListSubmitter, AppError>)
    requires
        store.wf(),
    ensures
        r is Ok == (is_recorded_group(store, political_group_id) && store.submitter_map().contains_key(submitter_id.0)),
        r matches Err(e) ==> if !is_recorded_group(store, political_group_id) {
            not_found_with(e, "Political group not found."@)
        } else {
            not_found_with(e, "List submitter not found."@)
        },
        r matches Ok(s) ==> s == store.submitter_map()[submitter_id.0],
{
    check_recorded_group(store, political_group_id)?;
    match store.get_list_submitter(*submitter_id) {
        Ok(s) => Ok(s),
        Err(_) => Err(not_found("List submitter not found.")),
    }
}

/// Makes the list submitter with this identifier (or none) the group's default, stamping
/// the group with the current time. `NotFound("Political group not found.")` unless the
/// recorded group has this identifier, `NotFound("List submitter not found.")` when there
/// is no such submitter; the store is then unchanged.
pub fn set_default_list_submitter(
    store: &mut AppStore,
    political_group_id: PoliticalGroupId,
    submitter_id: Option<ListSubmitterId>,
) -> (r: Result<(), AppError>)
    requires
        old(store).wf(),
    ensures
        r is Ok == (is_recorded_group(&*old(store), political_group_id)
            && (submitter_id matches Some(id) ==> old(store).submitter_map().contains_key(id.0))),
        r matches Err(e) ==> AppStore::unchanged(&*old(store), &*final(store)) && if !is_recorded_group(&*old(store), political_group_id) {
            not_found_with(e, "Political group not found."@)
        } else {
            not_found_with(e, "List submitter not found."@)
        },
        r is Ok ==> exists|t: Timestamp| AppStore::applied(
            &*old(store),
            &*final(store),
            AppEvent::UpdatePoliticalGroup(#[trigger] with_default_submitter(old(store).state().political_group, submitter_id, t)),
        ),
{
    let mut group = match get_single_political_group(store)? {
        Some(g) => g,
        None => return Err(not_found("Political group not found.")),
    };
    if group.id != political_group_id {
        return Err(not_found("Political group not found."));
    }
    if let Some(id) = submitter_id {
        if store.get_list_submitter(id).is_err() {
            return Err(not_found("List submitter not found."));
        }
    }
    group.list_submitter_id = submitter_id;
    group.updated_at = Timestamp::now();
    let ghost g = group;
    store.update(AppEvent::UpdatePoliticalGroup(group))?;
    proof {
        assert(g == with_default_submitter(old(store).state().political_group, submitter_id, g.updated_at));
    }
    Ok(())
}

/// The group `g` with `submitter_id` as its default list submitter and update time `t`.
pub open spec fn with_default_submitter(g: PoliticalGroup, submitter_id: Option<ListSubmitterId>, t: Timestamp) -> PoliticalGroup {
    PoliticalGroup { list_submitter_id: submitter_id, updated_at: t, ..g }
}

/// Records the list submitter, created and updated now, and returns it.
/// `NotFound("Political group not found.")` unless the recorded group has this identifier;
/// the store is then unchanged.
pub fn create_list_submitter(
    store: &mut AppStore,
    political_group_id: PoliticalGroupId,
    list_submitter: &ListSubmitter,
) -> (r: Result<ListSubmitter, AppError>)
    requires
        old(store).wf(),
    ensures
        r is Ok == is_recorded_group(&*old(store), political_group_id),
        r matches Err(e) ==> not_found_with(e, "Political group not found."@)
            && AppStore::unchanged(&*old(store), &*final(store)),
        r matches Ok(x) ==> {
            &&& x == (ListSubmitter { created_at: x.created_at, updated_at: x.created_at, ..*list_submitter })
            &&& AppStore::applied(&*old(store), &*final(store), AppEvent::CreateListSubmitter(x))
            &&& final(store).submitter_map() == old(store).submitter_map().insert(x.id.0, x)
        },
{
    check_recorded_group(store, political_group_id)?;
    list_submitter.create(store, political_group_id)
}

/// Replaces the stored list submitter with this one's identifier by this one, keeping the
/// stored creation time and stamping the update with the current time; returns it.
/// `NotFound("Political group not found.")` unless the recorded group has this identifier,
/// `NotFound("List submitter not found.")` when there is no such submitter; the store is
/// then unchanged.
pub fn update_list_submitter(
    store: &mut AppStore,
    political_group_id: PoliticalGroupId,
    list_submitter: &ListSubmitter,
) -> (r: Result<ListSubmitter, AppError>)
    requires
        old(store).wf(),
    ensures
        r is Ok == (is_recorded_group(&*old(store), political_group_id)
            && old(store).submitter_map().contains_key(list_submitter.id.0)),
        r matches Err(e) ==> AppStore::unchanged(&*old(store), &*final(store)) && if !is_recorded_group(&*old(store), political_group_id) {
            not_found_with(e, "Political group not found."@)
        } else {
            not_found_with(e, "List submitter not found."@)
        },
        r matches Ok(x) ==> {
            &&& x == (ListSubmitter {
                created_at: old(store).submitter_map()[list_submitter.id.0].created_at,
                updated_at: x.updated_at,
                ..*list_submitter
            })
            &&& AppStore::applied(&*old(store), &*final(store), AppEvent::UpdateListSubmitter(x))
            &&& final(store).submitter_map() == old(store).submitter_map().insert(x.id.0, x)
        },
{
    check_recorded_group(store, political_group_id)?;
    match list_submitter.update(store, political_group_id) {
        Ok(x) => Ok(x),
        Err(_) => Err(not_found("List submitter not found.")),
    }
}

/// Removes the list submitter with this identifier; when it is the group's default, the
/// group first loses its default (stamped with the current time).
/// `NotFound("Political group not found.")` unless the recorded group has this identifier;
/// the store is then unchanged.
pub fn remove_list_submitter(
    store: &mut AppStore,
    political_group_id: PoliticalGroupId,
    list_submitter_id: ListSubmitterId,
) -> (r: Result<(), AppError>)
    requires
        old(store).wf(),
    ensures
        r is Ok == is_recorded_group(&*old(store), political_group_id),
        r matches Err(e) ==> not_found_with(e, "Political group not found."@)
            && AppStore::unchanged(&*old(store), &*final(store)),
        r is Ok ==> {
            &&& final(store).wf()
            &&& final(store).submitter_map() == old(store).submitter_map().remove(list_submitter_id.0)
            &&& AppStore::journaled(&*old(store), &*final(store))
            &&& if old(store).state().political_group.list_submitter_id == Some(list_submitter_id) {
                exists|t: Timestamp| final(store).state().political_group
                    == #[trigger] with_default_submitter(old(store).state().political_group, None, t)
            } else {
                final(store).state().political_group == old(store).state().political_group
            }
            &&& final(store).state().persons == old(store).state().persons
            &&& final(store).state().candidate_lists == old(store).state().candidate_lists
            &&& final(store).state().authorised_agents == old(store).state().authorised_agents
            &&& final(store).state().substitute_submitters == old(store).state().substitute_submitters
        },
{
    let mut group = match get_single_political_group(store)? {
        Some(g) => g,
        None => return Err(not_found("Political group not found.")),
    };
    if group.id != political_group_id {
        return Err(not_found("Political group not found."));
    }
    let ghost s0 = store.state();
    let ghost l0 = store.pending();
    proof {
        crate::store::lemma_journaled_refl(s0, l0);
    }
    if group.list_submitter_id == Some(list_submitter_id) {
        group.list_submitter_id = None;
        group.updated_at = Timestamp::now();
        let ghost g = group;
        store.update(AppEvent::UpdatePoliticalGroup(group))?;
        proof {
            assert(g == with_default_submitter(s0.political_group, None, g.updated_at));
        }
    }
    let ghost s1 = store.state();
    let ghost l1 = store.pending();
    proof {
        lemma_remove::<ListSubmitter>(s1.list_submitters, list_submitter_id.0);
    }
    store.update(AppEvent::DeleteListSubmitter(list_submitter_id))?;
    proof {
        crate::store::lemma_journaled_trans(s0, l0, s1, l1, store.state(), store.pending());
    }
    Ok(())
}

} // verus!
