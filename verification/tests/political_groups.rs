use eks::candidate_list::CandidateList;
use eks::candidate_lists::{create_candidate_list, get_candidate_list, list_candidate_list_summary};
use eks::candidate_pages::{add_person_to_candidate_list, create_person_candidate_list, AddPersonForm};
use eks::district::ElectoralDistrict;
use eks::fixtures;
use eks::initial_edit::InitialEditQuery;
use eks::paths::{PoliticalGroupEditPath, SubstituteSubmitterDeletePath};
use eks::person::Person;
use eks::person_pages::delete_person;
use eks::persons::create_person;
use eks::political_group::{AuthorisedAgent, ListSubmitter, PoliticalGroup, SubstituteSubmitter};
use eks::political_groups::{
    get_authorised_agents, get_list_submitter, get_list_submitters, get_single_political_group,
    remove_list_submitter, set_default_list_submitter, update_political_group,
};
use eks::store::{AppEvent, AppStore};
use eks::{AppError, AuthorisedAgentId, CandidateListId, ListSubmitterId, PersonId, PoliticalGroupId, SubstituteSubmitterId, Timestamp};

fn person(id: PersonId, last_name: &str) -> Person {
    Person {
        id,
        last_name: last_name.to_string(),
        last_name_prefix: None,
        initials: "A.".to_string(),
        first_name: None,
        bsn: None,
        place_of_residence: None,
        country_of_residence: None,
        gender: None,
        date_of_birth: None,
        locality: None,
        postal_code: None,
        house_number: None,
        house_number_addition: None,
        street_name: None,
        created_at: Timestamp::now(),
        updated_at: Timestamp::now(),
    }
}

fn group(id: PoliticalGroupId) -> PoliticalGroup {
    PoliticalGroup {
        id,
        long_list_allowed: Some(true),
        legal_name: Some("Partij".to_string()),
        display_name: Some("P".to_string()),
        legal_name_confirmed: None,
        display_name_confirmed: None,
        authorised_agent_id: None,
        list_submitter_id: None,
        created_at: Timestamp::now(),
        updated_at: Timestamp::now(),
    }
}

fn submitter(id: ListSubmitterId) -> ListSubmitter {
    ListSubmitter {
        id,
        last_name: "Bos".to_string(),
        last_name_prefix: None,
        initials: "E.F.".to_string(),
        locality: None,
        postal_code: None,
        house_number: None,
        house_number_addition: None,
        street_name: None,
        created_at: Timestamp::now(),
        updated_at: Timestamp::now(),
    }
}

#[test]
fn political_groups_test_load() {
    let mut store = AppStore::default();
    fixtures::political_groups::load(&mut store).unwrap();

    let group = store.get_political_group();

    let list_submitters = PoliticalGroup::list_submitters(&store, group.id).unwrap();
    assert_eq!(list_submitters.len(), 2);

    let authorised_count = PoliticalGroup::list_authorised_agents(&store, group.id).unwrap().len();
    assert_eq!(authorised_count, 2);
}

#[test]
fn candidate_list_test_load() {
    let mut store = AppStore::default();
    for i in 0..60 {
        create_person(&mut store, &person(PersonId::new(), &format!("Persoon {i}"))).unwrap();
    }
    fixtures::candidate_list::load(&mut store).unwrap();

    let lists = list_candidate_list_summary(&store).unwrap();

    assert_eq!(lists.len(), 1);
    assert_eq!(lists[0].person_count, fixtures::candidate_list::FIXTURE_CANDIDATE_LIST_SIZE);
    assert_eq!(lists[0].list.id, CandidateListId::from_name(b"the_one_and_only_fixture_candidate_list"));
}

#[test]
fn blank_group_is_not_recorded_yet() {
    let mut store = AppStore::default();
    assert!(get_single_political_group(&store).unwrap().is_none());
    assert!(PoliticalGroup::get_single(&store).unwrap().is_some());
    let id = PoliticalGroupId::new();
    match get_list_submitters(&store, id) {
        Err(AppError::NotFound(msg)) => assert_eq!(msg, "Political group not found."),
        other => panic!("unexpected: {other:?}"),
    }
    match update_political_group(&mut store, &group(id)) {
        Err(AppError::NotFound(msg)) => assert_eq!(msg, "Political group not found."),
        other => panic!("unexpected: {other:?}"),
    }
    let created = group(id).create(&mut store).unwrap();
    let updated = update_political_group(&mut store, &group(id)).unwrap();
    assert_eq!(updated.created_at, created.created_at);
    assert_eq!(get_single_political_group(&store).unwrap().unwrap().id, id);
    assert!(get_authorised_agents(&store, id).unwrap().is_empty());
}

#[test]
fn wrong_group_identifier_is_refused() {
    let mut store = AppStore::default();
    let id = PoliticalGroupId::new();
    group(id).create(&mut store).unwrap();
    let other = PoliticalGroupId::new();
    match submitter(ListSubmitterId::new()).create(&mut store, other) {
        Err(AppError::NotFound(msg)) => assert_eq!(msg, "Political group not found."),
        r => panic!("unexpected: {r:?}"),
    }
    assert!(PoliticalGroup::list_submitters(&store, id).unwrap().is_empty());
    match PoliticalGroup::get_list_submitter(&store, id, ListSubmitterId::new()) {
        Err(AppError::GenericNotFound) => {}
        r => panic!("unexpected: {r:?}"),
    }
    match get_list_submitter(&store, id, &ListSubmitterId::new()) {
        Err(AppError::NotFound(msg)) => assert_eq!(msg, "List submitter not found."),
        r => panic!("unexpected: {r:?}"),
    }
}

#[test]
fn default_submitter_is_cleared_when_it_is_removed() -> Result<(), AppError> {
    let mut store = AppStore::default();
    let id = PoliticalGroupId::new();
    group(id).create(&mut store)?;
    let s = submitter(ListSubmitterId::new()).create(&mut store, id)?;
    match set_default_list_submitter(&mut store, id, Some(ListSubmitterId::new())) {
        Err(AppError::NotFound(msg)) => assert_eq!(msg, "List submitter not found."),
        r => panic!("unexpected: {r:?}"),
    }
    set_default_list_submitter(&mut store, id, Some(s.id))?;
    assert_eq!(store.get_political_group().list_submitter_id, Some(s.id));
    remove_list_submitter(&mut store, id, s.id)?;
    assert_eq!(store.get_political_group().list_submitter_id, None);
    assert!(store.get_list_submitters().is_empty());
    Ok(())
}

#[test]
fn agent_update_keeps_creation_time() -> Result<(), AppError> {
    let mut store = AppStore::default();
    let id = PoliticalGroupId::new();
    group(id).create(&mut store)?;
    let agent = AuthorisedAgent {
        id: AuthorisedAgentId::new(),
        last_name: "Visser".to_string(),
        last_name_prefix: Some("de".to_string()),
        initials: "C.D.".to_string(),
        created_at: Timestamp::now(),
        updated_at: Timestamp::now(),
    };
    let created = agent.create(&mut store, id)?;
    assert_eq!(created.last_name_with_prefix(), "de Visser");
    let mut changed = agent.clone();
    changed.last_name = "Vos".to_string();
    let updated = changed.update(&mut store, id)?;
    assert_eq!(updated.created_at, created.created_at);
    assert_eq!(PoliticalGroup::get_authorised_agent(&store, id, agent.id)?.last_name, "Vos");
    AuthorisedAgent::delete_by_id(&mut store, id, agent.id)?;
    assert!(matches!(PoliticalGroup::get_authorised_agent(&store, id, agent.id), Err(AppError::GenericNotFound)));
    Ok(())
}

#[test]
fn substitute_submitter_paths() {
    let s = SubstituteSubmitter {
        id: SubstituteSubmitterId(0x0123_4567_89ab_cdef_0123_4567_89ab_cdef),
        last_name: "Smit".to_string(),
        last_name_prefix: Some("van".to_string()),
        initials: "G.H.".to_string(),
        locality: Some("Den Haag".to_string()),
        postal_code: Some("2511 DD".to_string()),
        house_number: Some("18".to_string()),
        house_number_addition: None,
        street_name: Some("Spui".to_string()),
        created_at: Timestamp::now(),
        updated_at: Timestamp::now(),
    };
    assert_eq!(SubstituteSubmitter::list_path(), "/political-group/substitute-submitters");
    assert_eq!(SubstituteSubmitter::new_path(), "/political-group/substitute-submitters/new");
    assert_eq!(s.edit_path(), "/political-group/substitute-submitters/01234567-89ab-cdef-0123-456789abcdef/edit");
    assert_eq!(s.delete_path(), "/political-group/substitute-submitters/01234567-89ab-cdef-0123-456789abcdef/delete");
    assert_eq!(
        SubstituteSubmitterDeletePath { sub_submitter_id: s.id }.to_path(),
        s.delete_path()
    );
    assert_eq!(PoliticalGroupEditPath.to_path(), "/political-group");
    assert_eq!(PoliticalGroup::edit_path(), "/political-group");
    assert!(s.is_address_complete());
    assert_eq!(s.last_name_with_prefix(), "van Smit");
}

#[test]
fn initial_edit_query_warns_unless_initial() {
    assert!(!InitialEditQuery::default().should_warn());
    assert!(InitialEditQuery::new(None).should_warn());
    assert!(InitialEditQuery::new(Some(false)).should_warn());
    assert!(!InitialEditQuery::new(Some(true)).should_warn());
}

#[test]
fn deleting_a_person_takes_them_off_every_list() -> Result<(), AppError> {
    let mut store = AppStore::default();
    let l1 = CandidateList { id: CandidateListId::new(), electoral_districts: vec![ElectoralDistrict::UT], candidates: vec![], created_at: Timestamp::now(), updated_at: Timestamp::now() };
    let l2 = CandidateList { id: CandidateListId::new(), electoral_districts: vec![ElectoralDistrict::DR], candidates: vec![], created_at: Timestamp::now(), updated_at: Timestamp::now() };
    create_candidate_list(&mut store, &l1)?;
    create_candidate_list(&mut store, &l2)?;
    let a = person(PersonId::new(), "Jansen");
    let b = person(PersonId::new(), "Bakker");
    store.update(AppEvent::CreatePerson(a.clone()))?;
    store.update(AppEvent::CreatePerson(b.clone()))?;
    CandidateList::update_order(&mut store, l1.id, &[a.id, b.id])?;
    CandidateList::update_order(&mut store, l2.id, &[a.id])?;

    delete_person(&mut store, a.id)?;
    assert!(store.get_person(a.id).is_err());
    assert_eq!(get_candidate_list(&store, l1.id)?.unwrap().candidates, vec![b.id]);
    assert!(get_candidate_list(&store, l2.id)?.unwrap().candidates.is_empty());

    delete_person(&mut store, PersonId::new())?;
    Ok(())
}

#[test]
fn pages_add_people_to_lists() -> Result<(), AppError> {
    let mut store = AppStore::default();
    let list = CandidateList { id: CandidateListId::new(), electoral_districts: vec![ElectoralDistrict::UT], candidates: vec![], created_at: Timestamp::now(), updated_at: Timestamp::now() };
    create_candidate_list(&mut store, &list)?;
    let a = person(PersonId::new(), "Jansen");
    store.update(AppEvent::CreatePerson(a.clone()))?;
    let full = CandidateList::full(&store, list.id)?.unwrap();
    add_person_to_candidate_list(&mut store, &full, &AddPersonForm { person_id: a.id })?;
    add_person_to_candidate_list(&mut store, &full, &AddPersonForm { person_id: PersonId::new() })?;
    assert_eq!(get_candidate_list(&store, list.id)?.unwrap().candidates, vec![a.id]);

    let b = person(PersonId::new(), "Bakker");
    let candidate = create_person_candidate_list(&mut store, &full, b.clone())?;
    assert_eq!(candidate.position, 2);
    assert_eq!(candidate.person.id, b.id);
    assert_eq!(candidate.list_id, list.id);
    assert!(store.get_person(b.id).is_ok());
    Ok(())
}

#[test]
fn political_group_fixture_is_the_same_on_every_load() {
    let mut s1 = AppStore::default();
    let mut s2 = AppStore::default();
    fixtures::political_groups::load(&mut s1).unwrap();
    fixtures::political_groups::load(&mut s2).unwrap();
    assert_eq!(s1.get_political_group().id, s2.get_political_group().id);
    let ids = |s: &AppStore| -> (Vec<AuthorisedAgentId>, Vec<ListSubmitterId>) {
        (
            s.get_authorised_agents().iter().map(|a| a.id).collect(),
            s.get_list_submitters().iter().map(|l| l.id).collect(),
        )
    };
    assert_eq!(ids(&s1), ids(&s2));
    let agents = s1.get_authorised_agents();
    assert_eq!(agents[0].last_name_with_prefix(), "de Jansen");
    assert_eq!(agents[1].last_name_with_prefix(), "Visser");
    let submitters = s1.get_list_submitters();
    assert_eq!(submitters[0].street_name.as_deref(), Some("Coolsingel"));
    assert_eq!(submitters[1].last_name_with_prefix(), "van Smit");
}

#[test]
fn candidate_list_fixture_leaves_other_lists_alone() {
    let mut store = AppStore::default();
    let other = CandidateList { id: CandidateListId::new(), electoral_districts: vec![ElectoralDistrict::UT], candidates: vec![], created_at: Timestamp::now(), updated_at: Timestamp::now() };
    create_candidate_list(&mut store, &other).unwrap();
    for i in 0..3 {
        create_person(&mut store, &person(PersonId::new(), &format!("Persoon {i}"))).unwrap();
    }
    fixtures::candidate_list::load(&mut store).unwrap();
    let lists = list_candidate_list_summary(&store).unwrap();
    assert_eq!(lists.len(), 2);
    let fixture = lists.iter().find(|l| l.list.id != other.id).unwrap();
    assert_eq!(fixture.person_count, 3);
    assert_eq!(fixture.list.electoral_districts.len(), 12);
    let kept = get_candidate_list(&store, other.id).unwrap().unwrap();
    assert_eq!(kept.electoral_districts, vec![ElectoralDistrict::UT]);
    assert!(kept.candidates.is_empty());
}

#[test]
fn both_summary_functions_agree() {
    let mut store = AppStore::default();
    for d in [ElectoralDistrict::UT, ElectoralDistrict::DR, ElectoralDistrict::UT] {
        let l = CandidateList { id: CandidateListId::new(), electoral_districts: vec![d], candidates: vec![], created_at: Timestamp::now(), updated_at: Timestamp::now() };
        create_candidate_list(&mut store, &l).unwrap();
    }
    let a = list_candidate_list_summary(&store).unwrap();
    let b = CandidateList::list_summary(&store).unwrap();
    assert_eq!(a.len(), b.len());
    for (x, y) in a.iter().zip(b.iter()) {
        assert_eq!(x.list.id, y.list.id);
        assert_eq!(x.person_count, y.person_count);
        assert_eq!(x.duplicate_districts, y.duplicate_districts);
    }
}
