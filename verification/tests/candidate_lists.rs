use std::collections::BTreeSet;

use eks::candidate_list::CandidateList;
use eks::candidate_lists::{
    append_candidate_to_list, create_candidate_list, get_candidate, get_candidate_list,
    get_full_candidate_list, get_used_districts, list_candidate_list_summary,
    list_persons_not_on_candidate_list, remove_candidate, remove_candidate_from_list,
    remove_candidate_list, update_candidate_list, update_candidate_list_order,
};
use eks::district::{ElectionConfig, ElectoralDistrict};
use eks::person::{Gender, Person};
use eks::store::{AppEvent, AppStore};
use eks::{AppError, CandidateListId, PersonId, Timestamp};

fn sample_person_with_last_name(id: PersonId, last_name: &str) -> Person {
    Person {
        id,
        last_name: last_name.to_string(),
        last_name_prefix: None,
        initials: "A.B.".to_string(),
        first_name: Some("Anne".to_string()),
        bsn: None,
        place_of_residence: Some("Utrecht".to_string()),
        country_of_residence: Some("NL".to_string()),
        gender: Some(Gender::Female),
        date_of_birth: None,
        locality: None,
        postal_code: None,
        house_number: None,
        house_number_addition: None,
        street_name: None,
        created_at: Timestamp::now(),
        updated_at: Timestamp::now(),
    }
}

fn sample_candidate_list(id: CandidateListId) -> CandidateList {
    CandidateList {
        id,
        electoral_districts: vec![ElectoralDistrict::UT],
        candidates: vec![],
        created_at: Timestamp::now(),
        updated_at: Timestamp::now(),
    }
}

fn base_candidate_list(electoral_districts: Vec<ElectoralDistrict>) -> CandidateList {
    CandidateList {
        id: CandidateListId::new(),
        electoral_districts,
        candidates: vec![],
        created_at: Timestamp::now(),
        updated_at: Timestamp::now(),
    }
}

fn insert_list(store: &mut AppStore, electoral_districts: Vec<ElectoralDistrict>) -> Result<CandidateList, AppError> {
    base_candidate_list(electoral_districts).create(store)
}

fn insert_list_repository(store: &mut AppStore, electoral_districts: Vec<ElectoralDistrict>) -> Result<CandidateList, AppError> {
    create_candidate_list(store, &base_candidate_list(electoral_districts))
}

#[test]
fn districts_formats_titles_in_order() {
    let list = base_candidate_list(vec![ElectoralDistrict::UT, ElectoralDistrict::NH, ElectoralDistrict::DR]);
    assert_eq!(list.districts_name(), "Utrecht, Noord-Holland, Drenthe");
}

#[test]
fn contains_all_districts_compares_to_election_config_length() {
    let election = ElectionConfig::EK2027;
    let list = base_candidate_list(election.electoral_districts().to_vec());
    assert!(list.contains_all_districts(&election));

    let list = base_candidate_list(vec![ElectoralDistrict::UT, ElectoralDistrict::NH]);
    assert!(!list.contains_all_districts(&election));
}

#[test]
fn candidate_list_create_and_list_candidate_lists() -> Result<(), AppError> {
    let mut store = AppStore::default();
    let list = sample_candidate_list(CandidateListId::new());
    list.create(&mut store)?;

    let lists = CandidateList::list_summary(&store)?;
    assert_eq!(1, lists.len());
    assert_eq!(list.id, lists[0].list.id);
    assert_eq!(0, lists[0].person_count);
    assert_eq!(0, lists[0].duplicate_districts.len());
    Ok(())
}

#[test]
fn candidate_list_get_candidate_list_summaries_with_duplicate_districts() -> Result<(), AppError> {
    let mut store = AppStore::default();
    let list1 = insert_list(&mut store, vec![ElectoralDistrict::UT, ElectoralDistrict::DR])?;
    let list2 = insert_list(&mut store, vec![ElectoralDistrict::UT, ElectoralDistrict::GR])?;
    let list3 = insert_list(&mut store, vec![ElectoralDistrict::OV, ElectoralDistrict::GR])?;

    let lists = CandidateList::list_summary(&store)?;
    assert_eq!(3, lists.len());

    let s1 = lists.iter().find(|l| l.list.id == list1.id).unwrap();
    let s2 = lists.iter().find(|l| l.list.id == list2.id).unwrap();
    let s3 = lists.iter().find(|l| l.list.id == list3.id).unwrap();

    assert_eq!(vec![ElectoralDistrict::UT], s1.duplicate_districts);
    assert_eq!(2, s2.duplicate_districts.len());
    assert!(s2.duplicate_districts.contains(&ElectoralDistrict::UT));
    assert!(s2.duplicate_districts.contains(&ElectoralDistrict::GR));
    assert_eq!(vec![ElectoralDistrict::GR], s3.duplicate_districts);
    Ok(())
}

#[test]
fn candidate_list_list_candidate_list_orders_by_created_at() -> Result<(), AppError> {
    let mut store = AppStore::default();
    let list_early = base_candidate_list(vec![ElectoralDistrict::UT]);
    let list_late = base_candidate_list(vec![ElectoralDistrict::OV]);

    list_early.create(&mut store)?;
    list_late.create(&mut store)?;

    let lists = store.get_candidate_lists();
    assert_eq!(lists.len(), 2);
    assert_eq!(lists[0].id, list_early.id);
    assert_eq!(lists[1].id, list_late.id);
    Ok(())
}

#[test]
fn candidate_list_get_candidate_list_returns_list() -> Result<(), AppError> {
    let mut store = AppStore::default();
    let list = sample_candidate_list(CandidateListId::new());
    list.create(&mut store)?;

    let loaded = CandidateList::get(&store, list.id)?.expect("candidate list");
    assert_eq!(loaded.id, list.id);
    Ok(())
}

#[test]
fn candidate_list_update_candidate_list_updates_districts() -> Result<(), AppError> {
    let mut store = AppStore::default();
    let list = sample_candidate_list(CandidateListId::new());
    list.create(&mut store)?;

    let mut changed = list.clone();
    changed.electoral_districts = vec![ElectoralDistrict::DR, ElectoralDistrict::OV];
    let updated = changed.update(&mut store)?;

    assert_eq!(updated.id, list.id);
    assert_eq!(updated.electoral_districts, vec![ElectoralDistrict::DR, ElectoralDistrict::OV]);
    Ok(())
}

#[test]
fn candidate_list_test_get_used_districts() -> Result<(), AppError> {
    let mut store = AppStore::default();
    let expected = BTreeSet::from([ElectoralDistrict::UT, ElectoralDistrict::DR, ElectoralDistrict::OV]);

    insert_list(&mut store, vec![ElectoralDistrict::UT, ElectoralDistrict::DR])?;
    insert_list(&mut store, vec![ElectoralDistrict::OV])?;
    insert_list(&mut store, vec![])?;

    let result: BTreeSet<ElectoralDistrict> = CandidateList::used_districts(&store, vec![])?.into_iter().collect();
    assert_eq!(expected, result);
    Ok(())
}

#[test]
fn candidate_list_get_used_districts_no_lists() -> Result<(), AppError> {
    let store = AppStore::default();
    let result = CandidateList::used_districts(&store, vec![])?;
    assert_eq!(Vec::<ElectoralDistrict>::new(), result);
    Ok(())
}

#[test]
fn candidate_list_get_used_districts_double_districts() -> Result<(), AppError> {
    let mut store = AppStore::default();
    let expected = BTreeSet::from([ElectoralDistrict::UT, ElectoralDistrict::DR, ElectoralDistrict::OV]);

    insert_list(&mut store, vec![ElectoralDistrict::UT, ElectoralDistrict::DR])?;
    insert_list(&mut store, vec![ElectoralDistrict::UT, ElectoralDistrict::OV])?;

    let result: BTreeSet<ElectoralDistrict> = CandidateList::used_districts(&store, vec![])?.into_iter().collect();
    assert_eq!(expected, result);
    Ok(())
}

#[test]
fn candidate_list_get_used_district_with_exclude() -> Result<(), AppError> {
    let mut store = AppStore::default();
    let expected = BTreeSet::from([
        ElectoralDistrict::UT,
        ElectoralDistrict::DR,
        ElectoralDistrict::GR,
        ElectoralDistrict::OV,
    ]);

    insert_list(&mut store, vec![ElectoralDistrict::UT, ElectoralDistrict::DR])?;
    insert_list(&mut store, vec![ElectoralDistrict::GR, ElectoralDistrict::OV])?;
    let exclude_id = insert_list(&mut store, vec![ElectoralDistrict::GR, ElectoralDistrict::LI])?.id;

    let result: BTreeSet<ElectoralDistrict> =
        CandidateList::used_districts(&store, vec![exclude_id])?.into_iter().collect();
    assert_eq!(expected, result);
    Ok(())
}

#[test]
fn candidate_list_test_remove_candidate_list() -> Result<(), AppError> {
    let mut store = AppStore::default();
    let list_a = sample_candidate_list(CandidateListId::new());
    let person_a = sample_person_with_last_name(PersonId::new(), "Jansen");
    let list_b = sample_candidate_list(CandidateListId::new());
    let person_b = sample_person_with_last_name(PersonId::new(), "Bakker");

    list_a.create(&mut store)?;
    store.update(AppEvent::CreatePerson(person_a.clone()))?;
    CandidateList::update_order(&mut store, list_a.id, &[person_a.id])?;

    list_b.create(&mut store)?;
    store.update(AppEvent::CreatePerson(person_b.clone()))?;
    CandidateList::update_order(&mut store, list_b.id, &[person_b.id])?;

    CandidateList::delete_by_id(&mut store, list_a.id)?;

    let lists = CandidateList::list_summary(&store)?;
    let list_b_from_db = CandidateList::full(&store, list_b.id)?.unwrap();
    assert_eq!(1, lists.len());
    assert_eq!(list_b.id, lists[0].list.id);
    assert_eq!(1, lists[0].person_count);
    assert_eq!(person_b.id, list_b_from_db.candidates[0].person.id);
    assert_eq!(0, lists[0].duplicate_districts.len());
    Ok(())
}

#[test]
fn candidate_list_get_candidate_list_includes_candidates() -> Result<(), AppError> {
    let mut store = AppStore::default();
    let list_id = CandidateListId::new();
    let list = sample_candidate_list(list_id);
    let person_a = sample_person_with_last_name(PersonId::new(), "Jansen");
    let person_b = sample_person_with_last_name(PersonId::new(), "Bakker");

    list.create(&mut store)?;
    store.update(AppEvent::CreatePerson(person_a.clone()))?;
    store.update(AppEvent::CreatePerson(person_b.clone()))?;
    CandidateList::update_order(&mut store, list_id, &[person_a.id, person_b.id])?;

    let detail = CandidateList::full(&store, list_id)?.expect("candidate list");
    assert_eq!(2, detail.candidates.len());
    assert_eq!(person_a.id, detail.candidates[0].person.id);
    assert_eq!(person_b.id, detail.candidates[1].person.id);
    Ok(())
}

#[test]
fn candidate_list_update_candidate_list_order_returns_not_found() -> Result<(), AppError> {
    let mut store = AppStore::default();
    let err = CandidateList::update_order(&mut store, CandidateListId::new(), &[]).unwrap_err();
    assert!(matches!(err, AppError::NotFound(_)));
    Ok(())
}

#[test]
fn candidate_list_get_full_candidate_list_returns_none_for_missing_list() -> Result<(), AppError> {
    let store = AppStore::default();
    let missing = CandidateList::full(&store, CandidateListId::new())?;
    assert!(missing.is_none());
    Ok(())
}

#[test]
fn candidate_list_test_append_candidate_to_list() -> Result<(), AppError> {
    let mut store = AppStore::default();
    let list_id = CandidateListId::new();
    let list = sample_candidate_list(list_id);
    let person_a = sample_person_with_last_name(PersonId::new(), "Jansen");
    let person_b = sample_person_with_last_name(PersonId::new(), "Bakker");

    list.create(&mut store)?;
    store.update(AppEvent::CreatePerson(person_a.clone()))?;
    store.update(AppEvent::CreatePerson(person_b.clone()))?;

    CandidateList::append_candidate(&mut store, list_id, person_a.id)?;
    CandidateList::append_candidate(&mut store, list_id, person_b.id)?;

    let detail = CandidateList::full(&store, list_id)?.expect("candidate list");
    assert_eq!(detail.candidates.len(), 2);
    assert_eq!(detail.candidates[0].person.id, person_a.id);
    assert_eq!(detail.candidates[0].position, 1);
    assert_eq!(detail.candidates[1].person.id, person_b.id);
    assert_eq!(detail.candidates[1].position, 2);
    Ok(())
}

#[test]
fn candidate_list_append_candidate_to_list_returns_not_found() -> Result<(), AppError> {
    let mut store = AppStore::default();
    let err = CandidateList::append_candidate(&mut store, CandidateListId::new(), PersonId::new()).unwrap_err();
    assert!(matches!(err, AppError::NotFound(_)));
    Ok(())
}

#[test]
fn candidate_list_remove_candidate_removes_from_list() -> Result<(), AppError> {
    let mut store = AppStore::default();
    let list_id = CandidateListId::new();
    let list = sample_candidate_list(list_id);
    let person_a = sample_person_with_last_name(PersonId::new(), "Jansen");
    let person_b = sample_person_with_last_name(PersonId::new(), "Bakker");

    list.create(&mut store)?;
    store.update(AppEvent::CreatePerson(person_a.clone()))?;
    store.update(AppEvent::CreatePerson(person_b.clone()))?;
    CandidateList::append_candidate(&mut store, list_id, person_a.id)?;
    CandidateList::append_candidate(&mut store, list_id, person_b.id)?;

    CandidateList::remove_candidate_from_all(&mut store, person_a.id)?;

    let detail = CandidateList::full(&store, list_id)?.expect("candidate list");
    assert_eq!(detail.candidates.len(), 1);
    assert_eq!(detail.candidates[0].person.id, person_b.id);
    Ok(())
}

#[test]
fn candidate_list_remove_candidate_returns_not_found() -> Result<(), AppError> {
    let mut store = AppStore::default();
    let err = CandidateList::remove_candidate_from_all(&mut store, PersonId::new()).unwrap_err();
    assert!(matches!(err, AppError::NotFound(_)));
    Ok(())
}

#[test]
fn candidate_list_get_candidate_returns_candidate() -> Result<(), AppError> {
    let mut store = AppStore::default();
    let list_id = CandidateListId::new();
    let list = sample_candidate_list(list_id);
    let person = sample_person_with_last_name(PersonId::new(), "Jansen");

    list.create(&mut store)?;
    store.update(AppEvent::CreatePerson(person.clone()))?;
    CandidateList::append_candidate(&mut store, list_id, person.id)?;

    let candidate = CandidateList::get_candidate(&store, list_id, person.id)?;
    assert_eq!(candidate.list_id, list_id);
    assert_eq!(candidate.position, 1);
    assert_eq!(candidate.person.id, person.id);
    Ok(())
}

#[test]
fn repository_create_and_list_candidate_lists() -> Result<(), AppError> {
    let mut store = AppStore::default();
    let list = sample_candidate_list(CandidateListId::new());
    create_candidate_list(&mut store, &list)?;

    let lists = list_candidate_list_summary(&store)?;
    assert_eq!(1, lists.len());
    assert_eq!(list.id, lists[0].list.id);
    assert_eq!(0, lists[0].person_count);
    assert_eq!(0, lists[0].duplicate_districts.len());
    Ok(())
}

#[test]
fn repository_get_candidate_list_summaries_with_duplicate_districts() -> Result<(), AppError> {
    let mut store = AppStore::default();
    let list1 = insert_list_repository(&mut store, vec![ElectoralDistrict::UT, ElectoralDistrict::DR])?;
    let list2 = insert_list_repository(&mut store, vec![ElectoralDistrict::UT, ElectoralDistrict::GR])?;
    let list3 = insert_list_repository(&mut store, vec![ElectoralDistrict::OV, ElectoralDistrict::GR])?;

    let lists = list_candidate_list_summary(&store)?;
    assert_eq!(3, lists.len());
    let s1 = lists.iter().find(|l| l.list.id == list1.id).unwrap();
    let s2 = lists.iter().find(|l| l.list.id == list2.id).unwrap();
    let s3 = lists.iter().find(|l| l.list.id == list3.id).unwrap();
    assert_eq!(vec![ElectoralDistrict::UT], s1.duplicate_districts);
    assert_eq!(2, s2.duplicate_districts.len());
    assert!(s2.duplicate_districts.contains(&ElectoralDistrict::UT));
    assert!(s2.duplicate_districts.contains(&ElectoralDistrict::GR));
    assert_eq!(vec![ElectoralDistrict::GR], s3.duplicate_districts);
    Ok(())
}

#[test]
fn repository_list_candidate_list_orders_by_created_at() -> Result<(), AppError> {
    let mut store = AppStore::default();
    let list_early = base_candidate_list(vec![ElectoralDistrict::UT]);
    let list_late = base_candidate_list(vec![ElectoralDistrict::OV]);

    create_candidate_list(&mut store, &list_early)?;
    create_candidate_list(&mut store, &list_late)?;

    let lists = store.get_candidate_lists();
    assert_eq!(lists.len(), 2);
    assert_eq!(lists[0].id, list_early.id);
    assert_eq!(lists[1].id, list_late.id);
    Ok(())
}

#[test]
fn repository_get_candidate_list_returns_list() -> Result<(), AppError> {
    let mut store = AppStore::default();
    let list = sample_candidate_list(CandidateListId::new());
    create_candidate_list(&mut store, &list)?;

    let loaded = get_candidate_list(&store, list.id)?.expect("candidate list");
    assert_eq!(loaded.id, list.id);
    Ok(())
}

#[test]
fn repository_update_candidate_list_updates_districts() -> Result<(), AppError> {
    let mut store = AppStore::default();
    let list = sample_candidate_list(CandidateListId::new());
    create_candidate_list(&mut store, &list)?;

    let mut changed = list.clone();
    changed.electoral_districts = vec![ElectoralDistrict::DR, ElectoralDistrict::OV];
    let updated = update_candidate_list(&mut store, &changed)?;

    assert_eq!(updated.id, list.id);
    assert_eq!(updated.electoral_districts, vec![ElectoralDistrict::DR, ElectoralDistrict::OV]);
    Ok(())
}

#[test]
fn repository_test_get_used_districts() -> Result<(), AppError> {
    let mut store = AppStore::default();
    let expected = BTreeSet::from([ElectoralDistrict::UT, ElectoralDistrict::DR, ElectoralDistrict::OV]);

    insert_list_repository(&mut store, vec![ElectoralDistrict::UT, ElectoralDistrict::DR])?;
    insert_list_repository(&mut store, vec![ElectoralDistrict::OV])?;
    insert_list_repository(&mut store, vec![])?;

    let result: BTreeSet<ElectoralDistrict> = get_used_districts(&store, vec![])?.into_iter().collect();
    assert_eq!(expected, result);
    Ok(())
}

#[test]
fn repository_get_used_districts_no_lists() -> Result<(), AppError> {
    let store = AppStore::default();
    let result = get_used_districts(&store, vec![])?;
    assert_eq!(Vec::<ElectoralDistrict>::new(), result);
    Ok(())
}

#[test]
fn repository_get_used_districts_double_districts() -> Result<(), AppError> {
    let mut store = AppStore::default();
    let expected = BTreeSet::from([ElectoralDistrict::UT, ElectoralDistrict::DR, ElectoralDistrict::OV]);

    insert_list_repository(&mut store, vec![ElectoralDistrict::UT, ElectoralDistrict::DR])?;
    insert_list_repository(&mut store, vec![ElectoralDistrict::UT, ElectoralDistrict::OV])?;

    let result: BTreeSet<ElectoralDistrict> = get_used_districts(&store, vec![])?.into_iter().collect();
    assert_eq!(expected, result);
    Ok(())
}

#[test]
fn repository_get_used_district_with_exclude() -> Result<(), AppError> {
    let mut store = AppStore::default();
    let expected = BTreeSet::from([
        ElectoralDistrict::UT,
        ElectoralDistrict::DR,
        ElectoralDistrict::GR,
        ElectoralDistrict::OV,
    ]);

    insert_list_repository(&mut store, vec![ElectoralDistrict::UT, ElectoralDistrict::DR])?;
    insert_list_repository(&mut store, vec![ElectoralDistrict::GR, ElectoralDistrict::OV])?;
    let exclude_id = insert_list_repository(&mut store, vec![ElectoralDistrict::GR, ElectoralDistrict::LI])?.id;

    let result: BTreeSet<ElectoralDistrict> = get_used_districts(&store, vec![exclude_id])?.into_iter().collect();
    assert_eq!(expected, result);
    Ok(())
}

#[test]
fn repository_test_remove_candidate_list() -> Result<(), AppError> {
    let mut store = AppStore::default();
    let list_a = sample_candidate_list(CandidateListId::new());
    let person_a = sample_person_with_last_name(PersonId::new(), "Jansen");
    let list_b = sample_candidate_list(CandidateListId::new());
    let person_b = sample_person_with_last_name(PersonId::new(), "Bakker");

    create_candidate_list(&mut store, &list_a)?;
    store.update(AppEvent::CreatePerson(person_a.clone()))?;
    update_candidate_list_order(&mut store, list_a.id, &[person_a.id])?;

    create_candidate_list(&mut store, &list_b)?;
    store.update(AppEvent::CreatePerson(person_b.clone()))?;
    update_candidate_list_order(&mut store, list_b.id, &[person_b.id])?;

    remove_candidate_list(&mut store, list_a.id)?;

    let lists = list_candidate_list_summary(&store)?;
    let list_b_from_db = get_full_candidate_list(&store, list_b.id)?.unwrap();
    assert_eq!(1, lists.len());
    assert_eq!(list_b.id, lists[0].list.id);
    assert_eq!(1, lists[0].person_count);
    assert_eq!(person_b.id, list_b_from_db.candidates[0].person.id);
    assert_eq!(0, lists[0].duplicate_districts.len());
    Ok(())
}

#[test]
fn candidate_repository_get_candidate_list_includes_candidates() -> Result<(), AppError> {
    let mut store = AppStore::default();
    let list_id = CandidateListId::new();
    let list = sample_candidate_list(list_id);
    let person_a = sample_person_with_last_name(PersonId::new(), "Jansen");
    let person_b = sample_person_with_last_name(PersonId::new(), "Bakker");

    create_candidate_list(&mut store, &list)?;
    store.update(AppEvent::CreatePerson(person_a.clone()))?;
    store.update(AppEvent::CreatePerson(person_b.clone()))?;
    update_candidate_list_order(&mut store, list_id, &[person_a.id, person_b.id])?;

    let detail = get_full_candidate_list(&store, list_id)?.expect("candidate list");
    assert_eq!(2, detail.candidates.len());
    assert_eq!(person_a.id, detail.candidates[0].person.id);
    assert_eq!(person_b.id, detail.candidates[1].person.id);
    Ok(())
}

#[test]
fn candidate_repository_update_candidate_list_order_returns_not_found() -> Result<(), AppError> {
    let mut store = AppStore::default();
    let err = update_candidate_list_order(&mut store, CandidateListId::new(), &[]).unwrap_err();
    assert!(matches!(err, AppError::NotFound(_)));
    Ok(())
}

#[test]
fn candidate_repository_get_full_candidate_list_returns_none_for_missing_list() -> Result<(), AppError> {
    let store = AppStore::default();
    let missing = get_full_candidate_list(&store, CandidateListId::new())?;
    assert!(missing.is_none());
    Ok(())
}

#[test]
fn candidate_repository_test_append_candidate_to_list() -> Result<(), AppError> {
    let mut store = AppStore::default();
    let list_id = CandidateListId::new();
    let list = sample_candidate_list(list_id);
    let person_a = sample_person_with_last_name(PersonId::new(), "Jansen");
    let person_b = sample_person_with_last_name(PersonId::new(), "Bakker");

    create_candidate_list(&mut store, &list)?;
    store.update(AppEvent::CreatePerson(person_a.clone()))?;
    store.update(AppEvent::CreatePerson(person_b.clone()))?;

    append_candidate_to_list(&mut store, list_id, person_a.id)?;
    append_candidate_to_list(&mut store, list_id, person_b.id)?;

    let detail = get_full_candidate_list(&store, list_id)?.expect("candidate list");
    assert_eq!(detail.candidates.len(), 2);
    assert_eq!(detail.candidates[0].person.id, person_a.id);
    assert_eq!(detail.candidates[0].position, 1);
    assert_eq!(detail.candidates[1].person.id, person_b.id);
    assert_eq!(detail.candidates[1].position, 2);
    Ok(())
}

#[test]
fn candidate_repository_append_candidate_to_list_returns_not_found() -> Result<(), AppError> {
    let mut store = AppStore::default();
    let err = append_candidate_to_list(&mut store, CandidateListId::new(), PersonId::new()).unwrap_err();
    assert!(matches!(err, AppError::NotFound(_)));
    Ok(())
}

#[test]
fn candidate_repository_remove_candidate_removes_from_list() -> Result<(), AppError> {
    let mut store = AppStore::default();
    let list_id = CandidateListId::new();
    let list = sample_candidate_list(list_id);
    let person_a = sample_person_with_last_name(PersonId::new(), "Jansen");
    let person_b = sample_person_with_last_name(PersonId::new(), "Bakker");

    create_candidate_list(&mut store, &list)?;
    store.update(AppEvent::CreatePerson(person_a.clone()))?;
    store.update(AppEvent::CreatePerson(person_b.clone()))?;
    append_candidate_to_list(&mut store, list_id, person_a.id)?;
    append_candidate_to_list(&mut store, list_id, person_b.id)?;

    remove_candidate(&mut store, person_a.id)?;

    let detail = get_full_candidate_list(&store, list_id)?.expect("candidate list");
    assert_eq!(detail.candidates.len(), 1);
    assert_eq!(detail.candidates[0].person.id, person_b.id);
    Ok(())
}

#[test]
fn candidate_repository_remove_candidate_returns_not_found() -> Result<(), AppError> {
    let mut store = AppStore::default();
    let err = remove_candidate(&mut store, PersonId::new()).unwrap_err();
    assert!(matches!(err, AppError::NotFound(_)));
    Ok(())
}

#[test]
fn candidate_repository_get_candidate_returns_candidate() -> Result<(), AppError> {
    let mut store = AppStore::default();
    let list_id = CandidateListId::new();
    let list = sample_candidate_list(list_id);
    let person = sample_person_with_last_name(PersonId::new(), "Jansen");

    create_candidate_list(&mut store, &list)?;
    store.update(AppEvent::CreatePerson(person.clone()))?;
    append_candidate_to_list(&mut store, list_id, person.id)?;

    let candidate = get_candidate(&store, list_id, person.id)?;
    assert_eq!(candidate.list_id, list_id);
    assert_eq!(candidate.position, 1);
    assert_eq!(candidate.person.id, person.id);
    Ok(())
}

#[test]
fn append_is_idempotent_and_keeps_order() -> Result<(), AppError> {
    let mut store = AppStore::default();
    let list = sample_candidate_list(CandidateListId::new());
    let a = sample_person_with_last_name(PersonId::new(), "Jansen");
    let b = sample_person_with_last_name(PersonId::new(), "Bakker");
    create_candidate_list(&mut store, &list)?;
    store.update(AppEvent::CreatePerson(a.clone()))?;
    store.update(AppEvent::CreatePerson(b.clone()))?;
    append_candidate_to_list(&mut store, list.id, a.id)?;
    append_candidate_to_list(&mut store, list.id, b.id)?;
    let pending_before = store.take_events().len();
    append_candidate_to_list(&mut store, list.id, a.id)?;
    assert_eq!(store.take_events().len(), 0);
    assert!(pending_before >= 2);
    let stored = get_candidate_list(&store, list.id)?.unwrap();
    assert_eq!(stored.candidates, vec![a.id, b.id]);
    Ok(())
}

#[test]
fn errors_carry_their_texts() -> Result<(), AppError> {
    let mut store = AppStore::default();
    let list = sample_candidate_list(CandidateListId::new());
    create_candidate_list(&mut store, &list)?;

    match append_candidate_to_list(&mut store, list.id, PersonId::new()) {
        Err(AppError::NotFound(msg)) => assert_eq!(msg, "person not found"),
        other => panic!("unexpected: {other:?}"),
    }
    match CandidateList::append_candidate(&mut store, list.id, PersonId::new()) {
        Err(AppError::GenericNotFound) => {}
        other => panic!("unexpected: {other:?}"),
    }
    match remove_candidate_from_list(&mut store, list.id, PersonId::new()) {
        Err(AppError::NotFound(msg)) => assert_eq!(msg, "candidate not found on list"),
        other => panic!("unexpected: {other:?}"),
    }
    match remove_candidate_from_list(&mut store, CandidateListId::new(), PersonId::new()) {
        Err(AppError::NotFound(msg)) => assert_eq!(msg, "candidate list not found"),
        other => panic!("unexpected: {other:?}"),
    }
    match remove_candidate(&mut store, PersonId::new()) {
        Err(AppError::NotFound(msg)) => assert_eq!(msg, "candidate not found in any list"),
        other => panic!("unexpected: {other:?}"),
    }
    match update_candidate_list(&mut store, &sample_candidate_list(CandidateListId::new())) {
        Err(AppError::NotFound(msg)) => assert_eq!(msg, "candidate list not found"),
        other => panic!("unexpected: {other:?}"),
    }
    match sample_candidate_list(CandidateListId::new()).update(&mut store) {
        Err(AppError::GenericNotFound) => {}
        other => panic!("unexpected: {other:?}"),
    }
    match get_candidate(&store, list.id, PersonId::new()) {
        Err(AppError::NotFound(msg)) => assert_eq!(msg, "candidate not found on list"),
        other => panic!("unexpected: {other:?}"),
    }
    Ok(())
}

#[test]
fn get_candidate_reports_missing_person_record() -> Result<(), AppError> {
    let mut store = AppStore::default();
    let list = sample_candidate_list(CandidateListId::new());
    create_candidate_list(&mut store, &list)?;
    let p = sample_person_with_last_name(PersonId::new(), "Jansen");
    store.update(AppEvent::CreatePerson(p.clone()))?;
    append_candidate_to_list(&mut store, list.id, p.id)?;
    store.update(AppEvent::DeletePerson(p.id))?;
    match get_candidate(&store, list.id, p.id) {
        Err(AppError::NotFound(msg)) => assert_eq!(msg, "person not found"),
        other => panic!("unexpected: {other:?}"),
    }
    match CandidateList::get_candidate(&store, list.id, p.id) {
        Err(AppError::GenericNotFound) => {}
        other => panic!("unexpected: {other:?}"),
    }
    match get_full_candidate_list(&store, list.id) {
        Err(AppError::NotFound(msg)) => assert_eq!(msg, "person not found"),
        other => panic!("unexpected: {other:?}"),
    }
    Ok(())
}

#[test]
fn persons_not_on_list_in_store_order() -> Result<(), AppError> {
    let mut store = AppStore::default();
    let list = sample_candidate_list(CandidateListId::new());
    create_candidate_list(&mut store, &list)?;
    let a = sample_person_with_last_name(PersonId::new(), "Jansen");
    let b = sample_person_with_last_name(PersonId::new(), "Bakker");
    let c = sample_person_with_last_name(PersonId::new(), "Claes");
    for p in [&a, &b, &c] {
        store.update(AppEvent::CreatePerson(p.clone()))?;
    }
    append_candidate_to_list(&mut store, list.id, b.id)?;
    let rest = list_persons_not_on_candidate_list(&store, list.id)?;
    let ids: Vec<PersonId> = rest.iter().map(|p| p.id).collect();
    assert_eq!(ids, vec![a.id, c.id]);
    assert!(matches!(
        list_persons_not_on_candidate_list(&store, CandidateListId::new()),
        Err(AppError::NotFound(_))
    ));
    Ok(())
}

#[test]
fn used_districts_come_in_enumeration_order_once_each() -> Result<(), AppError> {
    let mut store = AppStore::default();
    insert_list(&mut store, vec![ElectoralDistrict::ZH, ElectoralDistrict::DR, ElectoralDistrict::ZH])?;
    insert_list(&mut store, vec![ElectoralDistrict::FL])?;
    let used = get_used_districts(&store, vec![])?;
    assert_eq!(used, vec![ElectoralDistrict::DR, ElectoralDistrict::FL, ElectoralDistrict::ZH]);
    Ok(())
}

#[test]
fn first_position_is_reported_for_repeated_candidate() -> Result<(), AppError> {
    let mut store = AppStore::default();
    let list = sample_candidate_list(CandidateListId::new());
    create_candidate_list(&mut store, &list)?;
    let a = sample_person_with_last_name(PersonId::new(), "Jansen");
    let b = sample_person_with_last_name(PersonId::new(), "Bakker");
    store.update(AppEvent::CreatePerson(a.clone()))?;
    store.update(AppEvent::CreatePerson(b.clone()))?;
    update_candidate_list_order(&mut store, list.id, &[b.id, a.id, b.id])?;
    assert_eq!(get_candidate(&store, list.id, b.id)?.position, 1);
    assert_eq!(get_candidate(&store, list.id, a.id)?.position, 2);
    remove_candidate_from_list(&mut store, list.id, b.id)?;
    let stored = get_candidate_list(&store, list.id)?.unwrap();
    assert_eq!(stored.candidates, vec![a.id]);
    Ok(())
}
