use eks::person::{Gender, Person};
use eks::persons::{count_persons, create_person, get_person, list_persons, remove_person, update_address, update_person};
use eks::sorting::{PersonSort, SortDirection};
use eks::store::AppStore;
use eks::{AppError, PersonId, Timestamp};

fn base_person() -> Person {
    Person {
        id: PersonId::new(),
        last_name: "Dijk".to_string(),
        last_name_prefix: None,
        initials: "A.B.".to_string(),
        first_name: None,
        bsn: None,
        place_of_residence: None,
        country_of_residence: None,
        gender: None,
        date_of_birth: None,
        locality: None,
        postal_code: None,
        house_number: None,
        house_number_addition: None,
        street_name: None,
        created_at: Timestamp::now(),
        updated_at: Timestamp::now(),
    }
}

fn sample_person(id: PersonId) -> Person {
    sample_person_with_last_name(id, "Jansen")
}

fn sample_person_with_last_name(id: PersonId, last_name: &str) -> Person {
    Person {
        id,
        last_name: last_name.to_string(),
        last_name_prefix: None,
        initials: "A.B.".to_string(),
        first_name: Some("Anne".to_string()),
        bsn: None,
        place_of_residence: Some("Utrecht".to_string()),
        country_of_residence: Some("NL".to_string()),
        gender: Some(Gender::Female),
        date_of_birth: None,
        locality: Some("Utrecht".to_string()),
        postal_code: Some("1234 AB".to_string()),
        house_number: Some("1".to_string()),
        house_number_addition: None,
        street_name: Some("Stationsstraat".to_string()),
        created_at: Timestamp::now(),
        updated_at: Timestamp::now(),
    }
}

#[test]
fn last_name_formats_with_optional_prefix() {
    let mut person = base_person();
    assert_eq!(person.last_name_with_prefix(), "Dijk");
    assert_eq!(person.last_name_with_prefix_appended(), "Dijk");

    person.last_name_prefix = Some("van".to_string());
    assert_eq!(person.last_name_with_prefix(), "van Dijk");
    assert_eq!(person.last_name_with_prefix_appended(), "Dijk, van");
}

#[test]
fn display_name_prefers_first_name_over_initials() {
    let mut person = base_person();
    person.last_name_prefix = Some("van".to_string());
    person.first_name = Some("Anne".to_string());
    assert_eq!(person.display_name(), "Anne van Dijk");

    person.first_name = None;
    assert_eq!(person.display_name(), "A.B. van Dijk");
}

#[test]
fn first_name_display_falls_back_to_empty_string() {
    let mut person = base_person();
    assert_eq!(person.first_name_display(), "");

    person.first_name = Some("Henk".to_string());
    assert_eq!(person.first_name_display(), "Henk");
}

#[test]
fn is_dutch_defaults_to_true_and_accepts_variants() {
    let mut person = base_person();
    assert!(person.is_dutch());

    person.country_of_residence = Some("NL".to_string());
    assert!(person.is_dutch());

    person.country_of_residence = Some("BE".to_string());
    assert!(!person.is_dutch());
}

#[test]
fn gender_key_returns_translations_or_empty_keys() {
    let mut person = base_person();
    assert_eq!(person.gender_key(), "");

    person.gender = Some(Gender::Male);
    assert_eq!(person.gender_key(), "gender.male");

    person.gender = Some(Gender::Female);
    assert_eq!(person.gender_key(), "gender.female");
}

#[test]
fn person_create_and_get_person() -> Result<(), AppError> {
    let mut store = AppStore::default();
    let id = PersonId::new();
    let person = sample_person(id);

    person.create(&mut store)?;

    let loaded = store.get_person(id).expect("person");
    assert_eq!(loaded.id, id);
    assert_eq!(loaded.last_name, "Jansen");

    Ok(())
}

#[test]
fn person_update_person_overwrites_fields() -> Result<(), AppError> {
    let mut store = AppStore::default();
    let id = PersonId::new();
    let mut person = sample_person(id);

    person.create(&mut store)?;

    person.last_name = "Updated".to_string();
    person.update(&mut store)?;

    let updated = store.get_person(id).expect("person");
    assert_eq!(updated.last_name, "Updated");

    Ok(())
}

#[test]
fn person_remove_person_deletes_record() -> Result<(), AppError> {
    let mut store = AppStore::default();
    let id = PersonId::new();
    let person = sample_person(id);

    person.create(&mut store)?;
    person.delete(&mut store)?;

    let missing = store.get_person(id);
    assert!(missing.is_err());

    Ok(())
}

#[test]
fn person_update_address_overwrites_fields() -> Result<(), AppError> {
    let mut store = AppStore::default();
    let id = PersonId::new();
    let mut person = sample_person(id);

    person.create(&mut store)?;

    person.locality = Some("Nieuwegein".to_string());
    person.postal_code = Some("9999 ZZ".to_string());
    person.house_number = Some("99".to_string());
    person.house_number_addition = None;
    person.street_name = Some("Nieuweweg".to_string());

    person.update_address(&mut store)?;

    let updated = store.get_person(id).expect("person");
    assert_eq!(updated.locality, Some("Nieuwegein".to_string()));
    assert_eq!(updated.postal_code, Some("9999 ZZ".to_string()));
    assert_eq!(updated.house_number, Some("99".to_string()));
    assert_eq!(updated.house_number_addition, None);
    assert_eq!(updated.street_name, Some("Nieuweweg".to_string()));

    Ok(())
}

#[test]
fn person_list_and_count_persons() -> Result<(), AppError> {
    let mut store = AppStore::default();
    sample_person_with_last_name(PersonId::new(), "Jansen").create(&mut store)?;
    sample_person_with_last_name(PersonId::new(), "Bakker").create(&mut store)?;

    let total = Person::count(&store);
    assert_eq!(total, 2);

    let persons = Person::list(&store, 10, 0, &PersonSort::LastName, &SortDirection::Asc);
    assert_eq!(persons.len(), 2);
    assert_eq!(persons[0].last_name, "Bakker");

    Ok(())
}

#[test]
fn repository_create_and_get_person() -> Result<(), AppError> {
    let mut store = AppStore::default();
    let id = PersonId::new();
    let person = sample_person(id);

    create_person(&mut store, &person)?;

    let loaded = get_person(&store, id).expect("person");
    assert_eq!(loaded.id, id);
    assert_eq!(loaded.last_name, "Jansen");

    Ok(())
}

#[test]
fn repository_list_and_count_persons() -> Result<(), AppError> {
    let mut store = AppStore::default();
    create_person(&mut store, &sample_person_with_last_name(PersonId::new(), "Jansen"))?;
    create_person(&mut store, &sample_person_with_last_name(PersonId::new(), "Bakker"))?;

    let total = count_persons(&store);
    assert_eq!(total, 2);

    let persons = list_persons(&store, 10, 0, &PersonSort::LastName, &SortDirection::Asc);
    assert_eq!(persons.len(), 2);
    assert_eq!(persons[0].last_name, "Bakker");

    Ok(())
}

#[test]
fn repository_update_person_overwrites_fields() -> Result<(), AppError> {
    let mut store = AppStore::default();
    let id = PersonId::new();
    let mut person = sample_person(id);

    create_person(&mut store, &person)?;

    person.last_name = "Updated".to_string();
    update_person(&mut store, &person)?;

    let updated = get_person(&store, id).expect("person");
    assert_eq!(updated.last_name, "Updated");

    Ok(())
}

#[test]
fn repository_remove_person_deletes_record() -> Result<(), AppError> {
    let mut store = AppStore::default();
    let id = PersonId::new();
    let person = sample_person(id);

    create_person(&mut store, &person)?;
    remove_person(&mut store, id)?;

    let missing = get_person(&store, id);
    assert!(missing.is_none());

    Ok(())
}

#[test]
fn repository_update_address_overwrites_fields() -> Result<(), AppError> {
    let mut store = AppStore::default();
    let id = PersonId::new();
    let mut person = sample_person(id);

    create_person(&mut store, &person)?;

    person.locality = Some("Nieuwegein".to_string());
    person.postal_code = Some("9999 ZZ".to_string());
    person.house_number = Some("99".to_string());
    person.house_number_addition = None;
    person.street_name = Some("Nieuweweg".to_string());

    update_address(&mut store, &person)?;

    let updated = get_person(&store, id).expect("person");
    assert_eq!(updated.locality, Some("Nieuwegein".to_string()));
    assert_eq!(updated.postal_code, Some("9999 ZZ".to_string()));
    assert_eq!(updated.house_number, Some("99".to_string()));
    assert_eq!(updated.house_number_addition, None);
    assert_eq!(updated.street_name, Some("Nieuweweg".to_string()));

    Ok(())
}

#[test]
fn update_person_of_missing_person_reports_not_found() {
    let mut store = AppStore::default();
    let person = sample_person(PersonId::new());
    let err = update_person(&mut store, &person).unwrap_err();
    match err {
        AppError::NotFound(msg) => assert_eq!(msg, "person not found"),
        other => panic!("unexpected error: {other:?}"),
    }
    assert_eq!(count_persons(&store), 0);
}

#[test]
fn update_keeps_stored_address_and_creation_time() -> Result<(), AppError> {
    let mut store = AppStore::default();
    let id = PersonId::new();
    let created = sample_person(id).create(&mut store)?;
    let mut changed = sample_person(id);
    changed.street_name = Some("Elders".to_string());
    changed.first_name = Some("Bram".to_string());
    let updated = changed.update(&mut store)?;
    assert_eq!(updated.street_name, Some("Stationsstraat".to_string()));
    assert_eq!(updated.first_name, Some("Bram".to_string()));
    assert_eq!(updated.created_at, created.created_at);
    Ok(())
}

#[test]
fn list_persons_pages_and_reverses() -> Result<(), AppError> {
    let mut store = AppStore::default();
    for name in ["Claes", "Arends", "Bakker", "Dekker"] {
        create_person(&mut store, &sample_person_with_last_name(PersonId::new(), name))?;
    }
    let page = list_persons(&store, 2, 1, &PersonSort::LastName, &SortDirection::Asc);
    let names: Vec<String> = page.iter().map(|p| p.last_name.clone()).collect();
    assert_eq!(names, vec!["Bakker".to_string(), "Claes".to_string()]);

    let page = list_persons(&store, 10, 0, &PersonSort::LastName, &SortDirection::Desc);
    let names: Vec<String> = page.iter().map(|p| p.last_name.clone()).collect();
    assert_eq!(names, vec!["Dekker".to_string(), "Claes".to_string(), "Bakker".to_string(), "Arends".to_string()]);

    assert!(list_persons(&store, -1, 0, &PersonSort::LastName, &SortDirection::Asc).is_empty());
    assert!(list_persons(&store, 5, 10, &PersonSort::LastName, &SortDirection::Asc).is_empty());
    Ok(())
}

#[test]
fn completeness_checks_follow_recorded_fields() {
    let mut person = sample_person(PersonId::new());
    assert!(person.is_address_complete());
    person.postal_code = None;
    assert!(!person.is_address_complete());
    assert!(!person.is_complete());
}
