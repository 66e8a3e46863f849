use eks::crypto::EventCrypto;
use eks::person::Person;
use eks::store::{AppEvent, AppStore, StoreEvent};
use eks::stream::{decode_stream_records, encode_stream_record, next_event_id};
use eks::{AppError, PersonId, Timestamp};

fn person(id: PersonId, last_name: &str) -> Person {
    Person {
        id,
        last_name: last_name.to_string(),
        last_name_prefix: None,
        initials: "A.".to_string(),
        first_name: None,
        bsn: None,
        place_of_residence: None,
        country_of_residence: None,
        gender: None,
        date_of_birth: None,
        locality: None,
        postal_code: None,
        house_number: None,
        house_number_addition: None,
        street_name: None,
        created_at: Timestamp::now(),
        updated_at: Timestamp::now(),
    }
}

fn stored(event_id: i64, payload: AppEvent) -> StoreEvent {
    StoreEvent { event_id, created_at: Timestamp::now(), payload }
}

#[test]
fn records_are_framed_with_little_endian_length() {
    let record = encode_stream_record(&[7, 8, 9]).unwrap();
    assert_eq!(record, vec![3, 0, 0, 0, 7, 8, 9]);
    let long = vec![1u8; 300];
    let record = encode_stream_record(&long).unwrap();
    assert_eq!(&record[..4], &[44, 1, 0, 0]);
    assert_eq!(record.len(), 304);
}

#[test]
fn framed_records_read_back_in_order() {
    let mut stream = Vec::new();
    let payloads: Vec<Vec<u8>> = vec![vec![], vec![1, 2, 3], vec![42; 1000]];
    for p in &payloads {
        stream.extend(encode_stream_record(p).unwrap());
    }
    assert_eq!(decode_stream_records(&stream).unwrap(), payloads);
    assert_eq!(decode_stream_records(&[]).unwrap(), Vec::<Vec<u8>>::new());
}

#[test]
fn truncated_streams_violate_integrity() {
    let mut stream = encode_stream_record(&[1, 2, 3]).unwrap();
    stream.pop();
    assert!(matches!(decode_stream_records(&stream), Err(AppError::IntegrityViolation)));
    assert!(matches!(decode_stream_records(&[1, 0]), Err(AppError::IntegrityViolation)));
}

#[test]
fn next_event_ids_follow_the_last_one() {
    assert_eq!(next_event_id(&[]), 1);
    let events = vec![stored(4, AppEvent::DeletePerson(PersonId::new())), stored(9, AppEvent::DeletePerson(PersonId::new()))];
    assert_eq!(next_event_id(&events), 10);
}

#[test]
fn replay_applies_new_events_once_and_skips_seen_ones() {
    let a = PersonId::new();
    let b = PersonId::new();
    let events = vec![
        stored(1, AppEvent::CreatePerson(person(a, "Jansen"))),
        stored(2, AppEvent::CreatePerson(person(b, "Bakker"))),
        stored(2, AppEvent::DeletePerson(b)),
        stored(3, AppEvent::DeletePerson(a)),
    ];
    let mut store = AppStore::default();
    store.load_events(events);
    assert_eq!(store.get_last_event_id(), 3);
    assert_eq!(store.get_person_count(), 1);
    assert!(store.get_person(b).is_ok());
    assert!(store.get_person(a).is_err());
    assert!(store.take_events().is_empty());

    let again = vec![
        stored(1, AppEvent::CreatePerson(person(a, "Jansen"))),
        stored(3, AppEvent::DeletePerson(b)),
    ];
    store.load_events(again);
    assert_eq!(store.get_person_count(), 1);
    assert!(store.get_person(b).is_ok());
}

#[test]
fn stored_event_with_seen_id_is_skipped() {
    let mut store = AppStore::default();
    let a = PersonId::new();
    store.apply_stored_event(5, AppEvent::CreatePerson(person(a, "Jansen")));
    store.apply_stored_event(5, AppEvent::DeletePerson(a));
    assert!(store.get_person(a).is_ok());
    assert_eq!(store.get_last_event_id(), 5);
}

#[test]
fn sealed_payloads_open_to_the_plaintext() {
    let crypto = EventCrypto::new(vec![0u8; 32]).unwrap();
    let sealed = crypto.encrypt(b"event payload").unwrap();
    assert_eq!(sealed.len(), 12 + 13 + 16);
    assert_eq!(crypto.decrypt(&sealed).unwrap(), b"event payload".to_vec());
    let again = crypto.encrypt(b"event payload").unwrap();
    assert_ne!(sealed, again);
}

#[test]
fn tampered_or_short_payloads_violate_integrity() {
    let crypto = EventCrypto::new(vec![1u8; 32]).unwrap();
    let mut sealed = crypto.encrypt(b"data").unwrap();
    let last = sealed.len() - 1;
    sealed[last] ^= 1;
    assert!(matches!(crypto.decrypt(&sealed), Err(AppError::IntegrityViolation)));
    assert!(matches!(crypto.decrypt(&[0u8; 11]), Err(AppError::IntegrityViolation)));
    let other = EventCrypto::new(vec![2u8; 32]).unwrap();
    let sealed = crypto.encrypt(b"data").unwrap();
    assert!(matches!(other.decrypt(&sealed), Err(AppError::IntegrityViolation)));
}

#[test]
fn update_journals_the_event() -> Result<(), AppError> {
    let mut store = AppStore::default();
    let a = PersonId::new();
    store.update(AppEvent::CreatePerson(person(a, "Jansen")))?;
    store.update(AppEvent::UpdatePerson(person(PersonId::new(), "Nobody")))?;
    let events = store.take_events();
    assert_eq!(events.len(), 2);
    assert_eq!(store.get_person_count(), 1);
    assert!(store.take_events().is_empty());
    Ok(())
}

#[test]
fn only_the_sealed_version_is_opened() {
    let crypto = EventCrypto::new(vec![3u8; 32]).unwrap();
    let sealed = crypto.encrypt(b"change").unwrap();
    assert!(crypto.open_stored_payload(0, &sealed).is_none());
    assert!(crypto.open_stored_payload(2, &sealed).is_none());
    assert_eq!(crypto.open_stored_payload(eks::crypto::SEALED_EVENT_VERSION, &sealed).unwrap().unwrap(), b"change".to_vec());
    assert!(matches!(
        crypto.open_stored_payload(1, &sealed[..5]),
        Some(Err(AppError::IntegrityViolation))
    ));
}
