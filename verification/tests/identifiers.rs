use std::cmp::Ordering;

use eks::sorting::{cmp_gender, cmp_option_string, cmp_string, gender_rank};
use eks::person::Gender;
use eks::{CandidateListId, PersonId, PoliticalGroupId, Timestamp};

#[test]
fn name_based_identifiers_are_version_5_in_the_oid_namespace() {
    let id = CandidateListId::from_name(b"the_one_and_only_fixture_candidate_list");
    assert_eq!(id.0, 0x62125dbf_c44e_5042_9283_0e698ceffbfc);
    assert_eq!(id.to_text(), "62125dbf-c44e-5042-9283-0e698ceffbfc");
    let group = PoliticalGroupId::from_name(b"fixture_political_group");
    assert_eq!(group.0, 0xca076808_ed15_5f48_a8f9_f719e4adc7f6);
}

#[test]
fn random_identifiers_are_version_4_and_distinct() {
    let a = PersonId::new();
    let b = PersonId::new();
    assert_ne!(a, b);
    assert_eq!((a.0 >> 76) & 0xf, 4);
    assert_eq!((a.0 >> 62) & 0x3, 2);
}

#[test]
fn clock_reads_the_present() {
    let t = Timestamp::now();
    assert!(t.secs > 1_700_000_000);
    assert!(Timestamp::epoch().is_before(&t));
    assert!(!t.is_before(&t));
}

#[test]
fn text_comparison_ignores_case() {
    assert_eq!(cmp_string("bakker", "Claes"), Ordering::Less);
    assert_eq!(cmp_string("JANSEN", "jansen"), Ordering::Equal);
    assert_eq!(cmp_string("de", "De Vries"), Ordering::Less);
    assert_eq!(cmp_option_string(&None, &Some("a".to_string())), Ordering::Less);
    assert_eq!(cmp_option_string(&None, &Some(String::new())), Ordering::Equal);
}

#[test]
fn genders_rank_none_female_male() {
    assert_eq!(gender_rank(&None), 0);
    assert_eq!(gender_rank(&Some(Gender::Female)), 1);
    assert_eq!(gender_rank(&Some(Gender::Male)), 2);
    assert_eq!(cmp_gender(&Some(Gender::Male), &Some(Gender::Female)), Ordering::Greater);
    assert_eq!(cmp_gender(&None, &None), Ordering::Equal);
}
