//! The orders in which persons are listed.

use vstd::prelude::*;

use core::cmp::Ordering;

use crate::person::{Gender, Person};
use crate::strings::{
    lemma_text_order_basics, lemma_text_order_transitive, lowercase, lowercase_chars,
    text_order, text_order_of,
};
use crate::time::Timestamp;

verus! {

/// The field by which persons are listed.
#[derive(Clone, Copy, Debug, PartialEq, Eq, Structural)]
pub enum PersonSort {
    LastName,
    FirstName,
    Initials,
    Gender,
    PlaceOfResidence,
    CreatedAt,
    UpdatedAt,
}

/// Ascending or descending.
#[derive(Clone, Copy, Debug, PartialEq, Eq, Structural)]
pub enum SortDirection {
    Asc,
    Desc,
}

/// -1, 0 or 1 for `Less`, `Equal` and `Greater`.
pub open spec fn ordering_sign(o: Ordering) -> int {
    match o {
        Ordering::Less => -1,
        Ordering::Equal => 0,
        Ordering::Greater => 1,
    }
}

/// The order of two integers: -1, 0 or 1.
pub open spec fn int_order(a: int, b: int) -> int {
    if a < b {
        -1
    } else if a > b {
        1
    } else {
        0
    }
}

/// The first order unless it is 0, then the second.
pub open spec fn then_order(first: int, second: int) -> int {
    if first != 0 {
        first
    } else {
        second
    }
}

/// An optional text, the empty text when absent.
pub open spec fn text_or_empty(o: Option<String>) -> Seq<char> {
    match o {
        Some(s) => s@,
        None => ""@,
    }
}

/// The order of two texts ignoring case: their lower-cased forms by code point.
pub open spec fn caseless_order(a: Seq<char>, b: Seq<char>) -> int {
    text_order(lowercase(a), lowercase(b))
}

/// The rank of a gender in listings: none first, then female, then male.
pub open spec fn gender_rank_of(g: Option<Gender>) -> int {
    match g {
        None => 0,
        Some(Gender::Female) => 1,
        Some(Gender::Male) => 2,
    }
}

/// The order of two instants: by seconds, then nanoseconds.
pub open spec fn time_order(a: Timestamp, b: Timestamp) -> int {
    then_order(int_order(a.secs as int, b.secs as int), int_order(a.nanos as int, b.nanos as int))
}

/// The order of two persons for a listing by `f`; every order ends with the identifiers.
pub open spec fn person_order(a: Person, b: Person, f: PersonSort) -> int {
    let id = int_order(a.id.0 as int, b.id.0 as int);
    let by_last = caseless_order(a.last_name@, b.last_name@);
    match f {
        PersonSort::LastName => then_order(
            by_last,
            then_order(
                caseless_order(text_or_empty(a.last_name_prefix), text_or_empty(b.last_name_prefix)),
                then_order(caseless_order(a.initials@, b.initials@), id),
            ),
        ),
        PersonSort::FirstName => then_order(
            caseless_order(text_or_empty(a.first_name), text_or_empty(b.first_name)),
            then_order(by_last, id),
        ),
        PersonSort::Initials => then_order(
            caseless_order(a.initials@, b.initials@),
            then_order(by_last, id),
        ),
        PersonSort::Gender => then_order(
            int_order(gender_rank_of(a.gender), gender_rank_of(b.gender)),
            then_order(by_last, id),
        ),
        PersonSort::PlaceOfResidence => then_order(
            caseless_order(
                text_or_empty(a.place_of_residence),
                text_or_empty(b.place_of_residence),
            ),
            then_order(by_last, id),
        ),
        PersonSort::CreatedAt => then_order(time_order(a.created_at, b.created_at), id),
        PersonSort::UpdatedAt => then_order(time_order(a.updated_at, b.updated_at), id),
    }
}

/// The persons of `s` are in order by `f`: no later one comes strictly before an earlier one.
pub open spec fn persons_sorted(s: Seq<Person>, f: PersonSort) -> bool {
    forall|i: int, j: int| 0 <= i < j < s.len() ==> person_order(#[trigger] s[i], #[trigger] s[j], f) <= 0
}

proof fn lemma_caseless(a: Seq<char>, b: Seq<char>, c: Seq<char>)
    ensures
        -1 <= caseless_order(a, b) <= 1,
        caseless_order(a, b) == -caseless_order(b, a),
        caseless_order(a, b) == 0 ==> lowercase(a) == lowercase(b),
        lowercase(a) == lowercase(b) ==> caseless_order(a, c) == caseless_order(b, c),
        caseless_order(a, b) <= 0 && caseless_order(b, c) <= 0 ==> caseless_order(a, c) <= 0,
{
    lemma_text_order_basics(lowercase(a), lowercase(b));
    if caseless_order(a, b) <= 0 && caseless_order(b, c) <= 0 {
        lemma_text_order_transitive(lowercase(a), lowercase(b), lowercase(c));
    }
}

/// The order of persons by any field is a total order: it reverses with its arguments,
/// it is transitive, and it is zero only for persons with the same identifier.
pub proof fn lemma_person_order(a: Person, b: Person, c: Person, f: PersonSort)
    ensures
        -1 <= person_order(a, b, f) <= 1,
        person_order(a, b, f) == -person_order(b, a, f),
        person_order(a, b, f) == 0 ==> a.id == b.id,
        person_order(a, b, f) <= 0 && person_order(b, c, f) <= 0 ==> person_order(a, c, f) <= 0,
{
    let (la, lb, lc) = (a.last_name@, b.last_name@, c.last_name@);
    lemma_caseless(la, lb, lc);
    lemma_caseless(lb, lc, la);
    lemma_caseless(la, lc, lb);
    lemma_caseless(lb, la, lc);
    lemma_caseless(lc, lb, la);
    lemma_caseless(lc, la, lb);
    let (pa, pb, pc) = (text_or_empty(a.last_name_prefix), text_or_empty(b.last_name_prefix), text_or_empty(c.last_name_prefix));
    let (ia, ib, ic) = (a.initials@, b.initials@, c.initials@);
    let (fa, fb, fc) = (text_or_empty(a.first_name), text_or_empty(b.first_name), text_or_empty(c.first_name));
    let (ra, rb, rc) = (text_or_empty(a.place_of_residence), text_or_empty(b.place_of_residence), text_or_empty(c.place_of_residence));
    match f {
        PersonSort::LastName => {
            lemma_caseless(pa, pb, pc);
            lemma_caseless(pb, pc, pa);
            lemma_caseless(pa, pc, pb);
            lemma_caseless(pb, pa, pc);
            lemma_caseless(pc, pb, pa);
            lemma_caseless(pc, pa, pb);
            lemma_caseless(ia, ib, ic);
            lemma_caseless(ib, ic, ia);
            lemma_caseless(ia, ic, ib);
            lemma_caseless(ib, ia, ic);
            lemma_caseless(ic, ib, ia);
            lemma_caseless(ic, ia, ib);
        },
        PersonSort::FirstName => {
            lemma_caseless(fa, fb, fc);
            lemma_caseless(fb, fc, fa);
            lemma_caseless(fa, fc, fb);
            lemma_caseless(fb, fa, fc);
            lemma_caseless(fc, fb, fa);
            lemma_caseless(fc, fa, fb);
        },
        PersonSort::Initials => {
            lemma_caseless(ia, ib, ic);
            lemma_caseless(ib, ic, ia);
            lemma_caseless(ia, ic, ib);
            lemma_caseless(ib, ia, ic);
            lemma_caseless(ic, ib, ia);
            lemma_caseless(ic, ia, ib);
        },
        PersonSort::PlaceOfResidence => {
            lemma_caseless(ra, rb, rc);
            lemma_caseless(rb, rc, ra);
            lemma_caseless(ra, rc, rb);
            lemma_caseless(rb, ra, rc);
            lemma_caseless(rc, rb, ra);
            lemma_caseless(rc, ra, rb);
        },
        _ => {},
    }
}

/// The `Ordering` with sign `s`.
fn ordering_from(s: i8) -> (o: Ordering)
    requires
        -1 <= s <= 1,
    ensures
        ordering_sign(o) == s,
{
    if s < 0 {
        Ordering::Less
    } else if s > 0 {
        Ordering::Greater
    } else {
        Ordering::Equal
    }
}

/// The sign of an `Ordering`.
fn sign_of(o: Ordering) -> (s: i8)
    ensures
        s == ordering_sign(o),
{
    match o {
        Ordering::Less => -1,
        Ordering::Equal => 0,
        Ordering::Greater => 1,
    }
}

/// Compares two texts ignoring case: their lower-cased forms, by code point.
pub fn cmp_string(a: &str, b: &str) -> (o: Ordering)
    ensures
        ordering_sign(o) == caseless_order(a@, b@),
{
    let x = lowercase_chars(a);
    let y = lowercase_chars(b);
    let s = text_order_of(&x, &y);
    proof {
        lemma_text_order_basics(x@, y@);
    }
    ordering_from(s)
}

/// Compares two optional texts ignoring case, an absent text counting as empty.
pub fn cmp_option_string(a: &Option<String>, b: &Option<String>) -> (o: Ordering)
    ensures
        ordering_sign(o) == caseless_order(text_or_empty(*a), text_or_empty(*b)),
{
    let x: &str = match a {
        Some(s) => s.as_str(),
        None => "",
    };
    let y: &str = match b {
        Some(s) => s.as_str(),
        None => "",
    };
    cmp_string(x, y)
}

/// Compares two optional genders by their listing rank.
pub fn cmp_gender(a: &Option<Gender>, b: &Option<Gender>) -> (o: Ordering)
    ensures
        ordering_sign(o) == int_order(gender_rank_of(*a), gender_rank_of(*b)),
{
    let x = gender_rank(a);
    let y = gender_rank(b);
    if x < y {
        Ordering::Less
    } else if x > y {
        Ordering::Greater
    } else {
        Ordering::Equal
    }
}

/// The listing rank of an optional gender: none 0, female 1, male 2.
pub fn gender_rank(gender: &Option<Gender>) -> (r: u8)
    ensures
        r == gender_rank_of(*gender),
{
    match gender {
        None => 0,
        Some(Gender::Female) => 1,
        Some(Gender::Male) => 2,
    }
}

/// The order of two integers as -1, 0 or 1.
fn order_u128(a: u128, b: u128) -> (s: i8)
    ensures
        s == int_order(a as int, b as int),
{
    if a < b {
        -1
    } else if a > b {
        1
    } else {
        0
    }
}

/// The order of two instants as -1, 0 or 1.
fn order_time(a: &Timestamp, b: &Timestamp) -> (s: i8)
    ensures
        s == time_order(*a, *b),
{
    if a.secs < b.secs {
        -1
    } else if a.secs > b.secs {
        1
    } else if a.nanos < b.nanos {
        -1
    } else if a.nanos > b.nanos {
        1
    } else {
        0
    }
}

/// The first order unless it is 0, then the second.
fn then_sign(first: i8, second: i8) -> (s: i8)
    ensures
        s == then_order(first as int, second as int),
{
    if first != 0 {
        first
    } else {
        second
    }
}

/// Compares two persons for a listing by `sort_field`.
pub fn compare_persons(a: &Person, b: &Person, sort_field: &PersonSort) -> (o: Ordering)
    ensures
        ordering_sign(o) == person_order(*a, *b, *sort_field),
{
    proof {
        lemma_person_order(*a, *b, *b, *sort_field);
    }
    let id = order_u128(a.id.0, b.id.0);
    let s = match sort_field {
        PersonSort::LastName => {
            let last = sign_of(cmp_string(a.last_name.as_str(), b.last_name.as_str()));
            if last != 0 {
                last
            } else {
                let prefix = sign_of(cmp_option_string(&a.last_name_prefix, &b.last_name_prefix));
                if prefix != 0 {
                    prefix
                } else {
                    then_sign(sign_of(cmp_string(a.initials.as_str(), b.initials.as_str())), id)
                }
            }
        },
        PersonSort::FirstName => {
            let first = sign_of(cmp_option_string(&a.first_name, &b.first_name));
            if first != 0 {
                first
            } else {
                then_sign(sign_of(cmp_string(a.last_name.as_str(), b.last_name.as_str())), id)
            }
        },
        PersonSort::Initials => {
            let initials = sign_of(cmp_string(a.initials.as_str(), b.initials.as_str()));
            if initials != 0 {
                initials
            } else {
                then_sign(sign_of(cmp_string(a.last_name.as_str(), b.last_name.as_str())), id)
            }
        },
        PersonSort::Gender => {
            let gender = sign_of(cmp_gender(&a.gender, &b.gender));
            if gender != 0 {
                gender
            } else {
                then_sign(sign_of(cmp_string(a.last_name.as_str(), b.last_name.as_str())), id)
            }
        },
        PersonSort::PlaceOfResidence => {
            let place = sign_of(cmp_option_string(&a.place_of_residence, &b.place_of_residence));
            if place != 0 {
                place
            } else {
                then_sign(sign_of(cmp_string(a.last_name.as_str(), b.last_name.as_str())), id)
            }
        },
        PersonSort::CreatedAt => then_sign(order_time(&a.created_at, &b.created_at), id),
        PersonSort::UpdatedAt => then_sign(order_time(&a.updated_at, &b.updated_at), id),
    };
    ordering_from(s)
}

/// The order of two persons for a listing by `sort_field`, as -1, 0 or 1.
pub fn person_order_sign(a: &Person, b: &Person, sort_field: &PersonSort) -> (s: i8)
    ensures
        s == person_order(*a, *b, *sort_field),
{
    sign_of(compare_persons(a, b, sort_field))
}

} // verus!
