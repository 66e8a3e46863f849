//! Persons who can stand as candidates.

use vstd::prelude::*;

use crate::ids::PersonId;
use crate::strings::{copy_opt_text, join3, same_text};
use crate::table::Keyed;
use crate::time::Timestamp;

verus! {

/// A person's gender as recorded.
#[derive(Clone, Copy, Debug, PartialEq, Eq, Structural)]
pub enum Gender {
    Male,
    Female,
}

/// A calendar date.
#[derive(Clone, Copy, Debug, PartialEq, Eq, Structural)]
pub struct BirthDate {
    pub year: i32,
    pub month: u32,
    pub day: u32,
}

/// A person: personal details and address.
#[derive(Debug)]
pub struct Person {
    pub id: PersonId,
    pub last_name: String,
    pub last_name_prefix: Option<String>,
    pub initials: String,
    pub first_name: Option<String>,
    pub bsn: Option<String>,
    pub place_of_residence: Option<String>,
    pub country_of_residence: Option<String>,
    pub gender: Option<Gender>,
    pub date_of_birth: Option<BirthDate>,
    pub locality: Option<String>,
    pub postal_code: Option<String>,
    pub house_number: Option<String>,
    pub house_number_addition: Option<String>,
    pub street_name: Option<String>,
    pub created_at: Timestamp,
    pub updated_at: Timestamp,
}

impl Clone for Person {
    fn clone(&self) -> (r: Self)
        ensures
            r == *self,
    {
        Person {
            id: self.id,
            last_name: self.last_name.clone(),
            last_name_prefix: copy_opt_text(&self.last_name_prefix),
            initials: self.initials.clone(),
            first_name: copy_opt_text(&self.first_name),
            bsn: copy_opt_text(&self.bsn),
            place_of_residence: copy_opt_text(&self.place_of_residence),
            country_of_residence: copy_opt_text(&self.country_of_residence),
            gender: self.gender,
            date_of_birth: self.date_of_birth,
            locality: copy_opt_text(&self.locality),
            postal_code: copy_opt_text(&self.postal_code),
            house_number: copy_opt_text(&self.house_number),
            house_number_addition: copy_opt_text(&self.house_number_addition),
            street_name: copy_opt_text(&self.street_name),
            created_at: self.created_at,
            updated_at: self.updated_at,
        }
    }
}

impl View for Person {
    type V = Person;

    open spec fn view(&self) -> Person {
        *self
    }
}

impl Keyed for Person {
    open spec fn key_of(v: Person) -> u128 {
        v.id.0
    }

    fn get_key(&self) -> (k: u128) {
        self.id.0
    }

    fn duplicate(&self) -> (r: Self) {
        self.clone()
    }
}

/// The last name with its prefix in front when there is one, e.g. "van Dijk".
pub open spec fn name_with_prefix(last_name: Seq<char>, prefix: Option<String>) -> Seq<char> {
    match prefix {
        Some(p) => p@ + " "@ + last_name,
        None => last_name,
    }
}

/// Builds `name_with_prefix` from the parts.
pub fn format_name_with_prefix(last_name: &String, prefix: &Option<String>) -> (s: String)
    ensures
        s@ == name_with_prefix(last_name@, *prefix),
{
    match prefix {
        Some(p) => join3(p.as_str(), " ", last_name.as_str()),
        None => last_name.clone(),
    }
}

impl Person {
    /// Returns e.g. "van Dijk": the prefix, a space and the last name, or the last name alone.
    /// The person `p` with update time `t`.
    pub open spec fn with_update_time(p: Person, t: Timestamp) -> Person {
        Person { updated_at: t, ..p }
    }

    /// The person `p` with creation time `c` and update time `u`.
    pub open spec fn with_times(p: Person, c: Timestamp, u: Timestamp) -> Person {
        Person { created_at: c, updated_at: u, ..p }
    }

    pub fn last_name_with_prefix(&self) -> (s: String)
        ensures
            s@ == name_with_prefix(self.last_name@, self.last_name_prefix),
    {
        format_name_with_prefix(&self.last_name, &self.last_name_prefix)
    }

    /// Returns e.g. "Dijk, van": the last name, a comma, a space and the prefix, or the
    /// last name alone.
    pub fn last_name_with_prefix_appended(&self) -> (s: String)
        ensures
            s@ == match self.last_name_prefix {
                Some(p) => self.last_name@ + ", "@ + p@,
                None => self.last_name@,
            },
    {
        match &self.last_name_prefix {
            Some(p) => join3(self.last_name.as_str(), ", ", p.as_str()),
            None => self.last_name.clone(),
        }
    }

    /// The first name (or the initials when there is none), a space, and the last name
    /// with its prefix.
    pub fn display_name(&self) -> (s: String)
        ensures
            s@ == match self.first_name {
                Some(f) => f@,
                None => self.initials@,
            } + " "@ + name_with_prefix(self.last_name@, self.last_name_prefix),
    {
        let last = self.last_name_with_prefix();
        match &self.first_name {
            Some(f) => join3(f.as_str(), " ", last.as_str()),
            None => join3(self.initials.as_str(), " ", last.as_str()),
        }
    }

    /// The first name, or the empty text when there is none.
    pub fn first_name_display(&self) -> (s: String)
        ensures
            s@ == match self.first_name {
                Some(f) => f@,
                None => Seq::<char>::empty(),
            },
    {
        match &self.first_name {
            Some(f) => f.clone(),
            None => String::new(),
        }
    }

    /// Whether the person lives in the Netherlands: the country of residence is "NL",
    /// or no country is recorded.
    pub fn is_dutch(&self) -> (b: bool)
        ensures
            b == match self.country_of_residence {
                Some(c) => c@ == "NL"@,
                None => true,
            },
    {
        match &self.country_of_residence {
            Some(country) => same_text(country.as_str(), "NL"),
            None => true,
        }
    }

    /// The translation key of the recorded gender, or the empty text.
    pub fn gender_key(&self) -> (k: &'static str)
        ensures
            k@ == match self.gender {
                Some(Gender::Male) => "gender.male"@,
                Some(Gender::Female) => "gender.female"@,
                None => ""@,
            },
    {
        match self.gender {
            Some(Gender::Male) => "gender.male",
            Some(Gender::Female) => "gender.female",
            None => "",
        }
    }

    /// Initials and last name are non-empty, and date of birth, BSN, place and country
    /// of residence are recorded.
    pub fn is_personal_info_complete(&self) -> (b: bool)
        ensures
            b == (self.initials@.len() > 0 && self.last_name@.len() > 0
                && self.date_of_birth is Some && self.bsn is Some
                && self.place_of_residence is Some && self.country_of_residence is Some),
    {
        !self.initials.as_str().is_empty() && !self.last_name.as_str().is_empty()
            && self.date_of_birth.is_some() && self.bsn.is_some()
            && self.place_of_residence.is_some() && self.country_of_residence.is_some()
    }

    /// Street name, house number, postal code and locality are recorded.
    pub fn is_address_complete(&self) -> (b: bool)
        ensures
            b == (self.street_name is Some && self.house_number is Some
                && self.postal_code is Some && self.locality is Some),
    {
        self.street_name.is_some() && self.house_number.is_some() && self.postal_code.is_some()
            && self.locality.is_some()
    }

    /// Both the personal details and the address are complete.
    pub fn is_complete(&self) -> (b: bool)
        ensures
            b == (self.initials@.len() > 0 && self.last_name@.len() > 0
                && self.date_of_birth is Some && self.bsn is Some
                && self.place_of_residence is Some && self.country_of_residence is Some
                && self.street_name is Some && self.house_number is Some
                && self.postal_code is Some && self.locality is Some),
    {
        self.is_personal_info_complete() && self.is_address_complete()
    }
}

} // verus!
