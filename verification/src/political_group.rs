//! The political group and the people who act for it.

use vstd::prelude::*;

use crate::ids::{AuthorisedAgentId, ListSubmitterId, PoliticalGroupId, SubstituteSubmitterId};
use crate::person::{format_name_with_prefix, name_with_prefix};
use crate::strings::copy_opt_text;
use crate::table::Keyed;
use crate::time::Timestamp;

verus! {

/// The political group that submits candidate lists.
#[derive(Debug)]
pub struct PoliticalGroup {
    pub id: PoliticalGroupId,
    pub long_list_allowed: Option<bool>,
    pub legal_name: Option<String>,
    pub display_name: Option<String>,
    pub legal_name_confirmed: Option<bool>,
    pub display_name_confirmed: Option<bool>,
    pub authorised_agent_id: Option<AuthorisedAgentId>,
    pub list_submitter_id: Option<ListSubmitterId>,
    pub created_at: Timestamp,
    pub updated_at: Timestamp,
}

/// An authorised agent of the political group.
#[derive(Debug)]
pub struct AuthorisedAgent {
    pub id: AuthorisedAgentId,
    pub last_name: String,
    pub last_name_prefix: Option<String>,
    pub initials: String,
    pub created_at: Timestamp,
    pub updated_at: Timestamp,
}

/// A person who may submit the group's candidate lists.
#[derive(Debug)]
pub struct ListSubmitter {
    pub id: ListSubmitterId,
    pub last_name: String,
    pub last_name_prefix: Option<String>,
    pub initials: String,
    pub locality: Option<String>,
    pub postal_code: Option<String>,
    pub house_number: Option<String>,
    pub house_number_addition: Option<String>,
    pub street_name: Option<String>,
    pub created_at: Timestamp,
    pub updated_at: Timestamp,
}

/// A person who may submit the group's candidate lists in place of a list submitter.
#[derive(Debug)]
pub struct SubstituteSubmitter {
    pub id: SubstituteSubmitterId,
    pub last_name: String,
    pub last_name_prefix: Option<String>,
    pub initials: String,
    pub locality: Option<String>,
    pub postal_code: Option<String>,
    pub house_number: Option<String>,
    pub house_number_addition: Option<String>,
    pub street_name: Option<String>,
    pub created_at: Timestamp,
    pub updated_at: Timestamp,
}

impl Clone for PoliticalGroup {
    fn clone(&self) -> (r: Self)
        ensures
            r == *self,
    {
        PoliticalGroup {
            id: self.id,
            long_list_allowed: self.long_list_allowed,
            legal_name: copy_opt_text(&self.legal_name),
            display_name: copy_opt_text(&self.display_name),
            legal_name_confirmed: self.legal_name_confirmed,
            display_name_confirmed: self.display_name_confirmed,
            authorised_agent_id: self.authorised_agent_id,
            list_submitter_id: self.list_submitter_id,
            created_at: self.created_at,
            updated_at: self.updated_at,
        }
    }
}

impl Clone for AuthorisedAgent {
    fn clone(&self) -> (r: Self)
        ensures
            r == *self,
    {
        AuthorisedAgent {
            id: self.id,
            last_name: self.last_name.clone(),
            last_name_prefix: copy_opt_text(&self.last_name_prefix),
            initials: self.initials.clone(),
            created_at: self.created_at,
            updated_at: self.updated_at,
        }
    }
}

impl Clone for ListSubmitter {
    fn clone(&self) -> (r: Self)
        ensures
            r == *self,
    {
        ListSubmitter {
            id: self.id,
            last_name: self.last_name.clone(),
            last_name_prefix: copy_opt_text(&self.last_name_prefix),
            initials: self.initials.clone(),
            locality: copy_opt_text(&self.locality),
            postal_code: copy_opt_text(&self.postal_code),
            house_number: copy_opt_text(&self.house_number),
            house_number_addition: copy_opt_text(&self.house_number_addition),
            street_name: copy_opt_text(&self.street_name),
            created_at: self.created_at,
            updated_at: self.updated_at,
        }
    }
}

impl Clone for SubstituteSubmitter {
    fn clone(&self) -> (r: Self)
        ensures
            r == *self,
    {
        SubstituteSubmitter {
            id: self.id,
            last_name: self.last_name.clone(),
            last_name_prefix: copy_opt_text(&self.last_name_prefix),
            initials: self.initials.clone(),
            locality: copy_opt_text(&self.locality),
            postal_code: copy_opt_text(&self.postal_code),
            house_number: copy_opt_text(&self.house_number),
            house_number_addition: copy_opt_text(&self.house_number_addition),
            street_name: copy_opt_text(&self.street_name),
            created_at: self.created_at,
            updated_at: self.updated_at,
        }
    }
}

impl View for AuthorisedAgent {
    type V = AuthorisedAgent;

    open spec fn view(&self) -> AuthorisedAgent {
        *self
    }
}

impl Keyed for AuthorisedAgent {
    open spec fn key_of(v: AuthorisedAgent) -> u128 {
        v.id.0
    }

    fn get_key(&self) -> (k: u128) {
        self.id.0
    }

    fn duplicate(&self) -> (r: Self) {
        self.clone()
    }
}

impl View for ListSubmitter {
    type V = ListSubmitter;

    open spec fn view(&self) -> ListSubmitter {
        *self
    }
}

impl Keyed for ListSubmitter {
    open spec fn key_of(v: ListSubmitter) -> u128 {
        v.id.0
    }

    fn get_key(&self) -> (k: u128) {
        self.id.0
    }

    fn duplicate(&self) -> (r: Self) {
        self.clone()
    }
}

impl View for SubstituteSubmitter {
    type V = SubstituteSubmitter;

    open spec fn view(&self) -> SubstituteSubmitter {
        *self
    }
}

impl Keyed for SubstituteSubmitter {
    open spec fn key_of(v: SubstituteSubmitter) -> u128 {
        v.id.0
    }

    fn get_key(&self) -> (k: u128) {
        self.id.0
    }

    fn duplicate(&self) -> (r: Self) {
        self.clone()
    }
}

/// The political group of a fresh store: the nil identifier, nothing recorded, and
/// both timestamps at the Unix epoch.
pub open spec fn blank_political_group() -> PoliticalGroup {
    PoliticalGroup {
        id: PoliticalGroupId(0),
        long_list_allowed: None,
        legal_name: None,
        display_name: None,
        legal_name_confirmed: None,
        display_name_confirmed: None,
        authorised_agent_id: None,
        list_submitter_id: None,
        created_at: Timestamp { secs: 0, nanos: 0 },
        updated_at: Timestamp { secs: 0, nanos: 0 },
    }
}

impl PoliticalGroup {
    /// The political group of a fresh store (see `blank_political_group`).
    pub fn blank() -> (g: Self)
        ensures
            g == blank_political_group(),
    {
        PoliticalGroup {
            id: PoliticalGroupId(0),
            long_list_allowed: None,
            legal_name: None,
            display_name: None,
            legal_name_confirmed: None,
            display_name_confirmed: None,
            authorised_agent_id: None,
            list_submitter_id: None,
            created_at: Timestamp::epoch(),
            updated_at: Timestamp::epoch(),
        }
    }

    /// The path of the page that edits the political group.
    pub fn edit_path() -> (s: String)
        ensures
            s@ == "/political-group"@,
    {
        String::from_str("/political-group")
    }
}

impl AuthorisedAgent {
    /// The prefix, a space and the last name, or the last name alone.
    pub fn last_name_with_prefix(&self) -> (s: String)
        ensures
            s@ == name_with_prefix(self.last_name@, self.last_name_prefix),
    {
        format_name_with_prefix(&self.last_name, &self.last_name_prefix)
    }
}

impl ListSubmitter {
    /// Street name, house number, postal code and locality are recorded.
    pub fn is_address_complete(&self) -> (b: bool)
        ensures
            b == (self.street_name is Some && self.house_number is Some
                && self.postal_code is Some && self.locality is Some),
    {
        self.street_name.is_some() && self.house_number.is_some() && self.postal_code.is_some()
            && self.locality.is_some()
    }

    /// The prefix, a space and the last name, or the last name alone.
    pub fn last_name_with_prefix(&self) -> (s: String)
        ensures
            s@ == name_with_prefix(self.last_name@, self.last_name_prefix),
    {
        format_name_with_prefix(&self.last_name, &self.last_name_prefix)
    }
}

impl SubstituteSubmitter {
    /// The prefix, a space and the last name, or the last name alone.
    pub fn last_name_with_prefix(&self) -> (s: String)
        ensures
            s@ == name_with_prefix(self.last_name@, self.last_name_prefix),
    {
        format_name_with_prefix(&self.last_name, &self.last_name_prefix)
    }

    /// Street name, house number, postal code and locality are recorded.
    pub fn is_address_complete(&self) -> (b: bool)
        ensures
            b == (self.street_name is Some && self.house_number is Some
                && self.postal_code is Some && self.locality is Some),
    {
        self.street_name.is_some() && self.house_number.is_some() && self.postal_code.is_some()
            && self.locality.is_some()
    }
}

} // verus!
