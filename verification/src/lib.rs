//! Candidate-list administration for a political group: an event-sourced
//! in-memory store of persons, candidate lists and the group's representatives,
//! together with the rules that read and change it.

pub mod candidate_list;
pub mod candidate_lists;
pub mod candidate_pages;
pub mod config;
pub mod crypto;
pub mod district;
pub mod error;
pub mod fixtures;
pub mod ids;
pub mod initial_edit;
pub mod laws;
pub mod person;
pub mod person_pages;
pub mod persons;
pub mod paths;
pub mod political_group;
pub mod political_groups;
pub mod store;
pub mod sorting;
pub mod stream;
pub mod strings;
pub mod table;
pub mod time;

pub use error::AppError;
pub use ids::{
    AuthorisedAgentId, CandidateListId, ListSubmitterId, PersonId, PoliticalGroupId,
    SubstituteSubmitterId,
};
pub use time::Timestamp;
