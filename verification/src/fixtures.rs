//! Demonstration data for a fresh store.

pub mod candidate_list;
pub mod political_groups;
