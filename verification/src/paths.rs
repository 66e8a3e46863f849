//! The paths of the political group's pages.

use vstd::prelude::*;

use crate::ids::{uuid_hyphenated, SubstituteSubmitterId};
use crate::political_group::SubstituteSubmitter;
use crate::strings::join3;

verus! {

/// The page that edits the political group.
#[derive(Debug)]
pub struct PoliticalGroupEditPath;

/// The page that lists the substitute submitters.
#[derive(Debug)]
pub struct SubstituteSubmittersPath;

/// The page that adds a substitute submitter.
#[derive(Debug)]
pub struct SubstituteSubmitterNewPath;

/// The page that edits a substitute submitter.
#[derive(Debug)]
pub struct SubstituteSubmitterEditPath {
    pub sub_submitter_id: SubstituteSubmitterId,
}

/// The page that deletes a substitute submitter.
#[derive(Debug)]
pub struct SubstituteSubmitterDeletePath {
    pub sub_submitter_id: SubstituteSubmitterId,
}

impl PoliticalGroupEditPath {
    /// The path.
    pub fn to_path(&self) -> (s: String)
        ensures
            s@ == "/political-group"@,
    {
        String::from_str("/political-group")
    }
}

impl SubstituteSubmittersPath {
    /// The path.
    pub fn to_path(&self) -> (s: String)
        ensures
            s@ == "/political-group/substitute-submitters"@,
    {
        String::from_str("/political-group/substitute-submitters")
    }
}

impl SubstituteSubmitterNewPath {
    /// The path.
    pub fn to_path(&self) -> (s: String)
        ensures
            s@ == "/political-group/substitute-submitters/new"@,
    {
        String::from_str("/political-group/substitute-submitters/new")
    }
}

impl SubstituteSubmitterEditPath {
    /// The path, with the submitter's identifier in its hyphenated form.
    pub fn to_path(&self) -> (s: String)
        ensures
            s@ == "/political-group/substitute-submitters/"@ + uuid_hyphenated(self.sub_submitter_id.0) + "/edit"@,
    {
        let id = self.sub_submitter_id.to_text();
        join3("/political-group/substitute-submitters/", id.as_str(), "/edit")
    }
}

impl SubstituteSubmitterDeletePath {
    /// The path, with the submitter's identifier in its hyphenated form.
    pub fn to_path(&self) -> (s: String)
        ensures
            s@ == "/political-group/substitute-submitters/"@ + uuid_hyphenated(self.sub_submitter_id.0) + "/delete"@,
    {
        let id = self.sub_submitter_id.to_text();
        join3("/political-group/substitute-submitters/", id.as_str(), "/delete")
    }
}

impl SubstituteSubmitter {
    /// The path of the page that lists the substitute submitters.
    pub fn list_path() -> (s: String)
        ensures
            s@ == "/political-group/substitute-submitters"@,
    {
        SubstituteSubmittersPath.to_path()
    }

    /// The path of the page that adds a substitute submitter.
    pub fn new_path() -> (s: String)
        ensures
            s@ == "/political-group/substitute-submitters/new"@,
    {
        SubstituteSubmitterNewPath.to_path()
    }

    /// The path of the page that edits this substitute submitter.
    pub fn edit_path(&self) -> (s: String)
        ensures
            s@ == "/political-group/substitute-submitters/"@ + uuid_hyphenated(self.id.0) + "/edit"@,
    {
        SubstituteSubmitterEditPath { sub_submitter_id: self.id }.to_path()
    }

    /// The path of the page that deletes this substitute submitter.
    pub fn delete_path(&self) -> (s: String)
        ensures
            s@ == "/political-group/substitute-submitters/"@ + uuid_hyphenated(self.id.0) + "/delete"@,
    {
        SubstituteSubmitterDeletePath { sub_submitter_id: self.id }.to_path()
    }
}

} // verus!
