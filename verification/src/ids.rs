use vstd::prelude::*;

verus! {

/// A name for the 128-bit value of the version-5 UUID that the `uuid` crate derives
/// from the OID namespace and `name`.
pub uninterp spec fn uuid_v5_oid(name: Seq<u8>) -> u128;

/// The lower-case hexadecimal digit for `n` (below 16).
pub open spec fn hex_digit(n: u128) -> char {
    if n < 10 {
        (48 + n) as char
    } else {
        (87 + n) as char
    }
}

/// The hexadecimal digit of `value` at position `k`, the most significant first.
pub open spec fn nibble(value: u128, k: int) -> u128 {
    (value >> ((124 - 4 * k) as u128)) & 0xfu128
}

/// The hyphenated form of the UUID whose 128-bit value is `value`: its 32 lower-case
/// hexadecimal digits, most significant first, in groups of 8, 4, 4, 4 and 12 joined by
/// hyphens.
pub open spec fn uuid_hyphenated(value: u128) -> Seq<char> {
    Seq::new(36, |i: int|
        if i == 8 || i == 13 || i == 18 || i == 23 {
            '-'
        } else {
            let hyphens_before: int = if i > 23 { 4 } else if i > 18 { 3 } else if i > 13 { 2 } else if i > 8 { 1 } else { 0 };
            hex_digit(nibble(value, i - hyphens_before))
        }
    )
}

/// Calls `uuid::Uuid::new_v4`. The value is random; the crate's builder always sets
/// the version nibble to 4 and the variant bits to `10`, and that is all that is claimed.
#[verifier::external_body]
fn random_uuid() -> (value: u128)
    ensures
        (value >> 76u128) & 0xfu128 == 4u128,
        (value >> 62u128) & 0x3u128 == 2u128,
{
    uuid::Uuid::new_v4().as_u128()
}

/// Calls `uuid::Uuid::new_v5` with `uuid::Uuid::NAMESPACE_OID`; the result is a
/// function of `name` alone, named `uuid_v5_oid`.
#[verifier::external_body]
fn name_based_uuid(name: &[u8]) -> (value: u128)
    ensures
        value == uuid_v5_oid(name@),
{
    uuid::Uuid::new_v5(&uuid::Uuid::NAMESPACE_OID, name).as_u128()
}

/// Calls the `Display` impl of `uuid::Uuid` (via `to_string`), which writes the
/// hyphenated lower-case form `uuid_hyphenated`.
#[verifier::external_body]
fn uuid_text(value: u128) -> (text: String)
    ensures
        text@ == uuid_hyphenated(value),
{
    uuid::Uuid::from_u128(value).to_string()
}

/// Identifies a person.
#[derive(Clone, Copy, Debug, PartialEq, Eq, Structural, Hash, PartialOrd, Ord)]
pub struct PersonId(pub u128);

/// Identifies a candidate list.
#[derive(Clone, Copy, Debug, PartialEq, Eq, Structural, Hash, PartialOrd, Ord)]
pub struct CandidateListId(pub u128);

/// Identifies the political group.
#[derive(Clone, Copy, Debug, PartialEq, Eq, Structural, Hash, PartialOrd, Ord)]
pub struct PoliticalGroupId(pub u128);

/// Identifies an authorised agent of the political group.
#[derive(Clone, Copy, Debug, PartialEq, Eq, Structural, Hash, PartialOrd, Ord)]
pub struct AuthorisedAgentId(pub u128);

/// Identifies a list submitter.
#[derive(Clone, Copy, Debug, PartialEq, Eq, Structural, Hash, PartialOrd, Ord)]
pub struct ListSubmitterId(pub u128);

/// Identifies a substitute list submitter.
#[derive(Clone, Copy, Debug, PartialEq, Eq, Structural, Hash, PartialOrd, Ord)]
pub struct SubstituteSubmitterId(pub u128);

impl PersonId {
    /// A fresh random identifier: a version-4 UUID (variant bits `10`).
    pub fn new() -> (id: Self)
        ensures
            (id.0 >> 76u128) & 0xfu128 == 4u128,
            (id.0 >> 62u128) & 0x3u128 == 2u128,
    {
        PersonId(random_uuid())
    }

    /// The identifier in its hyphenated text form.
    pub fn to_text(&self) -> (s: String)
        ensures
            s@ == uuid_hyphenated(self.0),
    {
        uuid_text(self.0)
    }
}

impl CandidateListId {
    /// A fresh random identifier: a version-4 UUID (variant bits `10`).
    pub fn new() -> (id: Self)
        ensures
            (id.0 >> 76u128) & 0xfu128 == 4u128,
            (id.0 >> 62u128) & 0x3u128 == 2u128,
    {
        CandidateListId(random_uuid())
    }

    /// The version-5 identifier derived from `name` in the OID namespace.
    pub fn from_name(name: &[u8]) -> (id: Self)
        ensures
            id.0 == uuid_v5_oid(name@),
    {
        CandidateListId(name_based_uuid(name))
    }

    /// The identifier in its hyphenated text form.
    pub fn to_text(&self) -> (s: String)
        ensures
            s@ == uuid_hyphenated(self.0),
    {
        uuid_text(self.0)
    }
}

impl PoliticalGroupId {
    /// A fresh random identifier: a version-4 UUID (variant bits `10`).
    pub fn new() -> (id: Self)
        ensures
            (id.0 >> 76u128) & 0xfu128 == 4u128,
            (id.0 >> 62u128) & 0x3u128 == 2u128,
    {
        PoliticalGroupId(random_uuid())
    }

    /// The version-5 identifier derived from `name` in the OID namespace.
    pub fn from_name(name: &[u8]) -> (id: Self)
        ensures
            id.0 == uuid_v5_oid(name@),
    {
        PoliticalGroupId(name_based_uuid(name))
    }
}

impl AuthorisedAgentId {
    /// A fresh random identifier: a version-4 UUID (variant bits `10`).
    pub fn new() -> (id: Self)
        ensures
            (id.0 >> 76u128) & 0xfu128 == 4u128,
            (id.0 >> 62u128) & 0x3u128 == 2u128,
    {
        AuthorisedAgentId(random_uuid())
    }

    /// The version-5 identifier derived from `name` in the OID namespace.
    pub fn from_name(name: &[u8]) -> (id: Self)
        ensures
            id.0 == uuid_v5_oid(name@),
    {
        AuthorisedAgentId(name_based_uuid(name))
    }

    /// The identifier in its hyphenated text form.
    pub fn to_text(&self) -> (s: String)
        ensures
            s@ == uuid_hyphenated(self.0),
    {
        uuid_text(self.0)
    }
}

impl ListSubmitterId {
    /// A fresh random identifier: a version-4 UUID (variant bits `10`).
    pub fn new() -> (id: Self)
        ensures
            (id.0 >> 76u128) & 0xfu128 == 4u128,
            (id.0 >> 62u128) & 0x3u128 == 2u128,
    {
        ListSubmitterId(random_uuid())
    }

    /// The version-5 identifier derived from `name` in the OID namespace.
    pub fn from_name(name: &[u8]) -> (id: Self)
        ensures
            id.0 == uuid_v5_oid(name@),
    {
        ListSubmitterId(name_based_uuid(name))
    }

    /// The identifier in its hyphenated text form.
    pub fn to_text(&self) -> (s: String)
        ensures
            s@ == uuid_hyphenated(self.0),
    {
        uuid_text(self.0)
    }
}

impl SubstituteSubmitterId {
    /// A fresh random identifier: a version-4 UUID (variant bits `10`).
    pub fn new() -> (id: Self)
        ensures
            (id.0 >> 76u128) & 0xfu128 == 4u128,
            (id.0 >> 62u128) & 0x3u128 == 2u128,
    {
        SubstituteSubmitterId(random_uuid())
    }

    /// The identifier in its hyphenated text form.
    pub fn to_text(&self) -> (s: String)
        ensures
            s@ == uuid_hyphenated(self.0),
    {
        uuid_text(self.0)
    }
}

} // verus!
