//! Electoral districts and the elections that use them.

use vstd::prelude::*;

verus! {

/// An electoral district: one of the twelve provinces.
#[derive(Clone, Copy, Debug, PartialEq, Eq, Structural, PartialOrd, Ord, Hash)]
pub enum ElectoralDistrict {
    DR,
    FL,
    FR,
    GE,
    GR,
    LI,
    NB,
    NH,
    OV,
    UT,
    ZE,
    ZH,
}

/// The district's place in the order of the enumeration.
pub open spec fn district_rank(d: ElectoralDistrict) -> int {
    match d {
        ElectoralDistrict::DR => 0,
        ElectoralDistrict::FL => 1,
        ElectoralDistrict::FR => 2,
        ElectoralDistrict::GE => 3,
        ElectoralDistrict::GR => 4,
        ElectoralDistrict::LI => 5,
        ElectoralDistrict::NB => 6,
        ElectoralDistrict::NH => 7,
        ElectoralDistrict::OV => 8,
        ElectoralDistrict::UT => 9,
        ElectoralDistrict::ZE => 10,
        ElectoralDistrict::ZH => 11,
    }
}

/// The district's name.
pub open spec fn district_title(d: ElectoralDistrict) -> Seq<char> {
    match d {
        ElectoralDistrict::DR => "Drenthe"@,
        ElectoralDistrict::FL => "Flevoland"@,
        ElectoralDistrict::FR => "Fryslân"@,
        ElectoralDistrict::GE => "Gelderland"@,
        ElectoralDistrict::GR => "Groningen"@,
        ElectoralDistrict::LI => "Limburg"@,
        ElectoralDistrict::NB => "Noord-Brabant"@,
        ElectoralDistrict::NH => "Noord-Holland"@,
        ElectoralDistrict::OV => "Overijssel"@,
        ElectoralDistrict::UT => "Utrecht"@,
        ElectoralDistrict::ZE => "Zeeland"@,
        ElectoralDistrict::ZH => "Zuid-Holland"@,
    }
}

/// All districts in the order of the enumeration.
pub open spec fn all_districts() -> Seq<ElectoralDistrict> {
    seq![
        ElectoralDistrict::DR,
        ElectoralDistrict::FL,
        ElectoralDistrict::FR,
        ElectoralDistrict::GE,
        ElectoralDistrict::GR,
        ElectoralDistrict::LI,
        ElectoralDistrict::NB,
        ElectoralDistrict::NH,
        ElectoralDistrict::OV,
        ElectoralDistrict::UT,
        ElectoralDistrict::ZE,
        ElectoralDistrict::ZH,
    ]
}

/// Every district occurs in `all_districts`, at the position of its rank.
pub proof fn lemma_all_districts(d: ElectoralDistrict)
    ensures
        0 <= district_rank(d) < all_districts().len(),
        all_districts()[district_rank(d)] == d,
        all_districts().len() == 12,
{
}

impl ElectoralDistrict {
    /// The district's name, e.g. "Utrecht".
    pub fn title(&self) -> (s: &'static str)
        ensures
            s@ == district_title(*self),
    {
        match self {
            ElectoralDistrict::DR => "Drenthe",
            ElectoralDistrict::FL => "Flevoland",
            ElectoralDistrict::FR => "Fryslân",
            ElectoralDistrict::GE => "Gelderland",
            ElectoralDistrict::GR => "Groningen",
            ElectoralDistrict::LI => "Limburg",
            ElectoralDistrict::NB => "Noord-Brabant",
            ElectoralDistrict::NH => "Noord-Holland",
            ElectoralDistrict::OV => "Overijssel",
            ElectoralDistrict::UT => "Utrecht",
            ElectoralDistrict::ZE => "Zeeland",
            ElectoralDistrict::ZH => "Zuid-Holland",
        }
    }

    /// The district's place in the order of the enumeration.
    pub fn rank(&self) -> (r: u8)
        ensures
            r as int == district_rank(*self),
    {
        match self {
            ElectoralDistrict::DR => 0,
            ElectoralDistrict::FL => 1,
            ElectoralDistrict::FR => 2,
            ElectoralDistrict::GE => 3,
            ElectoralDistrict::GR => 4,
            ElectoralDistrict::LI => 5,
            ElectoralDistrict::NB => 6,
            ElectoralDistrict::NH => 7,
            ElectoralDistrict::OV => 8,
            ElectoralDistrict::UT => 9,
            ElectoralDistrict::ZE => 10,
            ElectoralDistrict::ZH => 11,
        }
    }

    /// All districts in the order of the enumeration.
    pub fn all() -> (v: Vec<ElectoralDistrict>)
        ensures
            v@ == all_districts(),
    {
        let v = vec![
            ElectoralDistrict::DR,
            ElectoralDistrict::FL,
            ElectoralDistrict::FR,
            ElectoralDistrict::GE,
            ElectoralDistrict::GR,
            ElectoralDistrict::LI,
            ElectoralDistrict::NB,
            ElectoralDistrict::NH,
            ElectoralDistrict::OV,
            ElectoralDistrict::UT,
            ElectoralDistrict::ZE,
            ElectoralDistrict::ZH,
        ];
        assert(v@ =~= all_districts());
        v
    }
}

/// An election for which candidate lists are drawn up.
#[derive(Clone, Copy, Debug, PartialEq, Eq, Structural)]
pub enum ElectionConfig {
    /// The 2027 election of the Eerste Kamer, contested in every province.
    EK2027,
}

impl ElectionConfig {
    /// The districts in which the election is held.
    pub fn electoral_districts(&self) -> (v: Vec<ElectoralDistrict>)
        ensures
            v@ == all_districts(),
    {
        ElectoralDistrict::all()
    }
}

} // verus!
