//! The demonstration political group with two authorised agents and two list submitters.

use vstd::prelude::*;
use vstd::utf8::encode_utf8;

use crate::error::AppError;
use crate::ids::{uuid_v5_oid, AuthorisedAgentId, ListSubmitterId, PoliticalGroupId};
use crate::political_group::{AuthorisedAgent, ListSubmitter, PoliticalGroup};
use crate::store::AppStore;
use crate::strings::opt_view;
use crate::table::map_of;
use crate::time::Timestamp;

verus! {

/// The demonstration group: the version-5 identifier of `fixture_political_group`, the
/// legal name "Kiesraad Demo Partij", the display name "Kiesraad Demo", nothing else
/// recorded, created and updated at the same instant.
pub open spec fn is_fixture_group(g: PoliticalGroup) -> bool {
    &&& g.id.0 == uuid_v5_oid(encode_utf8("fixture_political_group"@))
    &&& g.long_list_allowed is None
    &&& opt_view(g.legal_name) == Some("Kiesraad Demo Partij"@)
    &&& opt_view(g.display_name) == Some("Kiesraad Demo"@)
    &&& g.legal_name_confirmed is None
    &&& g.display_name_confirmed is None
    &&& g.authorised_agent_id is None
    &&& g.list_submitter_id is None
    &&& g.updated_at == g.created_at
}

/// An authorised agent with the version-5 identifier of `name` and these details,
/// created and updated at the same instant.
pub open spec fn is_fixture_agent(
    a: AuthorisedAgent,
    name: Seq<char>,
    last_name: Seq<char>,
    prefix: Option<Seq<char>>,
    initials: Seq<char>,
) -> bool {
    &&& a.id.0 == uuid_v5_oid(encode_utf8(name))
    &&& a.last_name@ == last_name
    &&& opt_view(a.last_name_prefix) == prefix
    &&& a.initials@ == initials
    &&& a.updated_at == a.created_at
}

/// The first demonstration agent: A.B. de Jansen.
pub open spec fn is_fixture_agent_1(a: AuthorisedAgent) -> bool {
    is_fixture_agent(a, "fixture_authorised_agent_1"@, "Jansen"@, Some("de"@), "A.B."@)
}

/// The second demonstration agent: C.D. Visser.
pub open spec fn is_fixture_agent_2(a: AuthorisedAgent) -> bool {
    is_fixture_agent(a, "fixture_authorised_agent_2"@, "Visser"@, None, "C.D."@)
}

/// The first demonstration list submitter: E.F. Bos, Coolsingel 5 B, 3011 CC Rotterdam.
pub open spec fn is_fixture_submitter_1(s: ListSubmitter) -> bool {
    &&& s.id.0 == uuid_v5_oid(encode_utf8("fixture_list_submitter_1"@))
    &&& s.last_name@ == "Bos"@
    &&& s.last_name_prefix is None
    &&& s.initials@ == "E.F."@
    &&& opt_view(s.locality) == Some("Rotterdam"@)
    &&& opt_view(s.postal_code) == Some("3011 CC"@)
    &&& opt_view(s.house_number) == Some("5"@)
    &&& opt_view(s.house_number_addition) == Some("B"@)
    &&& opt_view(s.street_name) == Some("Coolsingel"@)
    &&& s.updated_at == s.created_at
}

/// The second demonstration list submitter: G.H. van Smit, Spui 18, 2511 DD Den Haag.
pub open spec fn is_fixture_submitter_2(s: ListSubmitter) -> bool {
    &&& s.id.0 == uuid_v5_oid(encode_utf8("fixture_list_submitter_2"@))
    &&& s.last_name@ == "Smit"@
    &&& opt_view(s.last_name_prefix) == Some("van"@)
    &&& s.initials@ == "G.H."@
    &&& opt_view(s.locality) == Some("Den Haag"@)
    &&& opt_view(s.postal_code) == Some("2511 DD"@)
    &&& opt_view(s.house_number) == Some("18"@)
    &&& s.house_number_addition is None
    &&& opt_view(s.street_name) == Some("Spui"@)
    &&& s.updated_at == s.created_at
}

/// Makes the demonstration group the store's political group and records its two
/// authorised agents and two list submitters, each created now; nothing else changes.
#[verifier::rlimit(100)]
pub fn load(store: &mut AppStore) -> (r: Result<(), AppError>)
    requires
        old(store).wf(),
    ensures
        r is Ok,
        final(store).wf(),
        is_fixture_group(final(store).state().political_group),
        exists|a1: AuthorisedAgent, a2: AuthorisedAgent|
            #![trigger is_fixture_agent_1(a1), is_fixture_agent_2(a2)]
            is_fixture_agent_1(a1) && is_fixture_agent_2(a2)
                && final(store).agent_map() == old(store).agent_map().insert(a1.id.0, a1).insert(a2.id.0, a2),
        exists|s1: ListSubmitter, s2: ListSubmitter|
            #![trigger is_fixture_submitter_1(s1), is_fixture_submitter_2(s2)]
            is_fixture_submitter_1(s1) && is_fixture_submitter_2(s2)
                && final(store).submitter_map() == old(store).submitter_map().insert(s1.id.0, s1).insert(s2.id.0, s2),
        final(store).state().persons == old(store).state().persons,
        final(store).state().candidate_lists == old(store).state().candidate_lists,
        final(store).state().substitute_submitters == old(store).state().substitute_submitters,
        final(store).state().last_event_id == old(store).state().last_event_id,
{
    let political_group_id = PoliticalGroupId::from_name("fixture_political_group".as_bytes());
    let agent_1_id = AuthorisedAgentId::from_name("fixture_authorised_agent_1".as_bytes());
    let agent_2_id = AuthorisedAgentId::from_name("fixture_authorised_agent_2".as_bytes());
    let submitter_1_id = ListSubmitterId::from_name("fixture_list_submitter_1".as_bytes());
    let submitter_2_id = ListSubmitterId::from_name("fixture_list_submitter_2".as_bytes());

    let political_group = PoliticalGroup {
        id: political_group_id,
        long_list_allowed: None,
        legal_name: Some(String::from_str("Kiesraad Demo Partij")),
        display_name: Some(String::from_str("Kiesraad Demo")),
        legal_name_confirmed: None,
        display_name_confirmed: None,
        authorised_agent_id: None,
        list_submitter_id: None,
        created_at: Timestamp::now(),
        updated_at: Timestamp::now(),
    };
    let _political_group = political_group.create(store)?;

    let agent_1 = AuthorisedAgent {
        id: agent_1_id,
        last_name: String::from_str("Jansen"),
        last_name_prefix: Some(String::from_str("de")),
        initials: String::from_str("A.B."),
        created_at: Timestamp::now(),
        updated_at: Timestamp::now(),
    };
    let a1 = agent_1.create(store, political_group_id)?;

    let agent_2 = AuthorisedAgent {
        id: agent_2_id,
        last_name: String::from_str("Visser"),
        last_name_prefix: None,
        initials: String::from_str("C.D."),
        created_at: Timestamp::now(),
        updated_at: Timestamp::now(),
    };
    let a2 = agent_2.create(store, political_group_id)?;
    let ghost s3 = store.state();

    let submitter_1 = ListSubmitter {
        id: submitter_1_id,
        last_name: String::from_str("Bos"),
        last_name_prefix: None,
        initials: String::from_str("E.F."),
        locality: Some(String::from_str("Rotterdam")),
        postal_code: Some(String::from_str("3011 CC")),
        house_number: Some(String::from_str("5")),
        house_number_addition: Some(String::from_str("B")),
        street_name: Some(String::from_str("Coolsingel")),
        created_at: Timestamp::now(),
        updated_at: Timestamp::now(),
    };
    let l1 = submitter_1.create(store, political_group_id)?;

    let submitter_2 = ListSubmitter {
        id: submitter_2_id,
        last_name: String::from_str("Smit"),
        last_name_prefix: Some(String::from_str("van")),
        initials: String::from_str("G.H."),
        locality: Some(String::from_str("Den Haag")),
        postal_code: Some(String::from_str("2511 DD")),
        house_number: Some(String::from_str("18")),
        house_number_addition: None,
        street_name: Some(String::from_str("Spui")),
        created_at: Timestamp::now(),
        updated_at: Timestamp::now(),
    };
    let l2 = submitter_2.create(store, political_group_id)?;
    proof {
        assert(is_fixture_agent_1(a1));
        assert(is_fixture_agent_2(a2));
        assert(is_fixture_submitter_1(l1));
        assert(is_fixture_submitter_2(l2));
        assert(store.agent_map() == map_of::<AuthorisedAgent>(s3.authorised_agents));
        assert(map_of::<ListSubmitter>(s3.list_submitters) == old(store).submitter_map());
    }
    Ok(())
}

} // verus!
