use kma_audio_agent::config::Config;
use kma_audio_agent::connection::{
    claim_status, claim_url, closed, connect_url, judge_claim, pairing_url, refused,
    resolve_server, socket_scheme, Address, Claim, ClaimStatus, ConnectError, Discovery,
    DiscoveryError, Ending, Next, Pairing, PairingClaimed, PairingCreated, PairingFailure,
    PairingReply, PairingRequest, PairingState, Supervisor,
};
use kma_audio_agent::credentials::Credentials;

fn address(text: &str, loopback: bool) -> Address {
    Address {
        text: text.to_owned(),
        loopback,
    }
}

#[test]
fn a_configured_server_comes_first() {
    let config = Config {
        server_url: Some("http://server:3000//".to_owned()),
        ..Config::default()
    };
    let discovery = Discovery::new();
    assert_eq!(
        resolve_server(&config, &discovery).unwrap(),
        "http://server:3000"
    );
}

#[test]
fn exactly_one_server_has_to_be_found() {
    let config = Config::default();
    let mut discovery = Discovery::new();
    assert_eq!(
        resolve_server(&config, &discovery),
        Err(DiscoveryError::NoServer)
    );
    discovery.found(&vec![address("127.0.0.1", true)], 80);
    discovery.found(&vec![], 80);
    assert_eq!(
        resolve_server(&config, &discovery),
        Err(DiscoveryError::NoServer)
    );
    let addresses = vec![
        address("127.0.0.1", true),
        address("192.168.1.5", false),
        address("10.0.0.1", false),
    ];
    discovery.found(&addresses, 8_080);
    discovery.found(&addresses, 8_080);
    assert_eq!(
        resolve_server(&config, &discovery).unwrap(),
        "http://192.168.1.5:8080"
    );
    discovery.found(&addresses, 8_081);
    assert_eq!(
        resolve_server(&config, &discovery),
        Err(DiscoveryError::ManyServers)
    );
    assert_eq!(
        DiscoveryError::NoServer.to_string(),
        "no _kma._tcp Server discovered"
    );
    assert_eq!(
        DiscoveryError::ManyServers.to_string(),
        "multiple _kma._tcp Servers discovered; configure server_url explicitly"
    );
}

#[test]
fn the_socket_is_as_secure_as_the_server() {
    assert_eq!(
        connect_url("http://server:3000").unwrap(),
        "ws://server:3000/api/v1/audio-agent/connect"
    );
    assert_eq!(
        connect_url("https://server/base?x=1").unwrap(),
        "wss://server/api/v1/audio-agent/connect?x=1"
    );
    assert!(matches!(
        connect_url("mailto:a@b"),
        Err(ConnectError::InvalidScheme)
    ));
    assert_eq!(
        connect_url("mailto:a@b").unwrap_err().to_string(),
        "invalid Server URL scheme"
    );
    assert_eq!(
        connect_url("server").unwrap_err().to_string(),
        "relative URL without a base"
    );
    assert_eq!(socket_scheme("https"), "wss");
    assert_eq!(socket_scheme("http"), "ws");
    assert_eq!(socket_scheme("ftp"), "ws");
}

#[test]
fn revocation_is_told_from_a_lost_connection() {
    assert_eq!(refused(401), Ending::Revoked);
    assert_eq!(refused(403), Ending::Revoked);
    assert_eq!(refused(402), Ending::Lost);
    assert_eq!(refused(500), Ending::Lost);
    assert_eq!(closed(&Some("token revoked".to_owned())), Ending::Revoked);
    assert_eq!(closed(&Some("Revoked".to_owned())), Ending::Lost);
    assert_eq!(closed(&None), Ending::Lost);
}

const SECOND: u64 = 1_000_000_000;

#[test]
fn playback_stops_once_the_grace_is_over() {
    let mut supervisor = Supervisor::new();
    let mut lost = |established, seconds: u64| {
        supervisor.on_ended(Ending::Lost, established, seconds * SECOND)
    };
    assert_eq!(lost(true, 10), Next::Reconnect { stop: false });
    assert_eq!(lost(false, 12), Next::Reconnect { stop: false });
    assert_eq!(lost(false, 13), Next::Reconnect { stop: true });
    assert_eq!(lost(false, 20), Next::Reconnect { stop: false });
    assert_eq!(lost(true, 30), Next::Reconnect { stop: false });
    assert_eq!(lost(false, 33), Next::Reconnect { stop: true });
}

#[test]
fn the_grace_runs_from_the_first_failure_where_no_connection_stood() {
    let mut supervisor = Supervisor::new();
    assert_eq!(
        supervisor.on_ended(Ending::Lost, false, 5 * SECOND),
        Next::Reconnect { stop: false }
    );
    assert_eq!(
        supervisor.on_ended(Ending::Lost, false, 8 * SECOND - 1),
        Next::Reconnect { stop: false }
    );
    assert_eq!(
        supervisor.on_ended(Ending::Lost, false, 8 * SECOND),
        Next::Reconnect { stop: true }
    );
}

#[test]
fn a_revoked_agent_is_paired_again() {
    let mut supervisor = Supervisor::new();
    assert_eq!(
        supervisor.on_ended(Ending::Revoked, true, 0),
        Next::PairAgain
    );
}

#[test]
fn a_pairing_request_names_a_new_agent() {
    let config = Config {
        agent_name: Some("stage".to_owned()),
        room_id: "room".to_owned(),
        ..Config::default()
    };
    let one = PairingRequest::new(&config);
    let other = PairingRequest::new(&config);
    assert_ne!(one.agent_id, other.agent_id);
    assert_eq!(one.agent_id >> 76 & 0xf, 4);
    assert_eq!(one.agent_id >> 62 & 0x3, 2);
    assert_eq!(one.agent_name, "stage");
    assert_eq!(one.room_id, "room");
}

#[test]
fn pairings_have_their_urls() {
    assert_eq!(
        pairing_url("http://s"),
        "http://s/api/v1/audio-agent/pairing"
    );
    assert_eq!(
        claim_url("http://s", "p-1"),
        "http://s/api/v1/audio-agent/pairing/p-1/claim"
    );
}

fn state() -> PairingState {
    PairingState {
        agent_id: 7,
        pairing_id: "pairing".to_owned(),
        code: "1234".to_owned(),
        expires_at: "soon".to_owned(),
    }
}

fn claimed(complete: bool, status: Option<&str>) -> PairingClaimed {
    PairingClaimed {
        agent_id: Some(7),
        room_id: Some("room".to_owned()),
        token: if complete {
            Some("token".to_owned())
        } else {
            None
        },
        status: status.map(|status| status.to_owned()),
    }
}

#[test]
fn claims_are_judged_by_their_answer() {
    match judge_claim(claimed(true, None)) {
        Claim::Paired(credentials) => {
            assert_eq!(credentials.agent_id, 7);
            assert_eq!(credentials.room_id, "room");
            assert_eq!(credentials.token, "token");
        }
        other => panic!("unexpected {other:?}"),
    }
    assert!(matches!(
        judge_claim(claimed(true, Some("pending"))),
        Claim::Paired(_)
    ));
    assert!(matches!(
        judge_claim(claimed(false, Some("pending"))),
        Claim::Pending
    ));
    assert!(matches!(
        judge_claim(claimed(false, Some("denied"))),
        Claim::Invalid
    ));
    assert!(matches!(judge_claim(claimed(false, None)), Claim::Invalid));
    assert_eq!(claim_status(200), ClaimStatus::Answered);
    assert_eq!(claim_status(202), ClaimStatus::Answered);
    assert_eq!(claim_status(199), ClaimStatus::Failed);
    assert_eq!(claim_status(300), ClaimStatus::Failed);
}

#[test]
fn a_new_agent_is_paired_step_by_step() {
    let pairing = Pairing::begin();
    assert!(matches!(pairing, Pairing::Load));
    let pairing = pairing.resume(PairingReply::Done);
    assert!(matches!(pairing, Pairing::Load));
    let pairing = pairing.resume(PairingReply::Loaded(None));
    assert!(matches!(pairing, Pairing::Read));
    let pairing = pairing.resume(PairingReply::Found(None));
    assert!(matches!(pairing, Pairing::Create));
    let created = PairingCreated {
        id: "pairing".to_owned(),
        code: "1234".to_owned(),
        expires_at: "soon".to_owned(),
    };
    let pairing = pairing.resume(PairingReply::Created {
        agent_id: 7,
        created,
    });
    assert!(matches!(&pairing, Pairing::Keep(state)
        if state.agent_id == 7 && state.pairing_id == "pairing" && state.code == "1234"));
    let pairing = pairing.resume(PairingReply::Done);
    assert!(matches!(pairing, Pairing::Claim(_)));
    let pairing = pairing.resume(PairingReply::Claimed(claimed(false, Some("pending"))));
    assert!(matches!(pairing, Pairing::Wait(_)));
    let pairing = pairing.resume(PairingReply::Done);
    assert!(matches!(&pairing, Pairing::Claim(state) if state.pairing_id == "pairing"));
    let pairing = pairing.resume(PairingReply::Claimed(claimed(true, None)));
    assert!(matches!(pairing, Pairing::Store(_)));
    let pairing = pairing.resume(PairingReply::Done);
    assert!(matches!(pairing, Pairing::Remove(_)));
    let pairing = pairing.resume(PairingReply::Done);
    assert!(matches!(&pairing, Pairing::Paired(credentials) if credentials.token == "token"));
}

#[test]
fn what_is_stored_is_used_again() {
    let credentials = Credentials {
        agent_id: 9,
        room_id: "room".to_owned(),
        token: "token".to_owned(),
    };
    assert!(matches!(
        Pairing::begin().resume(PairingReply::Loaded(Some(credentials))),
        Pairing::Paired(credentials) if credentials.agent_id == 9
    ));
    assert!(matches!(
        Pairing::Read.resume(PairingReply::Found(Some(state()))),
        Pairing::Claim(state) if state.agent_id == 7
    ));
}

#[test]
fn a_pairing_fails_with_its_reason() {
    assert!(matches!(
        Pairing::Claim(state()).resume(PairingReply::Claimed(claimed(false, None))),
        Pairing::Failed(PairingFailure::InvalidClaim)
    ));
    assert!(matches!(
        Pairing::Claim(state()).resume(PairingReply::Refused(410)),
        Pairing::Failed(PairingFailure::Refused(410))
    ));
}

#[test]
fn the_order_of_finds_does_not_matter() {
    let config = Config::default();
    let one = vec![address("10.0.0.1", false)];
    let other = vec![address("::1", true)];
    let mut forth = Discovery::new();
    forth.found(&one, 80);
    forth.found(&other, 80);
    let mut back = Discovery::new();
    back.found(&other, 80);
    back.found(&one, 80);
    assert_eq!(resolve_server(&config, &forth).unwrap(), "http://10.0.0.1:80");
    assert_eq!(
        resolve_server(&config, &forth),
        resolve_server(&config, &back)
    );
}
