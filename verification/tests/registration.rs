use base64::engine::general_purpose::URL_SAFE_NO_PAD;
use base64::Engine;
use chrono::{SecondsFormat, TimeZone, Utc};
use ed25519_dalek::{Signer, SigningKey, Verifier};
use elowen_edge::config::{EdgeConfig, TrustedOrchestratorKey};
use elowen_edge::contracts::{
    DeviceRegistrationTrustProof, DeviceRepository, RegistrationChallengeResponse,
    RegistrationTrustIntent,
};
use elowen_edge::registration::{
    accept_challenge, build_registration_trust_proof, challenge_url, decode_base64_bytes,
    decode_signature, decode_signing_key, decode_verifying_key, edge_registration_payload,
    fetch_registration_challenge, orchestrator_challenge_payload, parse_bool,
    parse_trusted_orchestrator_keys, prepare_trust_material, print_trust_keypair, register_device,
    registration_result, registration_url, select_trusted_orchestrator_key, trust_keypair,
    EdgeRegistrationPayloadInput,
};
use elowen_edge::sandbox::SandboxMode;
use elowen_edge::timestamp::Timestamp;

fn signing_key(seed: u8) -> SigningKey {
    SigningKey::from_bytes(&[seed; 32])
}

fn public_key(key: &SigningKey) -> String {
    URL_SAFE_NO_PAD.encode(key.verifying_key().to_bytes())
}

fn private_key(key: &SigningKey) -> String {
    URL_SAFE_NO_PAD.encode(key.to_bytes())
}

fn pin(key_id: Option<&str>, key: &SigningKey) -> TrustedOrchestratorKey {
    TrustedOrchestratorKey {
        key_id: key_id.map(|id| id.to_string()),
        public_key: public_key(key),
    }
}

fn instant() -> Timestamp {
    let now = Utc::now();
    Timestamp::new(now.timestamp(), now.timestamp_subsec_nanos()).unwrap()
}

fn challenge(id: &str, key_id: Option<&str>, key: &SigningKey) -> RegistrationChallengeResponse {
    RegistrationChallengeResponse {
        challenge_id: id.to_string(),
        challenge: "token".to_string(),
        issued_at: instant(),
        orchestrator_key_id: key_id.map(|id| id.to_string()),
        orchestrator_public_key: public_key(key),
        signature: "signature".to_string(),
    }
}

fn signed(mut challenge: RegistrationChallengeResponse, key: &SigningKey) -> RegistrationChallengeResponse {
    let payload = orchestrator_challenge_payload(
        &challenge.challenge_id,
        &challenge.challenge,
        challenge.issued_at,
    );
    challenge.signature = URL_SAFE_NO_PAD.encode(key.sign(payload.as_bytes()).to_bytes());
    challenge
}

fn config(
    pins: Vec<TrustedOrchestratorKey>,
    edge: Option<&SigningKey>,
    previous: Option<&SigningKey>,
) -> EdgeConfig {
    EdgeConfig {
        config_path: "/etc/elowen/edge.toml".to_string(),
        api_url: "http://api".to_string(),
        nats_url: "nats://x".to_string(),
        device_id: "device-1".to_string(),
        device_name: "Device One".to_string(),
        primary_flag: true,
        allowed_repos: vec!["a".to_string()],
        allowed_repo_roots: vec!["/srv".to_string()],
        hidden_repos: vec!["h".to_string()],
        excluded_repo_paths: vec!["/srv/x".to_string()],
        capabilities: vec!["generic_jobs".to_string()],
        workspace_root: "/workspace".to_string(),
        worktree_root: "/w".to_string(),
        codex_command: None,
        codex_args: Vec::new(),
        simulated_run_ms: 750,
        validation_timeout_secs: 600,
        sandbox_mode: SandboxMode::Workspace,
        trusted_orchestrator_keys: pins,
        orchestrator_keys_path: None,
        edge_signing_key: edge.map(private_key),
        edge_signing_key_ref: None,
        previous_edge_signing_key: previous.map(private_key),
        previous_edge_signing_key_ref: None,
        state_dir: "/state".to_string(),
        status_path: "/state/status.json".to_string(),
        service_name: "elowen-edge".to_string(),
        log_format: "text".to_string(),
        rust_log: None,
    }
}

#[test]
fn selects_challenge_key_by_key_id_when_present() {
    let current = signing_key(7);
    let next = signing_key(8);
    let trusted = parse_trusted_orchestrator_keys(&vec![
        pin(Some("current"), &current),
        pin(Some("next"), &next),
    ])
    .unwrap();
    let challenge = challenge("challenge-1", Some("next"), &next);

    let selected = select_trusted_orchestrator_key(&trusted, &challenge).unwrap();

    assert_eq!(selected.key_id.as_deref(), Some("next"));
    assert_eq!(selected.public_key, URL_SAFE_NO_PAD.encode(next.verifying_key().to_bytes()));
}

#[test]
fn rejects_unknown_challenge_key_even_during_rotation() {
    let current = signing_key(9);
    let trusted = parse_trusted_orchestrator_keys(&vec![pin(Some("current"), &current)]).unwrap();
    let unknown = signing_key(10);
    let challenge = challenge("challenge-2", Some("next"), &unknown);

    let error = select_trusted_orchestrator_key(&trusted, &challenge).unwrap_err();

    assert!(error.to_text().contains("unexpected orchestrator public key"));
}

#[test]
fn accepts_public_key_only_pin_when_challenge_includes_key_id() {
    let current = signing_key(10);
    let trusted = parse_trusted_orchestrator_keys(&vec![pin(None, &current)]).unwrap();
    let challenge = challenge("challenge-compat", Some("orchestrator-1-current"), &current);

    let selected = select_trusted_orchestrator_key(&trusted, &challenge).unwrap();

    assert_eq!(selected.key_id, None);
    assert_eq!(selected.public_key, URL_SAFE_NO_PAD.encode(current.verifying_key().to_bytes()));
}

#[test]
fn reenrollment_proof_can_bind_previous_and_current_edge_keys() {
    let current = signing_key(11);
    let previous = signing_key(12);
    let issued_at = instant();
    let challenge_id = "challenge-3";
    let challenge = "token";
    let current_public_key = public_key(&current);
    let previous_public_key = public_key(&previous);
    let current_payload = edge_registration_payload(EdgeRegistrationPayloadInput {
        device_id: "device-1",
        name: "Device One",
        primary_flag: true,
        challenge_id,
        challenge,
        challenge_issued_at: issued_at,
        orchestrator_key_id: "orchestrator-1-current",
        orchestrator_public_key: "pinned-key",
        edge_public_key: &current_public_key,
    });
    let previous_payload = edge_registration_payload(EdgeRegistrationPayloadInput {
        device_id: "device-1",
        name: "Device One",
        primary_flag: true,
        challenge_id,
        challenge,
        challenge_issued_at: issued_at,
        orchestrator_key_id: "orchestrator-1-current",
        orchestrator_public_key: "pinned-key",
        edge_public_key: &previous_public_key,
    });
    let proof = DeviceRegistrationTrustProof {
        trusted_orchestrator_public_keys: vec!["pinned-key".to_string()],
        trusted_orchestrator_key_ids: Some(vec!["current".to_string(), "next".to_string()]),
        orchestrator_key_id: "next".to_string(),
        orchestrator_challenge_id: challenge_id.to_string(),
        orchestrator_challenge: challenge.to_string(),
        orchestrator_challenge_issued_at: issued_at,
        orchestrator_public_key: "pinned-key".to_string(),
        orchestrator_signature: "signature".to_string(),
        edge_public_key: current_public_key.clone(),
        edge_signature: URL_SAFE_NO_PAD.encode(current.sign(current_payload.as_bytes()).to_bytes()),
        registration_intent: RegistrationTrustIntent::Rotate,
        previous_edge_public_key: Some(previous_public_key.clone()),
        previous_edge_signature: Some(
            URL_SAFE_NO_PAD.encode(previous.sign(previous_payload.as_bytes()).to_bytes()),
        ),
        reenrollment_kind: Some("replace_existing_device_key".to_string()),
    };

    let current_signature = decode_signature(&proof.edge_signature, "edge signature").unwrap();
    let current_key = decode_verifying_key(&proof.edge_public_key, "edge public key").unwrap();
    assert!(current_key.verify(&current_payload, &current_signature));

    let previous_signature = decode_signature(
        proof.previous_edge_signature.as_deref().unwrap(),
        "previous edge signature",
    )
    .unwrap();
    let previous_key = decode_verifying_key(
        proof.previous_edge_public_key.as_deref().unwrap(),
        "previous edge public key",
    )
    .unwrap();
    assert!(previous_key.verify(&previous_payload, &previous_signature));
    assert!(!previous_key.verify(&current_payload, &previous_signature));
    assert!(!current_key.verify(&current_payload, &previous_signature));
}

#[test]
fn challenge_payload_format_stays_stable() {
    let issued_at = instant();
    let payload = orchestrator_challenge_payload("challenge-4", "token", issued_at);
    assert!(payload.contains("elowen-orchestrator-registration-challenge"));
    assert!(payload.contains("challenge-4"));
}

#[test]
fn signing_key_decoder_requires_32_bytes() {
    let error = decode_signing_key("abc", "edge signing key").err().unwrap();
    assert!(error.to_text().contains("32-byte Ed25519 private key"));
}

#[test]
fn payloads_are_exact() {
    let issued_at = Timestamp::new(1_777_077_000, 500_000_000).unwrap();
    let text = Utc
        .timestamp_opt(1_777_077_000, 500_000_000)
        .unwrap()
        .to_rfc3339();
    assert_eq!(text, "2026-04-25T00:30:00.500+00:00");
    assert_eq!(
        orchestrator_challenge_payload("c", "t", issued_at),
        format!("elowen-orchestrator-registration-challenge\nc\nt\n{text}")
    );
    assert_eq!(
        edge_registration_payload(EdgeRegistrationPayloadInput {
            device_id: "d",
            name: "n",
            primary_flag: false,
            challenge_id: "c",
            challenge: "t",
            challenge_issued_at: issued_at,
            orchestrator_key_id: "k",
            orchestrator_public_key: "p",
            edge_public_key: "e",
        }),
        format!("elowen-edge-registration\nd\nn\nfalse\nc\nt\n{text}\nk\np\ne")
    );
}

#[test]
fn timestamps_are_written_like_chrono_does() {
    for (secs, nanos) in [(0, 0), (1_777_077_000, 1), (-1, 999_999_999), (253_402_300_800, 0)] {
        let expected = Utc.timestamp_opt(secs, nanos).unwrap().to_rfc3339();
        assert_eq!(Timestamp::new(secs, nanos).unwrap().to_rfc3339(), expected);
    }
    assert_eq!(
        Timestamp::new(0, 0).unwrap().to_rfc3339(),
        Utc.timestamp_opt(0, 0).unwrap().to_rfc3339_opts(SecondsFormat::Secs, false)
    );
    assert!(Timestamp::new(i64::MAX, 0).is_none());
    assert!(Timestamp::new(0, 2_000_000_000).is_none());
}

#[test]
fn keypairs_decode_to_what_they_were_made_from() {
    let key = signing_key(3);
    let pair = trust_keypair(&decode_signing_key(&private_key(&key), "key").ok().unwrap());
    assert_eq!(pair.private_key, private_key(&key));
    assert_eq!(pair.public_key, public_key(&key));
    let first = print_trust_keypair();
    let second = print_trust_keypair();
    assert_ne!(first, second);
    let decoded = decode_signing_key(&first.private_key, "key").ok().unwrap();
    assert_eq!(trust_keypair(&decoded), first);
}

#[test]
fn signatures_are_those_of_the_algorithm() {
    let key = signing_key(4);
    let ours = decode_signing_key(&private_key(&key), "key").ok().unwrap();
    let signature = ours.sign("message");
    assert_eq!(signature, key.sign(b"message").to_bytes().to_vec());
    let theirs = ed25519_dalek::Signature::from_slice(&signature).unwrap();
    assert!(key.verifying_key().verify(b"message", &theirs).is_ok());
    let verifying = decode_verifying_key(&public_key(&key), "key").unwrap();
    let ours = decode_signature(&URL_SAFE_NO_PAD.encode(&signature), "signature").unwrap();
    assert!(verifying.verify("message", &ours));
    assert!(!verifying.verify("massage", &ours));
}

#[test]
fn decoders_say_what_is_wrong() {
    assert_eq!(decode_base64_bytes("aGk", "x"), Ok(b"hi".to_vec()));
    assert_eq!(decode_base64_bytes(" aGk ", "x"), Ok(b"hi".to_vec()));
    assert_eq!(
        decode_base64_bytes("a+b=", "the key").unwrap_err().to_text(),
        "the key is not valid base64url"
    );
    assert_eq!(
        decode_signing_key("aGk", "the key").err().unwrap().to_text(),
        "the key must decode to a 32-byte Ed25519 private key"
    );
    assert_eq!(
        decode_verifying_key("aGk", "the key").unwrap_err().to_text(),
        "the key must decode to a 32-byte Ed25519 public key"
    );
    assert_eq!(
        decode_signature("aGk", "the signature").unwrap_err().to_text(),
        "the signature must decode to a 64-byte Ed25519 signature"
    );
    let mut off_curve = None;
    for seed in 0..=255u8 {
        let text = URL_SAFE_NO_PAD.encode([seed; 32]);
        let valid = ed25519_dalek::VerifyingKey::from_bytes(&[seed; 32]).is_ok();
        assert_eq!(decode_verifying_key(&text, "the key").is_ok(), valid);
        if !valid {
            off_curve = Some(text);
        }
    }
    assert_eq!(
        decode_verifying_key(&off_curve.unwrap(), "the key").unwrap_err().to_text(),
        "the key is not a valid Ed25519 key"
    );
}

#[test]
fn duplicate_pins_are_refused() {
    let key = signing_key(5);
    let trusted =
        parse_trusted_orchestrator_keys(&vec![pin(Some("a"), &key), pin(Some("a"), &key)]).unwrap();
    let error =
        select_trusted_orchestrator_key(&trusted, &challenge("c", Some("a"), &key)).unwrap_err();
    assert_eq!(
        error.to_text(),
        "registration challenge matched multiple trusted orchestrator keys; fix duplicate configuration"
    );
}

#[test]
fn pins_must_be_keys() {
    let bad = TrustedOrchestratorKey { key_id: None, public_key: "aGk".to_string() };
    assert_eq!(
        parse_trusted_orchestrator_keys(&vec![bad]).err().unwrap().to_text(),
        "orchestrator public key must decode to a 32-byte Ed25519 public key"
    );
}

#[test]
fn challenges_must_be_signed_by_the_pinned_key() {
    let orchestrator = signing_key(1);
    let other = signing_key(2);
    let trusted = parse_trusted_orchestrator_keys(&vec![pin(None, &orchestrator)]).unwrap();
    let good = signed(challenge("c", None, &orchestrator), &orchestrator);
    assert!(accept_challenge(&trusted, &good).is_ok());
    let forged = signed(challenge("c", None, &orchestrator), &other);
    assert_eq!(
        accept_challenge(&trusted, &forged).unwrap_err().to_text(),
        "failed to verify orchestrator registration challenge signature"
    );
    let unsigned = challenge("c", None, &orchestrator);
    assert!(accept_challenge(&trusted, &unsigned).is_err());
}

#[test]
fn trust_material_needs_an_edge_key() {
    let orchestrator = signing_key(1);
    let edge = signing_key(2);
    let none = prepare_trust_material(&config(Vec::new(), Some(&edge), None));
    assert!(none.ok().unwrap().is_none());
    let missing = prepare_trust_material(&config(vec![pin(None, &orchestrator)], None, None));
    assert_eq!(
        missing.err().unwrap().to_text(),
        "ELOWEN_EDGE_SIGNING_KEY is required when trusted orchestrator key pinning is configured"
    );
    let given = prepare_trust_material(&config(vec![pin(None, &orchestrator)], Some(&edge), None));
    assert!(given.ok().unwrap().is_some());
}

fn enrolled(previous: Option<&SigningKey>, key_id: Option<&str>) -> DeviceRegistrationTrustProof {
    let orchestrator = signing_key(1);
    let edge = signing_key(2);
    let config = config(vec![pin(Some("current"), &orchestrator)], Some(&edge), previous);
    let material = prepare_trust_material(&config).ok().unwrap().unwrap();
    let challenge = signed(challenge("c", key_id, &orchestrator), &orchestrator);
    build_registration_trust_proof(&config, &material, &challenge).ok().unwrap()
}

fn signs(
    proof: &DeviceRegistrationTrustProof,
    key_id: &str,
    edge_public_key: &str,
    signature: &str,
) -> bool {
    let payload = edge_registration_payload(EdgeRegistrationPayloadInput {
        device_id: "device-1",
        name: "Device One",
        primary_flag: true,
        challenge_id: "c",
        challenge: "token",
        challenge_issued_at: proof.orchestrator_challenge_issued_at,
        orchestrator_key_id: key_id,
        orchestrator_public_key: &proof.orchestrator_public_key,
        edge_public_key,
    });
    let signature = decode_signature(signature, "signature").unwrap();
    decode_verifying_key(edge_public_key, "key").unwrap().verify(&payload, &signature)
}

#[test]
fn proofs_are_signed_by_the_edge_key() {
    let proof = enrolled(None, Some("current"));
    assert_eq!(proof.registration_intent, RegistrationTrustIntent::Enroll);
    assert_eq!(proof.orchestrator_key_id, "current");
    assert_eq!(proof.edge_public_key, public_key(&signing_key(2)));
    assert_eq!(proof.trusted_orchestrator_public_keys, vec![public_key(&signing_key(1))]);
    assert_eq!(proof.trusted_orchestrator_key_ids, Some(vec!["current".to_string()]));
    assert_eq!(proof.previous_edge_signature, None);
    assert_eq!(proof.reenrollment_kind, None);
    assert!(signs(&proof, "current", &proof.edge_public_key, &proof.edge_signature));
}

#[test]
fn rotations_are_signed_by_both_edge_keys() {
    let previous = signing_key(6);
    let proof = enrolled(Some(&previous), Some("current"));
    assert_eq!(proof.registration_intent, RegistrationTrustIntent::Rotate);
    assert_eq!(proof.reenrollment_kind.as_deref(), Some("replace_existing_device_key"));
    assert_eq!(proof.previous_edge_public_key, Some(public_key(&previous)));
    assert!(signs(&proof, "current", &proof.edge_public_key, &proof.edge_signature));
    assert!(signs(
        &proof,
        "current",
        proof.previous_edge_public_key.as_deref().unwrap(),
        proof.previous_edge_signature.as_deref().unwrap()
    ));
}

#[test]
fn requests_advertise_the_configuration() {
    let config = config(Vec::new(), None, None);
    let repository = DeviceRepository { name: "a".to_string(), branches: vec!["main".to_string()] };
    let request = register_device(
        &config,
        vec!["b".to_string()],
        vec![repository.clone()],
        None,
    );
    assert_eq!(request.name, "Device One");
    assert!(request.primary_flag);
    assert_eq!(request.allowed_repos, config.allowed_repos);
    assert_eq!(request.allowed_repo_roots, config.allowed_repo_roots);
    assert_eq!(request.hidden_repos, config.hidden_repos);
    assert_eq!(request.excluded_repo_paths, config.excluded_repo_paths);
    assert_eq!(request.discovered_repos, vec!["b".to_string()]);
    assert_eq!(request.repositories, vec![repository]);
    assert_eq!(request.capabilities, config.capabilities);
    assert_eq!(request.trust, None);
}

#[test]
fn urls_and_failures_are_exact() {
    assert_eq!(registration_url("http://api", "d"), "http://api/api/v1/devices/d");
    assert_eq!(challenge_url("http://api"), "http://api/api/v1/trust/registration-challenge");
    assert_eq!(registration_result(true, "200 OK", ""), Ok(()));
    assert_eq!(
        registration_result(false, "403 Forbidden", "edge_key_revoked").unwrap_err().to_text(),
        "device registration failed with status 403 Forbidden: edge_key_revoked"
    );
    assert_eq!(fetch_registration_challenge(true, "200 OK", ""), Ok(()));
    assert_eq!(
        fetch_registration_challenge(false, "500 Oops", "b").unwrap_err().to_text(),
        "registration challenge request failed with status 500 Oops: b"
    );
}

#[test]
fn affirmative_words_are_recognised() {
    for word in ["1", "true", "YES", " On "] {
        assert!(parse_bool(word), "{word}");
    }
    for word in ["", "0", "no", "y", "truee"] {
        assert!(!parse_bool(word), "{word}");
    }
}
