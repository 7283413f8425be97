//! The registration of the device with its orchestrator, and the proof of mutual trust.

use vstd::prelude::*;

use crate::config;
use crate::config::{EdgeConfig, TrustedOrchestratorKey, TrustedOrchestratorKeyView};
use crate::contracts::{
    DeviceRegistrationTrustProof, DeviceRegistrationTrustProofView, DeviceRepository,
    DeviceRepositoryView, RegisterDeviceRequest, RegisterDeviceRequestView,
    RegistrationChallengeResponse, RegistrationTrustIntent,
};
use crate::crypto;
use crate::crypto::{SignatureBytes, SigningKey, VerifyingKey};
use crate::discovery;
use crate::encoding;
use crate::error;
use crate::error::EdgeError;
use crate::text;
use crate::text::push_text;
use crate::timestamp::Timestamp;

verus! {

/// A text that stands for yes.
pub open spec fn is_affirmative(value: Seq<char>) -> bool {
    let word = text::lower(text::trim(value));
    word == "1"@ || word == "true"@ || word == "yes"@ || word == "on"@
}

/// Whether a text stands for yes.
pub fn parse_bool(value: &str) -> (yes: bool)
    ensures
        yes == is_affirmative(value@),
{
    let word = text::lowered(&text::trimmed_text(value));
    text::text_eq(&word, "1") || text::text_eq(&word, "true") || text::text_eq(&word, "yes")
        || text::text_eq(&word, "on")
}

/// A pair of keys in base64url.
#[derive(Clone, Debug, PartialEq, Eq)]
pub struct TrustKeypair {
    pub private_key: String,
    pub public_key: String,
}

/// The contents of a [`TrustKeypair`].
pub struct TrustKeypairView {
    pub private_key: Seq<char>,
    pub public_key: Seq<char>,
}

impl View for TrustKeypair {
    type V = TrustKeypairView;

    open spec fn view(&self) -> TrustKeypairView {
        TrustKeypairView {
            private_key: self.private_key@,
            public_key: self.public_key@,
        }
    }
}

/// The pair of keys that belongs to a private key, in base64url.
pub open spec fn keypair_of(secret: Seq<u8>) -> TrustKeypairView {
    TrustKeypairView {
        private_key: encoding::base64url_text(secret),
        public_key: encoding::base64url_text(crypto::ed25519_public_key(secret)),
    }
}

/// The pair of keys that belongs to a private key, in base64url.
pub fn trust_keypair(key: &SigningKey) -> (pair: TrustKeypair)
    ensures
        pair@ == keypair_of(key@),
        encoding::base64url_bytes(pair.private_key@) == Some(key@),
        encoding::base64url_bytes(pair.public_key@) == Some(crypto::ed25519_public_key(key@)),
        forall|label: Seq<char>| #[trigger]
            decoded_signing_key(pair.private_key@, label) == labelled_signing_key(key@, label),
{
    let private_key = encoding::base64url_encode(key.to_bytes().as_slice());
    let public_key = encoding::base64url_encode(key.public_key().as_slice());
    proof {
        let written = private_key@;
        assert(written.len() > 0 ==> encoding::is_base64url_char(written[0])
            && encoding::is_base64url_char(written[written.len() - 1]));
        text::trimming_keeps_what_has_no_margin(written);
    }
    TrustKeypair { private_key, public_key }
}

/// A fresh pair of keys, in base64url. Its private key can be configured as it is printed, and its
/// public key belongs to it.
pub fn print_trust_keypair() -> (pair: TrustKeypair)
    ensures
        encoding::base64url_bytes(pair.private_key@) matches Some(secret) && {
            &&& secret.len() == crypto::KEY_LENGTH
            &&& pair@ == keypair_of(secret)
            &&& forall|label: Seq<char>| #[trigger]
                decoded_signing_key(pair.private_key@, label) == Ok::<Seq<u8>, Seq<char>>(secret)
        },
{
    let key = SigningKey::generate();
    trust_keypair(&key)
}

/// The bytes of a base64url text, or the message of their refusal.
pub open spec fn labelled_bytes(bytes: Option<Seq<u8>>, label: Seq<char>) -> Result<
    Seq<u8>,
    Seq<char>,
> {
    match bytes {
        Some(inner) => Ok(inner),
        None => Err(label + " is not valid base64url"@),
    }
}

/// A message behind a label.
fn labelled(label: &str, message: &str) -> (error: EdgeError)
    ensures
        error@ == label@ + message@,
{
    let mut full = label.to_owned();
    full.append(message);
    EdgeError::of(full)
}

/// The bytes of a base64url text. White space around it does not matter.
pub fn decode_base64_bytes(value: &str, label: &str) -> (out: Result<Vec<u8>, EdgeError>)
    ensures
        error::outcome(out) == labelled_bytes(
            encoding::base64url_bytes(text::trim(value@)),
            label@,
        ),
{
    match encoding::base64url_decode(&text::trimmed_text(value)) {
        Some(bytes) => Ok(bytes),
        None => Err(labelled(label, " is not valid base64url")),
    }
}

/// The private key in decoded bytes, or the message of its refusal.
pub open spec fn labelled_signing_key(bytes: Seq<u8>, label: Seq<char>) -> Result<
    Seq<u8>,
    Seq<char>,
> {
    if bytes.len() == crypto::KEY_LENGTH {
        Ok(bytes)
    } else {
        Err(label + " must decode to a 32-byte Ed25519 private key"@)
    }
}

/// The private key in decoded bytes.
pub fn signing_key_from(bytes: &Vec<u8>, label: &str) -> (out: Result<SigningKey, EdgeError>)
    ensures
        error::outcome(out) == labelled_signing_key(bytes@, label@),
{
    match SigningKey::from_bytes(bytes) {
        Some(key) => Ok(key),
        None => Err(labelled(label, " must decode to a 32-byte Ed25519 private key")),
    }
}

/// The private key in a base64url text, or the message of its refusal.
pub open spec fn decoded_signing_key(value: Seq<char>, label: Seq<char>) -> Result<
    Seq<u8>,
    Seq<char>,
> {
    match labelled_bytes(encoding::base64url_bytes(text::trim(value)), label) {
        Err(message) => Err(message),
        Ok(bytes) => labelled_signing_key(bytes, label),
    }
}

/// The private key in a base64url text.
pub fn decode_signing_key(value: &str, label: &str) -> (out: Result<SigningKey, EdgeError>)
    ensures
        error::outcome(out) == decoded_signing_key(value@, label@),
{
    match decode_base64_bytes(value, label) {
        Err(error) => Err(error),
        Ok(bytes) => signing_key_from(&bytes, label),
    }
}

/// The public key in decoded bytes, or the message of its refusal. `valid` says whether the bytes
/// encode a point of the curve.
pub open spec fn labelled_verifying_key(bytes: Seq<u8>, valid: bool, label: Seq<char>) -> Result<
    Seq<u8>,
    Seq<char>,
> {
    if bytes.len() != crypto::KEY_LENGTH {
        Err(label + " must decode to a 32-byte Ed25519 public key"@)
    } else if valid {
        Ok(bytes)
    } else {
        Err(label + " is not a valid Ed25519 key"@)
    }
}

/// The public key in decoded bytes.
pub fn verifying_key_from(bytes: &Vec<u8>, label: &str) -> (out: Result<VerifyingKey, EdgeError>)
    ensures
        error::outcome(out) == labelled_verifying_key(
            bytes@,
            crypto::ed25519_is_public_key(bytes@),
            label@,
        ),
{
    if bytes.len() != crypto::KEY_LENGTH {
        return Err(labelled(label, " must decode to a 32-byte Ed25519 public key"));
    }
    match VerifyingKey::from_bytes(bytes) {
        Some(key) => Ok(key),
        None => Err(labelled(label, " is not a valid Ed25519 key")),
    }
}

/// The public key in a base64url text, or the message of its refusal.
pub open spec fn decoded_verifying_key(value: Seq<char>, label: Seq<char>) -> Result<
    Seq<u8>,
    Seq<char>,
> {
    match labelled_bytes(encoding::base64url_bytes(text::trim(value)), label) {
        Err(message) => Err(message),
        Ok(bytes) => labelled_verifying_key(bytes, crypto::ed25519_is_public_key(bytes), label),
    }
}

/// The public key in a base64url text.
pub fn decode_verifying_key(value: &str, label: &str) -> (out: Result<VerifyingKey, EdgeError>)
    ensures
        error::outcome(out) == decoded_verifying_key(value@, label@),
{
    match decode_base64_bytes(value, label) {
        Err(error) => Err(error),
        Ok(bytes) => verifying_key_from(&bytes, label),
    }
}

/// The signature in decoded bytes, or the message of its refusal.
pub open spec fn labelled_signature(bytes: Seq<u8>, label: Seq<char>) -> Result<
    Seq<u8>,
    Seq<char>,
> {
    if bytes.len() == crypto::SIGNATURE_LENGTH {
        Ok(bytes)
    } else {
        Err(label + " must decode to a 64-byte Ed25519 signature"@)
    }
}

/// The signature in decoded bytes.
pub fn signature_from(bytes: &Vec<u8>, label: &str) -> (out: Result<SignatureBytes, EdgeError>)
    ensures
        error::outcome(out) == labelled_signature(bytes@, label@),
{
    match SignatureBytes::from_bytes(bytes) {
        Some(signature) => Ok(signature),
        None => Err(labelled(label, " must decode to a 64-byte Ed25519 signature")),
    }
}

/// The signature in a base64url text, or the message of its refusal.
pub open spec fn decoded_signature(value: Seq<char>, label: Seq<char>) -> Result<
    Seq<u8>,
    Seq<char>,
> {
    match labelled_bytes(encoding::base64url_bytes(text::trim(value)), label) {
        Err(message) => Err(message),
        Ok(bytes) => labelled_signature(bytes, label),
    }
}

/// The signature in a base64url text.
pub fn decode_signature(value: &str, label: &str) -> (out: Result<SignatureBytes, EdgeError>)
    ensures
        error::outcome(out) == decoded_signature(value@, label@),
{
    match decode_base64_bytes(value, label) {
        Err(error) => Err(error),
        Ok(bytes) => signature_from(&bytes, label),
    }
}

/// An orchestrator key that is pinned locally, decoded.
#[derive(Debug)]
pub struct TrustedOrchestratorKeyMaterial {
    pub key_id: Option<String>,
    pub public_key: String,
    pub verifying_key: VerifyingKey,
}

/// The contents of a [`TrustedOrchestratorKeyMaterial`].
pub struct TrustedOrchestratorKeyMaterialView {
    pub key_id: Option<Seq<char>>,
    pub public_key: Seq<char>,
    pub verifying_key: Seq<u8>,
}

impl View for TrustedOrchestratorKeyMaterial {
    type V = TrustedOrchestratorKeyMaterialView;

    open spec fn view(&self) -> TrustedOrchestratorKeyMaterialView {
        TrustedOrchestratorKeyMaterialView {
            key_id: text::opt_text(self.key_id),
            public_key: self.public_key@,
            verifying_key: self.verifying_key@,
        }
    }
}

/// The decoded keys of a list.
pub open spec fn material_views(keys: Seq<TrustedOrchestratorKeyMaterial>) -> Seq<
    TrustedOrchestratorKeyMaterialView,
> {
    keys.map_values(|key: TrustedOrchestratorKeyMaterial| key@)
}

/// The decoded form of a pinned key, or the message of its refusal.
pub open spec fn decoded_key(key: TrustedOrchestratorKeyView) -> Result<
    TrustedOrchestratorKeyMaterialView,
    Seq<char>,
> {
    match decoded_verifying_key(key.public_key, "orchestrator public key"@) {
        Err(message) => Err(message),
        Ok(verifying_key) => Ok(
            TrustedOrchestratorKeyMaterialView {
                key_id: key.key_id,
                public_key: text::trim(key.public_key),
                verifying_key,
            },
        ),
    }
}

/// The decoded forms of pinned keys, or the message of the first refusal.
pub open spec fn decoded_keys(keys: Seq<TrustedOrchestratorKeyView>) -> Result<
    Seq<TrustedOrchestratorKeyMaterialView>,
    Seq<char>,
>
    decreases keys.len(),
{
    if keys.len() == 0 {
        Ok(Seq::empty())
    } else {
        match decoded_keys(keys.drop_last()) {
            Err(message) => Err(message),
            Ok(before) => match decoded_key(keys.last()) {
                Err(message) => Err(message),
                Ok(key) => Ok(before.push(key)),
            },
        }
    }
}

/// A key that is refused decides over all that follow it.
proof fn lemma_first_bad_key_decides(keys: Seq<TrustedOrchestratorKeyView>, upto: int)
    requires
        0 <= upto <= keys.len(),
        decoded_keys(keys.take(upto)) is Err,
    ensures
        decoded_keys(keys) == decoded_keys(keys.take(upto)),
    decreases keys.len() - upto,
{
    if upto == keys.len() {
        assert(keys.take(upto) == keys);
    } else {
        assert(keys.take(upto + 1).drop_last() == keys.take(upto));
        lemma_first_bad_key_decides(keys, upto + 1);
    }
}

/// The decoded forms of pinned keys.
pub fn parse_trusted_orchestrator_keys(configured_keys: &Vec<TrustedOrchestratorKey>) -> (out: Result<
    Vec<TrustedOrchestratorKeyMaterial>,
    EdgeError,
>)
    ensures
        (match out {
            Ok(keys) => Ok::<Seq<TrustedOrchestratorKeyMaterialView>, Seq<char>>(
                material_views(keys@),
            ),
            Err(error) => Err::<Seq<TrustedOrchestratorKeyMaterialView>, Seq<char>>(error@),
        }) == decoded_keys(config::key_views(configured_keys@)),
{
    let ghost given = config::key_views(configured_keys@);
    let mut out: Vec<TrustedOrchestratorKeyMaterial> = Vec::new();
    let mut i: usize = 0;
    assert(given.take(0) == Seq::<TrustedOrchestratorKeyView>::empty());
    assert(material_views(out@) == Seq::<TrustedOrchestratorKeyMaterialView>::empty());
    while i < configured_keys.len()
        invariant
            i <= configured_keys.len(),
            given == config::key_views(configured_keys@),
            decoded_keys(given.take(i as int)) == Ok::<
                Seq<TrustedOrchestratorKeyMaterialView>,
                Seq<char>,
            >(material_views(out@)),
        decreases configured_keys.len() - i,
    {
        assert(given.take(i + 1).drop_last() == given.take(i as int));
        assert(given.take(i + 1).last() == configured_keys@[i as int]@);
        let entry = &configured_keys[i];
        match decode_verifying_key(&entry.public_key, "orchestrator public key") {
            Err(error) => {
                proof {
                    lemma_first_bad_key_decides(given, i + 1);
                }
                return Err(error);
            },
            Ok(verifying_key) => {
                let ghost before = material_views(out@);
                let key = TrustedOrchestratorKeyMaterial {
                    key_id: text::copy_opt(&entry.key_id),
                    public_key: text::trimmed_text(&entry.public_key),
                    verifying_key,
                };
                out.push(key);
                assert(material_views(out@) == before.push(key@));
            },
        }
        i = i + 1;
    }
    assert(given.take(i as int) == given);
    Ok(out)
}

/// A pinned key that a challenge may have been signed with: the same public key and, where both
/// sides name one, the same key id.
pub open spec fn key_matches(
    key: TrustedOrchestratorKeyMaterialView,
    public_key: Seq<char>,
    key_id: Option<Seq<char>>,
) -> bool {
    &&& key.public_key == text::trim(public_key)
    &&& match (config::trimmed_value(key_id), key.key_id) {
        (Some(expected), Some(pinned)) => pinned == expected,
        _ => true,
    }
}

/// The pinned keys that a challenge may have been signed with.
pub open spec fn matching_keys(
    keys: Seq<TrustedOrchestratorKeyMaterialView>,
    public_key: Seq<char>,
    key_id: Option<Seq<char>>,
) -> Seq<TrustedOrchestratorKeyMaterialView>
    decreases keys.len(),
{
    if keys.len() == 0 {
        Seq::empty()
    } else {
        let before = matching_keys(keys.drop_last(), public_key, key_id);
        if key_matches(keys.last(), public_key, key_id) {
            before.push(keys.last())
        } else {
            before
        }
    }
}

/// The one pinned key that a challenge was signed with, or the message of its refusal.
pub open spec fn selected_key(
    keys: Seq<TrustedOrchestratorKeyMaterialView>,
    public_key: Seq<char>,
    key_id: Option<Seq<char>>,
) -> Result<TrustedOrchestratorKeyMaterialView, Seq<char>> {
    let matching = matching_keys(keys, public_key, key_id);
    if matching.len() == 0 {
        Err("registration challenge was signed by an unexpected orchestrator public key"@)
    } else if matching.len() > 1 {
        Err(
            "registration challenge matched multiple trusted orchestrator keys; fix duplicate configuration"@,
        )
    } else {
        Ok(matching[0])
    }
}

/// Whether a pinned key is one that a challenge may have been signed with.
fn may_have_signed(
    key: &TrustedOrchestratorKeyMaterial,
    public_key: &str,
    key_id: &Option<String>,
) -> (matches: bool)
    ensures
        matches == (key@.public_key == public_key@ && match (
            text::opt_text(*key_id),
            key@.key_id,
        ) {
            (Some(expected), Some(pinned)) => pinned == expected,
            _ => true,
        }),
{
    if !text::text_eq(&key.public_key, public_key) {
        return false;
    }
    match (key_id, &key.key_id) {
        (Some(expected), Some(pinned)) => text::text_eq(pinned, expected),
        _ => true,
    }
}

/// More keys never make fewer match.
proof fn lemma_matching_grows(
    keys: Seq<TrustedOrchestratorKeyMaterialView>,
    upto: int,
    public_key: Seq<char>,
    key_id: Option<Seq<char>>,
)
    requires
        0 <= upto <= keys.len(),
    ensures
        matching_keys(keys.take(upto), public_key, key_id).len() <= matching_keys(
            keys,
            public_key,
            key_id,
        ).len(),
    decreases keys.len() - upto,
{
    if upto == keys.len() {
        assert(keys.take(upto) == keys);
    } else {
        assert(keys.take(upto + 1).drop_last() == keys.take(upto));
        lemma_matching_grows(keys, upto + 1, public_key, key_id);
    }
}

/// The one pinned key that a challenge was signed with.
pub fn select_trusted_orchestrator_key<'a>(
    trusted_keys: &'a Vec<TrustedOrchestratorKeyMaterial>,
    challenge: &RegistrationChallengeResponse,
) -> (out: Result<&'a TrustedOrchestratorKeyMaterial, EdgeError>)
    ensures
        (match out {
            Ok(key) => Ok::<TrustedOrchestratorKeyMaterialView, Seq<char>>(key@),
            Err(error) => Err::<TrustedOrchestratorKeyMaterialView, Seq<char>>(error@),
        }) == selected_key(
            material_views(trusted_keys@),
            challenge.orchestrator_public_key@,
            text::opt_text(challenge.orchestrator_key_id),
        ),
        out matches Ok(key) ==> exists|i: int|
            0 <= i < trusted_keys.len() && #[trigger] trusted_keys[i] == *key,
{
    let ghost keys = material_views(trusted_keys@);
    let ghost wanted = challenge.orchestrator_public_key@;
    let ghost named = text::opt_text(challenge.orchestrator_key_id);
    let public_key = text::trimmed_text(&challenge.orchestrator_public_key);
    let key_id = config::trimmed(&challenge.orchestrator_key_id);
    let mut found: Option<usize> = None;
    let mut i: usize = 0;
    assert(keys.take(0) == Seq::<TrustedOrchestratorKeyMaterialView>::empty());
    while i < trusted_keys.len()
        invariant
            i <= trusted_keys.len(),
            keys == material_views(trusted_keys@),
            wanted == challenge.orchestrator_public_key@,
            named == text::opt_text(challenge.orchestrator_key_id),
            public_key@ == text::trim(wanted),
            text::opt_text(key_id) == config::trimmed_value(named),
            match found {
                Some(at) => {
                    &&& at < i
                    &&& matching_keys(keys.take(i as int), wanted, named) == seq![keys[at as int]]
                },
                None => matching_keys(keys.take(i as int), wanted, named).len() == 0,
            },
        decreases trusted_keys.len() - i,
    {
        assert(keys.take(i + 1).drop_last() == keys.take(i as int));
        assert(keys.take(i + 1).last() == keys[i as int]);
        assert(keys[i as int] == trusted_keys@[i as int]@);
        if may_have_signed(&trusted_keys[i], &public_key, &key_id) {
            if found.is_some() {
                proof {
                    lemma_matching_grows(keys, i + 1, wanted, named);
                }
                return Err(
                    EdgeError::new(
                        "registration challenge matched multiple trusted orchestrator keys; fix duplicate configuration",
                    ),
                );
            }
            found = Some(i);
            assert(matching_keys(keys.take(i + 1), wanted, named) =~= seq![keys[i as int]]);
        }
        i = i + 1;
    }
    assert(keys.take(i as int) == keys);
    match found {
        Some(at) => {
            assert(keys[at as int] == trusted_keys@[at as int]@);
            Ok(&trusted_keys[at])
        },
        None => Err(
            EdgeError::new(
                "registration challenge was signed by an unexpected orchestrator public key",
            ),
        ),
    }
}

/// Every key that matches is one of the pinned ones.
proof fn lemma_matching_are_pinned(
    keys: Seq<TrustedOrchestratorKeyMaterialView>,
    public_key: Seq<char>,
    key_id: Option<Seq<char>>,
)
    ensures
        forall|k: int|
            0 <= k < matching_keys(keys, public_key, key_id).len() ==> keys.contains(
                #[trigger] matching_keys(keys, public_key, key_id)[k],
            ) && key_matches(
                matching_keys(keys, public_key, key_id)[k],
                public_key,
                key_id,
            ),
        forall|i: int|
            0 <= i < keys.len() && key_matches(#[trigger] keys[i], public_key, key_id)
                ==> matching_keys(keys, public_key, key_id).len() > 0,
    decreases keys.len(),
{
    if keys.len() > 0 {
        let shorter = keys.drop_last();
        let before = matching_keys(shorter, public_key, key_id);
        let all = matching_keys(keys, public_key, key_id);
        lemma_matching_are_pinned(shorter, public_key, key_id);
        assert forall|k: int| 0 <= k < all.len() implies keys.contains(#[trigger] all[k])
            && key_matches(all[k], public_key, key_id) by {
            if k < before.len() {
                assert(all[k] == before[k]);
                let i = choose|i: int| 0 <= i < shorter.len() && shorter[i] == before[k];
                assert(keys[i] == all[k]);
            } else {
                assert(all[k] == keys.last());
                assert(keys[keys.len() - 1] == keys.last());
            }
        }
        assert forall|i: int|
            0 <= i < keys.len() && key_matches(#[trigger] keys[i], public_key, key_id) implies all.len()
            > 0 by {
            if i < shorter.len() {
                assert(shorter[i] == keys[i]);
            }
        }
    } else {
        assert(matching_keys(keys, public_key, key_id).len() == 0);
    }
}

/// A challenge is accepted only under a pinned key: its public key is pinned, and a key id that it
/// names is not contradicted by the pin. A challenge under an unknown key is refused, whatever key
/// id it names.
pub proof fn only_pinned_keys_are_accepted(
    keys: Seq<TrustedOrchestratorKeyMaterialView>,
    public_key: Seq<char>,
    key_id: Option<Seq<char>>,
)
    ensures
        selected_key(keys, public_key, key_id) matches Ok(key) ==> {
            &&& keys.contains(key)
            &&& key_matches(key, public_key, key_id)
        },
        (forall|i: int| 0 <= i < keys.len() ==> #[trigger] keys[i].public_key != text::trim(public_key))
            ==> selected_key(keys, public_key, key_id) == Err::<
            TrustedOrchestratorKeyMaterialView,
            Seq<char>,
        >("registration challenge was signed by an unexpected orchestrator public key"@),
{
    lemma_matching_are_pinned(keys, public_key, key_id);
    let matching = matching_keys(keys, public_key, key_id);
    if matching.len() > 0 {
        assert(keys.contains(matching[0]));
        let i = choose|i: int| 0 <= i < keys.len() && keys[i] == matching[0];
        assert(keys[i].public_key == text::trim(public_key));
    }
}

/// What the orchestrator signs.
pub open spec fn challenge_payload(
    challenge_id: Seq<char>,
    challenge: Seq<char>,
    issued_at: Seq<char>,
) -> Seq<char> {
    "elowen-orchestrator-registration-challenge\n"@ + challenge_id + "\n"@ + challenge + "\n"@
        + issued_at
}

/// What the orchestrator signs.
pub fn orchestrator_challenge_payload(
    challenge_id: &str,
    challenge: &str,
    issued_at: Timestamp,
) -> (out: String)
    ensures
        out@ == challenge_payload(challenge_id@, challenge@, issued_at.rfc3339()),
{
    let mut out = "elowen-orchestrator-registration-challenge\n".to_owned();
    out.append(challenge_id);
    out.append("\n");
    out.append(challenge);
    out.append("\n");
    out.append(&issued_at.to_rfc3339());
    out
}

/// What goes into the text that the device signs.
pub struct EdgeRegistrationPayloadInput<'a> {
    pub device_id: &'a str,
    pub name: &'a str,
    pub primary_flag: bool,
    pub challenge_id: &'a str,
    pub challenge: &'a str,
    pub challenge_issued_at: Timestamp,
    pub orchestrator_key_id: &'a str,
    pub orchestrator_public_key: &'a str,
    pub edge_public_key: &'a str,
}

/// What the device signs.
pub open spec fn registration_payload(
    device_id: Seq<char>,
    name: Seq<char>,
    primary_flag: bool,
    challenge_id: Seq<char>,
    challenge: Seq<char>,
    challenge_issued_at: Seq<char>,
    orchestrator_key_id: Seq<char>,
    orchestrator_public_key: Seq<char>,
    edge_public_key: Seq<char>,
) -> Seq<char> {
    "elowen-edge-registration\n"@ + device_id + "\n"@ + name + "\n"@ + text::bool_text(primary_flag)
        + "\n"@ + challenge_id + "\n"@ + challenge + "\n"@ + challenge_issued_at + "\n"@
        + orchestrator_key_id + "\n"@ + orchestrator_public_key + "\n"@ + edge_public_key
}

/// What the device signs.
pub fn edge_registration_payload(payload: EdgeRegistrationPayloadInput<'_>) -> (out: String)
    ensures
        out@ == registration_payload(
            payload.device_id@,
            payload.name@,
            payload.primary_flag,
            payload.challenge_id@,
            payload.challenge@,
            payload.challenge_issued_at.rfc3339(),
            payload.orchestrator_key_id@,
            payload.orchestrator_public_key@,
            payload.edge_public_key@,
        ),
{
    let mut out = "elowen-edge-registration\n".to_owned();
    out.append(payload.device_id);
    out.append("\n");
    out.append(payload.name);
    out.append("\n");
    out.append(text::flag_text(payload.primary_flag));
    out.append("\n");
    out.append(payload.challenge_id);
    out.append("\n");
    out.append(payload.challenge);
    out.append("\n");
    out.append(&payload.challenge_issued_at.to_rfc3339());
    out.append("\n");
    out.append(payload.orchestrator_key_id);
    out.append("\n");
    out.append(payload.orchestrator_public_key);
    out.append("\n");
    out.append(payload.edge_public_key);
    out
}

/// The keys that a device needs to prove itself.
pub struct TrustMaterial {
    pub trusted_keys: Vec<TrustedOrchestratorKeyMaterial>,
    pub edge_key: SigningKey,
    pub previous_key: Option<SigningKey>,
}

/// The contents of [`TrustMaterial`].
pub struct TrustMaterialView {
    pub trusted_keys: Seq<TrustedOrchestratorKeyMaterialView>,
    pub edge_key: Seq<u8>,
    pub previous_key: Option<Seq<u8>>,
}

impl View for TrustMaterial {
    type V = TrustMaterialView;

    open spec fn view(&self) -> TrustMaterialView {
        TrustMaterialView {
            trusted_keys: material_views(self.trusted_keys@),
            edge_key: self.edge_key@,
            previous_key: match self.previous_key {
                Some(key) => Some(key@),
                None => None,
            },
        }
    }
}

/// The former key of a device, if one is configured.
pub open spec fn decoded_previous_key(value: Option<Seq<char>>) -> Result<
    Option<Seq<u8>>,
    Seq<char>,
> {
    match value {
        None => Ok(None),
        Some(inner) => match decoded_signing_key(inner, "previous edge signing key"@) {
            Err(message) => Err(message),
            Ok(key) => Ok(Some(key)),
        },
    }
}

/// The keys that a device needs to prove itself. Without pinned keys no proof is owed; with them
/// a signing key is.
pub open spec fn material_of(config: EdgeConfig) -> Result<Option<TrustMaterialView>, Seq<char>> {
    let pinned = config::key_views(config.trusted_orchestrator_keys@);
    if pinned.len() == 0 {
        Ok(None)
    } else {
        match text::opt_text(config.edge_signing_key) {
            None => Err(
                "ELOWEN_EDGE_SIGNING_KEY is required when trusted orchestrator key pinning is configured"@,
            ),
            Some(secret) => match decoded_keys(pinned) {
                Err(message) => Err(message),
                Ok(trusted_keys) => match decoded_signing_key(secret, "edge signing key"@) {
                    Err(message) => Err(message),
                    Ok(edge_key) => match decoded_previous_key(
                        text::opt_text(config.previous_edge_signing_key),
                    ) {
                        Err(message) => Err(message),
                        Ok(previous_key) => Ok(
                            Some(TrustMaterialView { trusted_keys, edge_key, previous_key }),
                        ),
                    },
                },
            },
        }
    }
}

/// The keys that a device needs to prove itself.
pub fn prepare_trust_material(config: &EdgeConfig) -> (out: Result<
    Option<TrustMaterial>,
    EdgeError,
>)
    ensures
        (match out {
            Ok(Some(material)) => Ok::<Option<TrustMaterialView>, Seq<char>>(Some(material@)),
            Ok(None) => Ok::<Option<TrustMaterialView>, Seq<char>>(None),
            Err(error) => Err::<Option<TrustMaterialView>, Seq<char>>(error@),
        }) == material_of(*config),
{
    assert(config::key_views(config.trusted_orchestrator_keys@).len()
        == config.trusted_orchestrator_keys.len());
    if config.trusted_orchestrator_keys.len() == 0 {
        return Ok(None);
    }
    let secret = match &config.edge_signing_key {
        Some(secret) => secret,
        None => return Err(
            EdgeError::new(
                "ELOWEN_EDGE_SIGNING_KEY is required when trusted orchestrator key pinning is configured",
            ),
        ),
    };
    let trusted_keys = match parse_trusted_orchestrator_keys(&config.trusted_orchestrator_keys) {
        Ok(keys) => keys,
        Err(error) => return Err(error),
    };
    let edge_key = match decode_signing_key(secret, "edge signing key") {
        Ok(key) => key,
        Err(error) => return Err(error),
    };
    let previous_key = match &config.previous_edge_signing_key {
        None => None,
        Some(previous) => match decode_signing_key(previous, "previous edge signing key") {
            Ok(key) => Some(key),
            Err(error) => return Err(error),
        },
    };
    Ok(Some(TrustMaterial { trusted_keys, edge_key, previous_key }))
}

/// The key id under which the orchestrator is answered.
pub open spec fn answered_key_id(
    challenge: RegistrationChallengeResponse,
    pinned: Option<Seq<char>>,
) -> Seq<char> {
    match (text::opt_text(challenge.orchestrator_key_id), pinned) {
        (Some(id), _) => id,
        (None, Some(id)) => id,
        (None, None) => challenge.orchestrator_public_key@,
    }
}

/// What the device signs in answer to a challenge, under one of its keys.
pub open spec fn answer_payload(
    config: EdgeConfig,
    challenge: RegistrationChallengeResponse,
    pinned: Option<Seq<char>>,
    edge_public_key: Seq<char>,
) -> Seq<char> {
    registration_payload(
        config.device_id@,
        config.device_name@,
        config.primary_flag,
        challenge.challenge_id@,
        challenge.challenge@,
        challenge.issued_at.rfc3339(),
        answered_key_id(challenge, pinned),
        challenge.orchestrator_public_key@,
        edge_public_key,
    )
}

/// The public key of a private key in base64url.
pub open spec fn public_text(secret: Seq<u8>) -> Seq<char> {
    encoding::base64url_text(crypto::ed25519_public_key(secret))
}

/// The signature of the answer under a private key in base64url.
pub open spec fn answer_signature(
    config: EdgeConfig,
    challenge: RegistrationChallengeResponse,
    pinned: Option<Seq<char>>,
    secret: Seq<u8>,
) -> Seq<char> {
    encoding::base64url_text(
        crypto::ed25519_signature(
            secret,
            vstd::utf8::encode_utf8(
                answer_payload(config, challenge, pinned, public_text(secret)),
            ),
        ),
    )
}

/// The public keys of pinned keys.
pub open spec fn public_keys(keys: Seq<TrustedOrchestratorKeyMaterialView>) -> Seq<Seq<char>> {
    keys.map_values(|key: TrustedOrchestratorKeyMaterialView| key.public_key)
}

/// The key ids of those pinned keys that have one.
pub open spec fn key_ids(keys: Seq<TrustedOrchestratorKeyMaterialView>) -> Seq<Seq<char>>
    decreases keys.len(),
{
    if keys.len() == 0 {
        Seq::empty()
    } else {
        let before = key_ids(keys.drop_last());
        match keys.last().key_id {
            Some(id) => before.push(id),
            None => before,
        }
    }
}

/// A list, unless it is empty.
pub open spec fn unless_empty(list: Seq<Seq<char>>) -> Option<Seq<Seq<char>>> {
    if list.len() == 0 {
        None
    } else {
        Some(list)
    }
}

/// The proof that is made of the keys of a device and their signatures. The former key comes
/// with its public key and its signature.
pub open spec fn proof_of(
    challenge: RegistrationChallengeResponse,
    trusted_keys: Seq<TrustedOrchestratorKeyMaterialView>,
    pinned: Option<Seq<char>>,
    edge_public_key: Seq<char>,
    edge_signature: Seq<char>,
    previous: Option<(Seq<char>, Seq<char>)>,
) -> DeviceRegistrationTrustProofView {
    DeviceRegistrationTrustProofView {
        trusted_orchestrator_public_keys: public_keys(trusted_keys),
        trusted_orchestrator_key_ids: unless_empty(key_ids(trusted_keys)),
        orchestrator_key_id: answered_key_id(challenge, pinned),
        orchestrator_challenge_id: challenge.challenge_id@,
        orchestrator_challenge: challenge.challenge@,
        orchestrator_challenge_issued_at: challenge.issued_at,
        orchestrator_public_key: challenge.orchestrator_public_key@,
        orchestrator_signature: challenge.signature@,
        edge_public_key,
        edge_signature,
        registration_intent: match previous {
            Some(_) => RegistrationTrustIntent::Rotate,
            None => RegistrationTrustIntent::Enroll,
        },
        previous_edge_public_key: match previous {
            Some(pair) => Some(pair.0),
            None => None,
        },
        previous_edge_signature: match previous {
            Some(pair) => Some(pair.1),
            None => None,
        },
        reenrollment_kind: match previous {
            Some(_) => Some("replace_existing_device_key"@),
            None => None,
        },
    }
}

/// The contents of an optional pair of texts.
pub open spec fn opt_pair(pair: Option<(String, String)>) -> Option<(Seq<char>, Seq<char>)> {
    match pair {
        Some(inner) => Some((inner.0@, inner.1@)),
        None => None,
    }
}

/// The key id under which the orchestrator is answered.
fn key_id_to_answer(challenge: &RegistrationChallengeResponse, pinned: &Option<String>) -> (out:
    String)
    ensures
        out@ == answered_key_id(*challenge, text::opt_text(*pinned)),
{
    match (&challenge.orchestrator_key_id, pinned) {
        (Some(id), _) => id.clone(),
        (None, Some(id)) => id.clone(),
        (None, None) => challenge.orchestrator_public_key.clone(),
    }
}

/// The proof that is made of the keys of a device and their signatures.
pub fn assemble_trust_proof(
    challenge: &RegistrationChallengeResponse,
    trusted_keys: &Vec<TrustedOrchestratorKeyMaterial>,
    pinned: &Option<String>,
    edge_public_key: String,
    edge_signature: String,
    previous: Option<(String, String)>,
) -> (proof_out: DeviceRegistrationTrustProof)
    ensures
        proof_out@ == proof_of(
            *challenge,
            material_views(trusted_keys@),
            text::opt_text(*pinned),
            edge_public_key@,
            edge_signature@,
            opt_pair(previous),
        ),
{
    let ghost keys = material_views(trusted_keys@);
    let mut publics: Vec<String> = Vec::new();
    let mut ids: Vec<String> = Vec::new();
    let mut i: usize = 0;
    assert(keys.take(0) == Seq::<TrustedOrchestratorKeyMaterialView>::empty());
    assert(text::texts(publics@) == public_keys(keys.take(0)));
    assert(text::texts(ids@) == Seq::<Seq<char>>::empty());
    while i < trusted_keys.len()
        invariant
            i <= trusted_keys.len(),
            keys == material_views(trusted_keys@),
            text::texts(publics@) == public_keys(keys.take(i as int)),
            text::texts(ids@) == key_ids(keys.take(i as int)),
        decreases trusted_keys.len() - i,
    {
        assert(keys[i as int] == trusted_keys@[i as int]@);
        assert(keys.take(i + 1) == keys.take(i as int).push(keys[i as int]));
        assert(keys.take(i + 1).drop_last() == keys.take(i as int));
        push_text(&mut publics, trusted_keys[i].public_key.clone());
        match &trusted_keys[i].key_id {
            Some(id) => push_text(&mut ids, id.clone()),
            None => {},
        }
        i = i + 1;
        assert(text::texts(publics@) =~= public_keys(keys.take(i as int)));
    }
    assert(keys.take(i as int) == keys);
    assert(text::texts(ids@).len() == ids.len());
    let trusted_orchestrator_key_ids = if ids.len() == 0 {
        None
    } else {
        Some(ids)
    };
    let (registration_intent, previous_edge_public_key, previous_edge_signature, reenrollment_kind) =
        match previous {
        Some(pair) => (
            RegistrationTrustIntent::Rotate,
            Some(pair.0),
            Some(pair.1),
            Some("replace_existing_device_key".to_owned()),
        ),
        None => (RegistrationTrustIntent::Enroll, None, None, None),
    };
    DeviceRegistrationTrustProof {
        trusted_orchestrator_public_keys: publics,
        trusted_orchestrator_key_ids,
        orchestrator_key_id: key_id_to_answer(challenge, pinned),
        orchestrator_challenge_id: challenge.challenge_id.clone(),
        orchestrator_challenge: challenge.challenge.clone(),
        orchestrator_challenge_issued_at: challenge.issued_at,
        orchestrator_public_key: challenge.orchestrator_public_key.clone(),
        orchestrator_signature: challenge.signature.clone(),
        edge_public_key,
        edge_signature,
        registration_intent,
        previous_edge_public_key,
        previous_edge_signature,
        reenrollment_kind,
    }
}

/// The pinned key whose signature a challenge bears, or the message of its refusal.
pub open spec fn accepted_key(
    keys: Seq<TrustedOrchestratorKeyMaterialView>,
    challenge: RegistrationChallengeResponse,
) -> Result<TrustedOrchestratorKeyMaterialView, Seq<char>> {
    match selected_key(
        keys,
        challenge.orchestrator_public_key@,
        text::opt_text(challenge.orchestrator_key_id),
    ) {
        Err(message) => Err(message),
        Ok(key) => match decoded_signature(
            challenge.signature@,
            "orchestrator challenge signature"@,
        ) {
            Err(message) => Err(message),
            Ok(signature) => signed_key(
                key,
                crypto::ed25519_verifies(
                    key.verifying_key,
                    vstd::utf8::encode_utf8(
                        challenge_payload(
                            challenge.challenge_id@,
                            challenge.challenge@,
                            challenge.issued_at.rfc3339(),
                        ),
                    ),
                    signature,
                ),
            ),
        },
    }
}

/// A key, if the signature of the challenge verifies under it.
pub open spec fn signed_key(key: TrustedOrchestratorKeyMaterialView, verified: bool) -> Result<
    TrustedOrchestratorKeyMaterialView,
    Seq<char>,
> {
    if verified {
        Ok(key)
    } else {
        Err("failed to verify orchestrator registration challenge signature"@)
    }
}

/// The pinned key whose signature a challenge bears.
pub fn accept_challenge<'a>(
    keys: &'a Vec<TrustedOrchestratorKeyMaterial>,
    challenge: &RegistrationChallengeResponse,
) -> (out: Result<&'a TrustedOrchestratorKeyMaterial, EdgeError>)
    ensures
        (match out {
            Ok(key) => Ok::<TrustedOrchestratorKeyMaterialView, Seq<char>>(key@),
            Err(error) => Err::<TrustedOrchestratorKeyMaterialView, Seq<char>>(error@),
        }) == accepted_key(material_views(keys@), *challenge),
{
    let key = match select_trusted_orchestrator_key(keys, challenge) {
        Ok(key) => key,
        Err(error) => return Err(error),
    };
    let signature = match decode_signature(
        &challenge.signature,
        "orchestrator challenge signature",
    ) {
        Ok(signature) => signature,
        Err(error) => return Err(error),
    };
    let payload = orchestrator_challenge_payload(
        &challenge.challenge_id,
        &challenge.challenge,
        challenge.issued_at,
    );
    if key.verifying_key.verify(&payload, &signature) {
        Ok(key)
    } else {
        Err(EdgeError::new("failed to verify orchestrator registration challenge signature"))
    }
}

/// The answer of a device to a challenge: the proof of trust, or the message of its refusal.
pub open spec fn trust_proof(
    config: EdgeConfig,
    material: TrustMaterialView,
    challenge: RegistrationChallengeResponse,
) -> Result<DeviceRegistrationTrustProofView, Seq<char>> {
    match accepted_key(material.trusted_keys, challenge) {
        Err(message) => Err(message),
        Ok(key) => Ok(
            proof_of(
                challenge,
                material.trusted_keys,
                key.key_id,
                public_text(material.edge_key),
                answer_signature(config, challenge, key.key_id, material.edge_key),
                match material.previous_key {
                    Some(secret) => Some(
                        (
                            public_text(secret),
                            answer_signature(config, challenge, key.key_id, secret),
                        ),
                    ),
                    None => None,
                },
            ),
        ),
    }
}

/// A public key and a signature, both in base64url, that verify for a text.
pub open spec fn is_signed_by(
    secret: Seq<u8>,
    public_key: Seq<char>,
    payload: Seq<char>,
    signature: Seq<char>,
) -> bool {
    &&& encoding::base64url_bytes(public_key) == Some(crypto::ed25519_public_key(secret))
    &&& encoding::base64url_bytes(signature) matches Some(bytes)
    &&& crypto::ed25519_verifies(
        crypto::ed25519_public_key(secret),
        vstd::utf8::encode_utf8(payload),
        bytes,
    )
}

/// The public key of a private key, and the signature of the answer under it, in base64url.
fn sign_answer(
    config: &EdgeConfig,
    challenge: &RegistrationChallengeResponse,
    pinned: &Option<String>,
    key: &SigningKey,
) -> (out: (String, String))
    ensures
        out.0@ == public_text(key@),
        out.1@ == answer_signature(*config, *challenge, text::opt_text(*pinned), key@),
        is_signed_by(
            key@,
            out.0@,
            answer_payload(*config, *challenge, text::opt_text(*pinned), out.0@),
            out.1@,
        ),
{
    let public_key = encoding::base64url_encode(key.public_key().as_slice());
    let key_id = key_id_to_answer(challenge, pinned);
    let payload = edge_registration_payload(
        EdgeRegistrationPayloadInput {
            device_id: &config.device_id,
            name: &config.device_name,
            primary_flag: config.primary_flag,
            challenge_id: &challenge.challenge_id,
            challenge: &challenge.challenge,
            challenge_issued_at: challenge.issued_at,
            orchestrator_key_id: &key_id,
            orchestrator_public_key: &challenge.orchestrator_public_key,
            edge_public_key: &public_key,
        },
    );
    let signature = encoding::base64url_encode(key.sign(&payload).as_slice());
    (public_key, signature)
}

/// The answer of a device to a challenge. It is given only to an orchestrator whose pinned key
/// signed the challenge, and every signature in it verifies under the public key beside it.
pub fn build_registration_trust_proof(
    config: &EdgeConfig,
    material: &TrustMaterial,
    challenge: &RegistrationChallengeResponse,
) -> (out: Result<DeviceRegistrationTrustProof, EdgeError>)
    ensures
        error::outcome(out) == trust_proof(*config, material@, *challenge),
        out matches Ok(answer) ==> {
            &&& accepted_key(material@.trusted_keys, *challenge) matches Ok(key)
            &&& is_signed_by(
                material@.edge_key,
                answer.edge_public_key@,
                answer_payload(*config, *challenge, key.key_id, answer.edge_public_key@),
                answer.edge_signature@,
            )
            &&& material@.previous_key matches Some(secret) ==> {
                &&& answer.previous_edge_public_key matches Some(public_key)
                &&& answer.previous_edge_signature matches Some(signature)
                &&& is_signed_by(
                    secret,
                    public_key@,
                    answer_payload(*config, *challenge, key.key_id, public_key@),
                    signature@,
                )
            }
        },
{
    let key = match accept_challenge(&material.trusted_keys, challenge) {
        Ok(key) => key,
        Err(error) => return Err(error),
    };
    let (edge_public_key, edge_signature) = sign_answer(
        config,
        challenge,
        &key.key_id,
        &material.edge_key,
    );
    let previous = match &material.previous_key {
        Some(previous_key) => Some(sign_answer(config, challenge, &key.key_id, previous_key)),
        None => None,
    };
    Ok(
        assemble_trust_proof(
            challenge,
            &material.trusted_keys,
            &key.key_id,
            edge_public_key,
            edge_signature,
            previous,
        ),
    )
}

/// A device replaces its key exactly where a former key is configured, and then the proof binds
/// both keys.
pub proof fn rotation_binds_both_keys(
    config: EdgeConfig,
    material: TrustMaterialView,
    challenge: RegistrationChallengeResponse,
)
    ensures
        trust_proof(config, material, challenge) matches Ok(answer) ==> {
            &&& answer.registration_intent is Rotate <==> material.previous_key is Some
            &&& answer.previous_edge_public_key is Some <==> material.previous_key is Some
            &&& answer.previous_edge_signature is Some <==> material.previous_key is Some
            &&& answer.reenrollment_kind is Some <==> material.previous_key is Some
            &&& answer.edge_public_key == public_text(material.edge_key)
            &&& material.previous_key matches Some(secret) ==> answer.previous_edge_public_key
                == Some(public_text(secret))
        },
{
}

/// Where the device is registered.
pub fn registration_url(api_url: &str, device_id: &str) -> (out: String)
    ensures
        out@ == api_url@ + "/api/v1/devices/"@ + device_id@,
{
    let mut out = api_url.to_owned();
    out.append("/api/v1/devices/");
    out.append(device_id);
    out
}

/// Where a challenge is asked for.
pub fn challenge_url(api_url: &str) -> (out: String)
    ensures
        out@ == api_url@ + "/api/v1/trust/registration-challenge"@,
{
    let mut out = api_url.to_owned();
    out.append("/api/v1/trust/registration-challenge");
    out
}

/// The registration of a device.
pub open spec fn registration_request(
    config: EdgeConfig,
    discovered_repos: Seq<Seq<char>>,
    repositories: Seq<DeviceRepositoryView>,
    trust: Option<DeviceRegistrationTrustProofView>,
) -> RegisterDeviceRequestView {
    RegisterDeviceRequestView {
        name: config.device_name@,
        primary_flag: config.primary_flag,
        allowed_repos: text::texts(config.allowed_repos@),
        allowed_repo_roots: text::texts(config.allowed_repo_roots@),
        hidden_repos: text::texts(config.hidden_repos@),
        excluded_repo_paths: text::texts(config.excluded_repo_paths@),
        discovered_repos,
        repositories,
        capabilities: text::texts(config.capabilities@),
        trust,
    }
}

/// The registration of a device, with what was found on it and the proof of trust it owes.
pub fn register_device(
    config: &EdgeConfig,
    discovered_repos: Vec<String>,
    repositories: Vec<DeviceRepository>,
    trust: Option<DeviceRegistrationTrustProof>,
) -> (request: RegisterDeviceRequest)
    ensures
        request@ == registration_request(
            *config,
            text::texts(discovered_repos@),
            discovery::repository_views(repositories@),
            match trust {
                Some(inner) => Some(inner@),
                None => None,
            },
        ),
        request.trust == trust,
        request.discovered_repos == discovered_repos,
        request.repositories == repositories,
{
    RegisterDeviceRequest {
        name: config.device_name.clone(),
        primary_flag: config.primary_flag,
        allowed_repos: text::copy_list(&config.allowed_repos),
        allowed_repo_roots: text::copy_list(&config.allowed_repo_roots),
        hidden_repos: text::copy_list(&config.hidden_repos),
        excluded_repo_paths: text::copy_list(&config.excluded_repo_paths),
        discovered_repos,
        repositories,
        capabilities: text::copy_list(&config.capabilities),
        trust,
    }
}

/// What an answer of the orchestrator comes to: a failure is reported with its status and body.
pub open spec fn response_check(
    what: Seq<char>,
    success: bool,
    status: Seq<char>,
    body: Seq<char>,
) -> Result<(), Seq<char>> {
    if success {
        Ok(())
    } else {
        Err(what + " failed with status "@ + status + ": "@ + body)
    }
}

/// What an answer of the orchestrator comes to.
fn check_response(what: &str, success: bool, status: &str, body: &str) -> (out: Result<
    (),
    EdgeError,
>)
    ensures
        error::verdict(out) == response_check(what@, success, status@, body@),
{
    if success {
        return Ok(());
    }
    let mut message = what.to_owned();
    message.append(" failed with status ");
    message.append(status);
    message.append(": ");
    message.append(body);
    Err(EdgeError::of(message))
}

/// What the answer to a registration comes to.
pub fn registration_result(success: bool, status: &str, body: &str) -> (out: Result<(), EdgeError>)
    ensures
        error::verdict(out) == response_check("device registration"@, success, status@, body@),
{
    check_response("device registration", success, status, body)
}

/// What the answer to the request for a challenge comes to.
pub fn fetch_registration_challenge(success: bool, status: &str, body: &str) -> (out: Result<
    (),
    EdgeError,
>)
    ensures
        error::verdict(out) == response_check(
            "registration challenge request"@,
            success,
            status@,
            body@,
        ),
{
    check_response("registration challenge request", success, status, body)
}

/// A request repeats the configuration and what was found on the device, entry by entry, and hands
/// the proof of trust on: it carries one exactly where one was made, and then that one.
pub proof fn requests_hand_everything_on(
    config: EdgeConfig,
    discovered_repos: Seq<Seq<char>>,
    repositories: Seq<DeviceRepositoryView>,
    trust: Option<DeviceRegistrationTrustProofView>,
)
    ensures
        ({
            let request = registration_request(config, discovered_repos, repositories, trust);
            &&& request.name == config.device_name@
            &&& request.primary_flag == config.primary_flag
            &&& repeats(request.allowed_repos, config.allowed_repos@)
            &&& repeats(request.allowed_repo_roots, config.allowed_repo_roots@)
            &&& repeats(request.hidden_repos, config.hidden_repos@)
            &&& repeats(request.excluded_repo_paths, config.excluded_repo_paths@)
            &&& repeats(request.capabilities, config.capabilities@)
            &&& request.discovered_repos == discovered_repos
            &&& request.repositories == repositories
            &&& request.trust is Some <==> trust is Some
            &&& trust matches Some(made) ==> {
                &&& request.trust matches Some(sent)
                &&& sent.trusted_orchestrator_public_keys == made.trusted_orchestrator_public_keys
                &&& sent.trusted_orchestrator_key_ids == made.trusted_orchestrator_key_ids
                &&& sent.orchestrator_key_id == made.orchestrator_key_id
                &&& sent.orchestrator_challenge_id == made.orchestrator_challenge_id
                &&& sent.orchestrator_challenge == made.orchestrator_challenge
                &&& sent.orchestrator_challenge_issued_at == made.orchestrator_challenge_issued_at
                &&& sent.orchestrator_public_key == made.orchestrator_public_key
                &&& sent.orchestrator_signature == made.orchestrator_signature
                &&& sent.edge_public_key == made.edge_public_key
                &&& sent.edge_signature == made.edge_signature
                &&& sent.registration_intent == made.registration_intent
                &&& sent.previous_edge_public_key == made.previous_edge_public_key
                &&& sent.previous_edge_signature == made.previous_edge_signature
                &&& sent.reenrollment_kind == made.reenrollment_kind
            }
        }),
{
}

/// A list that repeats another, entry by entry.
pub open spec fn repeats(list: Seq<Seq<char>>, other: Seq<String>) -> bool {
    &&& list.len() == other.len()
    &&& forall|i: int| 0 <= i < list.len() ==> #[trigger] list[i] == other[i]@
}

/// A device that pins orchestrator keys registers with the answer to the challenge it was given: the
/// request names that challenge, repeats what the orchestrator sent with it, and is signed with the
/// key of the configuration.
pub proof fn pinned_devices_answer_the_challenge(
    config: EdgeConfig,
    challenge: RegistrationChallengeResponse,
    discovered_repos: Seq<Seq<char>>,
    repositories: Seq<DeviceRepositoryView>,
)
    ensures
        config.trusted_orchestrator_keys@.len() > 0 ==> !(material_of(config) matches Ok(None)),
        material_of(config) matches Ok(Some(material)) ==> {
            trust_proof(config, material, challenge) matches Ok(answer) ==> {
                let request = registration_request(
                    config,
                    discovered_repos,
                    repositories,
                    Some(answer),
                );
                &&& request.trust matches Some(sent)
                &&& sent.orchestrator_challenge_id == challenge.challenge_id@
                &&& sent.orchestrator_challenge == challenge.challenge@
                &&& sent.orchestrator_challenge_issued_at == challenge.issued_at
                &&& sent.orchestrator_public_key == challenge.orchestrator_public_key@
                &&& sent.orchestrator_signature == challenge.signature@
                &&& sent.edge_public_key == encoding::base64url_text(
                    crypto::ed25519_public_key(material.edge_key),
                )
                &&& text::opt_text(config.edge_signing_key) matches Some(secret)
                &&& encoding::base64url_bytes(text::trim(secret)) == Some(material.edge_key)
            }
        },
{
    let pinned = config::key_views(config.trusted_orchestrator_keys@);
    assert(pinned.len() == config.trusted_orchestrator_keys@.len());
}

/// An answer names the keys that are pinned and the challenge it answers. It enrols a device, or
/// replaces its key exactly where a former key is configured. It speaks of the key id of the
/// challenge, else of that of the pinned key, else of the public key itself.
pub proof fn answers_repeat_the_challenge(
    config: EdgeConfig,
    material: TrustMaterialView,
    challenge: RegistrationChallengeResponse,
)
    ensures
        trust_proof(config, material, challenge) is Ok <==> accepted_key(
            material.trusted_keys,
            challenge,
        ) is Ok,
        trust_proof(config, material, challenge) matches Ok(answer) ==> {
            &&& answer.trusted_orchestrator_public_keys.len() == material.trusted_keys.len()
            &&& forall|i: int|
                0 <= i < material.trusted_keys.len()
                    ==> answer.trusted_orchestrator_public_keys[i] == (
                #[trigger] material.trusted_keys[i]).public_key
            &&& forall|i: int|
                0 <= i < material.trusted_keys.len() && (
                #[trigger] material.trusted_keys[i]).key_id is Some
                    ==> answer.trusted_orchestrator_key_ids is Some
                    && answer.trusted_orchestrator_key_ids->0.contains(
                    material.trusted_keys[i].key_id->0,
                )
            &&& answer.trusted_orchestrator_key_ids matches Some(ids) ==> ids.len() > 0
                && ids.len() <= material.trusted_keys.len()
            &&& answer.orchestrator_challenge_id == challenge.challenge_id@
            &&& answer.orchestrator_challenge == challenge.challenge@
            &&& answer.orchestrator_challenge_issued_at == challenge.issued_at
            &&& answer.orchestrator_public_key == challenge.orchestrator_public_key@
            &&& answer.orchestrator_signature == challenge.signature@
            &&& challenge.orchestrator_key_id matches Some(id) ==> answer.orchestrator_key_id
                == id@
            &&& challenge.orchestrator_key_id is None ==> {
                &&& accepted_key(material.trusted_keys, challenge) matches Ok(key)
                &&& key.key_id matches Some(id) ==> answer.orchestrator_key_id == id
                &&& key.key_id is None ==> answer.orchestrator_key_id
                    == challenge.orchestrator_public_key@
            }
            &&& material.previous_key is Some ==> answer.registration_intent is Rotate
                && answer.reenrollment_kind == Some("replace_existing_device_key"@)
            &&& material.previous_key is None ==> answer.registration_intent is Enroll
                && answer.reenrollment_kind is None && answer.previous_edge_public_key is None
                && answer.previous_edge_signature is None
            &&& answer.edge_signature == encoding::base64url_text(
                crypto::ed25519_signature(
                    material.edge_key,
                    vstd::utf8::encode_utf8(
                        registration_payload(
                            config.device_id@,
                            config.device_name@,
                            config.primary_flag,
                            challenge.challenge_id@,
                            challenge.challenge@,
                            challenge.issued_at.rfc3339(),
                            answer.orchestrator_key_id,
                            challenge.orchestrator_public_key@,
                            answer.edge_public_key,
                        ),
                    ),
                ),
            )
            &&& material.previous_key matches Some(former) ==> {
                &&& answer.previous_edge_public_key matches Some(former_public_key)
                &&& former_public_key == encoding::base64url_text(
                    crypto::ed25519_public_key(former),
                )
                &&& answer.previous_edge_signature == Some(
                    encoding::base64url_text(
                        crypto::ed25519_signature(
                            former,
                            vstd::utf8::encode_utf8(
                                registration_payload(
                                    config.device_id@,
                                    config.device_name@,
                                    config.primary_flag,
                                    challenge.challenge_id@,
                                    challenge.challenge@,
                                    challenge.issued_at.rfc3339(),
                                    answer.orchestrator_key_id,
                                    challenge.orchestrator_public_key@,
                                    former_public_key,
                                ),
                            ),
                        ),
                    ),
                )
            }
        },
{
    lemma_key_ids_are_kept(material.trusted_keys);
}

/// Every key id is kept.
proof fn lemma_key_ids_are_kept(keys: Seq<TrustedOrchestratorKeyMaterialView>)
    ensures
        forall|i: int|
            0 <= i < keys.len() && (#[trigger] keys[i]).key_id is Some ==> key_ids(keys).contains(
                keys[i].key_id->0,
            ),
        key_ids(keys).len() <= keys.len(),
    decreases keys.len(),
{
    if keys.len() > 0 {
        let shorter = keys.drop_last();
        let before = key_ids(shorter);
        let all = key_ids(keys);
        lemma_key_ids_are_kept(shorter);
        assert forall|i: int|
            0 <= i < keys.len() && (#[trigger] keys[i]).key_id is Some implies all.contains(
            keys[i].key_id->0,
        ) by {
            let id = keys[i].key_id->0;
            if i < shorter.len() {
                assert(shorter[i].key_id is Some);
                assert(before.contains(id));
                let at = choose|at: int| 0 <= at < before.len() && before[at] == id;
                assert(all[at] == id);
            } else {
                assert(all[all.len() - 1] == id);
            }
        }
    }
}

/// A challenge is accepted exactly where one pinned key matches it and its signature is that key's
/// over what the challenge says.
pub proof fn challenges_are_accepted_by_their_signature(
    keys: Seq<TrustedOrchestratorKeyMaterialView>,
    challenge: RegistrationChallengeResponse,
    i: int,
)
    requires
        0 <= i < keys.len(),
    ensures
        accepted_key(keys, challenge) matches Ok(key) ==> {
            &&& keys.contains(key)
            &&& key.public_key == text::trim(challenge.orchestrator_public_key@)
            &&& encoding::base64url_bytes(text::trim(challenge.signature@)) matches Some(signature)
            &&& signature.len() == 64
            &&& crypto::ed25519_verifies(
                key.verifying_key,
                vstd::utf8::encode_utf8(
                    challenge_payload(
                        challenge.challenge_id@,
                        challenge.challenge@,
                        challenge.issued_at.rfc3339(),
                    ),
                ),
                signature,
            )
        },
        ({
            &&& keys[i].public_key == text::trim(challenge.orchestrator_public_key@)
            &&& challenge.orchestrator_key_id is None || keys[i].key_id is None || keys[i].key_id
                == Some(text::trim(challenge.orchestrator_key_id->0@))
            &&& forall|j: int|
                0 <= j < keys.len() && j != i ==> (#[trigger] keys[j]).public_key != text::trim(
                    challenge.orchestrator_public_key@,
                )
            &&& encoding::base64url_bytes(text::trim(challenge.signature@)) matches Some(signature)
            &&& signature.len() == 64
            &&& crypto::ed25519_verifies(
                keys[i].verifying_key,
                vstd::utf8::encode_utf8(
                    challenge_payload(
                        challenge.challenge_id@,
                        challenge.challenge@,
                        challenge.issued_at.rfc3339(),
                    ),
                ),
                signature,
            )
        }) ==> accepted_key(keys, challenge) == Ok::<
            TrustedOrchestratorKeyMaterialView,
            Seq<char>,
        >(keys[i]),
{
    let public_key = challenge.orchestrator_public_key@;
    let key_id = text::opt_text(challenge.orchestrator_key_id);
    only_pinned_keys_are_accepted(keys, public_key, key_id);
    if key_matches(keys[i], public_key, key_id) && forall|j: int|
        0 <= j < keys.len() && j != i ==> (#[trigger] keys[j]).public_key != text::trim(
            public_key,
        ) {
        assert forall|j: int| 0 <= j < keys.len() && j != i implies !key_matches(
            #[trigger] keys[j],
            public_key,
            key_id,
        ) by {}
        lemma_one_match(keys, public_key, key_id, i);
    }
}

/// Where one key matches, it is the one that is found.
proof fn lemma_one_match(
    keys: Seq<TrustedOrchestratorKeyMaterialView>,
    public_key: Seq<char>,
    key_id: Option<Seq<char>>,
    i: int,
)
    requires
        0 <= i < keys.len(),
        key_matches(keys[i], public_key, key_id),
        forall|j: int|
            0 <= j < keys.len() && j != i ==> !key_matches(#[trigger] keys[j], public_key, key_id),
    ensures
        matching_keys(keys, public_key, key_id) == seq![keys[i]],
    decreases keys.len(),
{
    let shorter = keys.drop_last();
    if i == keys.len() - 1 {
        lemma_no_match(shorter, public_key, key_id);
        assert(matching_keys(keys, public_key, key_id) =~= seq![keys[i]]);
    } else {
        lemma_one_match(shorter, public_key, key_id, i);
    }
}

/// Where no key matches, none is found.
proof fn lemma_no_match(
    keys: Seq<TrustedOrchestratorKeyMaterialView>,
    public_key: Seq<char>,
    key_id: Option<Seq<char>>,
)
    requires
        forall|j: int|
            0 <= j < keys.len() ==> !key_matches(#[trigger] keys[j], public_key, key_id),
    ensures
        matching_keys(keys, public_key, key_id) == Seq::<
            TrustedOrchestratorKeyMaterialView,
        >::empty(),
    decreases keys.len(),
{
    if keys.len() > 0 {
        lemma_no_match(keys.drop_last(), public_key, key_id);
    }
}

/// A challenge that two pinned keys match is refused.
pub proof fn ambiguous_keys_are_refused(
    keys: Seq<TrustedOrchestratorKeyMaterialView>,
    public_key: Seq<char>,
    i: int,
    j: int,
)
    requires
        0 <= i < j < keys.len(),
        keys[i].public_key == text::trim(public_key),
        keys[j].public_key == text::trim(public_key),
    ensures
        selected_key(keys, public_key, None) is Err,
{
    lemma_matches_are_counted(keys, public_key, i, j);
}

/// Two keys that match are both found.
proof fn lemma_matches_are_counted(
    keys: Seq<TrustedOrchestratorKeyMaterialView>,
    public_key: Seq<char>,
    i: int,
    j: int,
)
    requires
        0 <= i <= j < keys.len(),
        keys[i].public_key == text::trim(public_key),
        keys[j].public_key == text::trim(public_key),
    ensures
        matching_keys(keys, public_key, None).len() >= if i < j {
            2int
        } else {
            1
        },
    decreases keys.len(),
{
    let shorter = keys.drop_last();
    if j < shorter.len() {
        lemma_matches_are_counted(shorter, public_key, i, j);
    } else if i < shorter.len() {
        lemma_matches_are_counted(shorter, public_key, i, i);
    }
}

/// The material of trust is that of the configuration: there is some exactly where keys are pinned,
/// and then every pinned key is in it, with its id, its trimmed text and the bytes that this stands
/// for. The secrets are the bytes of the configured ones.
pub proof fn material_is_that_of_the_configuration(config: EdgeConfig)
    ensures
        material_of(config) matches Ok(None) <==> config.trusted_orchestrator_keys@.len() == 0,
        config.trusted_orchestrator_keys@.len() > 0 && config.edge_signing_key is None
            ==> material_of(config) is Err,
        material_of(config) matches Ok(Some(material)) ==> {
            let pinned = config.trusted_orchestrator_keys@;
            &&& material.trusted_keys.len() == pinned.len()
            &&& forall|i: int|
                0 <= i < pinned.len() ==> {
                    &&& (#[trigger] material.trusted_keys[i]).key_id == text::opt_text(
                        pinned[i].key_id,
                    )
                    &&& material.trusted_keys[i].public_key == text::trim(pinned[i].public_key@)
                    &&& encoding::base64url_bytes(text::trim(pinned[i].public_key@)) == Some(
                        material.trusted_keys[i].verifying_key,
                    )
                    &&& material.trusted_keys[i].verifying_key.len() == 32
                    &&& crypto::ed25519_is_public_key(material.trusted_keys[i].verifying_key)
                }
            &&& config.edge_signing_key matches Some(secret)
            &&& encoding::base64url_bytes(text::trim(secret@)) == Some(material.edge_key)
            &&& material.edge_key.len() == 32
            &&& material.previous_key is Some <==> config.previous_edge_signing_key is Some
            &&& config.previous_edge_signing_key matches Some(former) ==> encoding::base64url_bytes(
                text::trim(former@),
            ) == material.previous_key && material.previous_key->0.len() == 32
        },
{
    let pinned = config::key_views(config.trusted_orchestrator_keys@);
    assert(pinned.len() == config.trusted_orchestrator_keys@.len());
    lemma_keys_are_decoded(pinned);
    assert forall|i: int| 0 <= i < pinned.len() implies #[trigger] pinned[i]
        == config.trusted_orchestrator_keys@[i]@ by {}
}

/// Every pinned key is decoded.
proof fn lemma_keys_are_decoded(keys: Seq<TrustedOrchestratorKeyView>)
    ensures
        decoded_keys(keys) matches Ok(decoded) ==> {
            &&& decoded.len() == keys.len()
            &&& forall|i: int|
                0 <= i < keys.len() ==> {
                    &&& (#[trigger] decoded[i]).key_id == keys[i].key_id
                    &&& decoded[i].public_key == text::trim(keys[i].public_key)
                    &&& encoding::base64url_bytes(text::trim(keys[i].public_key)) == Some(
                        decoded[i].verifying_key,
                    )
                    &&& decoded[i].verifying_key.len() == 32
                    &&& crypto::ed25519_is_public_key(decoded[i].verifying_key)
                }
        },
    decreases keys.len(),
{
    if keys.len() > 0 {
        lemma_keys_are_decoded(keys.drop_last());
    }
}

/// A key or a signature is read exactly where its text is base64url of the right length; anything
/// else is refused under its name.
pub proof fn keys_are_read_from_their_text(value: Seq<char>, label: Seq<char>)
    ensures
        ({
            let bytes = encoding::base64url_bytes(text::trim(value));
            &&& decoded_signing_key(value, label) is Ok <==> bytes is Some && bytes->0.len() == 32
            &&& decoded_signing_key(value, label) matches Ok(key) ==> bytes == Some(key)
            &&& decoded_signing_key(value, label) matches Err(message) ==> label.is_prefix_of(
                message,
            )
            &&& decoded_verifying_key(value, label) is Ok <==> bytes is Some && bytes->0.len() == 32
                && crypto::ed25519_is_public_key(bytes->0)
            &&& decoded_verifying_key(value, label) matches Ok(key) ==> bytes == Some(key)
            &&& decoded_verifying_key(value, label) matches Err(message) ==> label.is_prefix_of(
                message,
            )
            &&& decoded_signature(value, label) is Ok <==> bytes is Some && bytes->0.len() == 64
            &&& decoded_signature(value, label) matches Ok(signature) ==> bytes == Some(signature)
            &&& decoded_signature(value, label) matches Err(message) ==> label.is_prefix_of(message)
        }),
{
    assert forall|tail: Seq<char>| label.is_prefix_of(#[trigger] (label + tail)) by {
        assert((label + tail).subrange(0, label.len() as int) =~= label);
    }
}

/// A pair of keys is that of its secret.
pub proof fn keypairs_are_those_of_their_secret(secret: Seq<u8>)
    ensures
        keypair_of(secret).private_key == encoding::base64url_text(secret),
        keypair_of(secret).public_key == encoding::base64url_text(
            crypto::ed25519_public_key(secret),
        ),
        keypair_of(secret).public_key == public_text(secret),
{
}

/// What stands for yes, in any case and with white space around it.
pub proof fn yes_is_one_of_four_words(value: Seq<char>)
    ensures
        is_affirmative(value) <==> seq!["1"@, "true"@, "yes"@, "on"@].contains(
            text::lower(text::trim(value)),
        ),
        text::trim(value).len() == 0 ==> !is_affirmative(value),
{
    text::lower_case_keeps_everything_else(text::trim(value));
    let words = seq!["1"@, "true"@, "yes"@, "on"@];
    assert(words[0] == "1"@ && words[1] == "true"@ && words[2] == "yes"@ && words[3] == "on"@);
    reveal_strlit("1");
    reveal_strlit("true");
    reveal_strlit("yes");
    reveal_strlit("on");
}

/// An answer of the orchestrator is a failure exactly where it says so, and the message then tells
/// what was asked, the status and the body.
pub proof fn failed_answers_are_told(
    what: Seq<char>,
    success: bool,
    status: Seq<char>,
    body: Seq<char>,
)
    ensures
        response_check(what, success, status, body) is Ok <==> success,
        response_check(what, success, status, body) matches Err(message) ==> {
            &&& (what + " failed with status "@ + status).is_prefix_of(message)
            &&& (": "@ + body).is_suffix_of(message)
        },
{
    if let Err(message) = response_check(what, success, status, body) {
        let head = what + " failed with status "@ + status;
        let tail = ": "@ + body;
        assert(message =~= head + tail);
        assert(message.subrange(0, head.len() as int) =~= head);
        assert(message.subrange(message.len() - tail.len(), message.len() as int) =~= tail);
    }
}

/// What the orchestrator signs binds the challenge: line by line, it is the purpose, the id, the
/// challenge and its time.
pub proof fn challenge_payloads_bind_their_parts(
    challenge_id: Seq<char>,
    challenge: Seq<char>,
    issued_at: Seq<char>,
)
    requires
        !challenge_id.contains('\n'),
        !challenge.contains('\n'),
        !issued_at.contains('\n'),
    ensures
        text::split_on(challenge_payload(challenge_id, challenge, issued_at), '\n') == seq![
            "elowen-orchestrator-registration-challenge"@,
            challenge_id,
            challenge,
            issued_at,
        ],
{
    let purpose = "elowen-orchestrator-registration-challenge"@;
    lemma_purposes_are_lines();
    let lines = seq![purpose, challenge_id, challenge, issued_at];
    assert(challenge_payload(challenge_id, challenge, issued_at) =~= text::joined(
        lines,
        seq!['\n'],
    )) by {
        reveal_with_fuel(text::joined, 5);
        assert(lines.drop_last() =~= seq![purpose, challenge_id, challenge]);
        assert(lines.drop_last().drop_last() =~= seq![purpose, challenge_id]);
        assert(lines.drop_last().drop_last().drop_last() =~= seq![purpose]);
    }
    lemma_joined_lines_are_split(lines);
}

/// What the device signs binds its registration: line by line, it is the purpose, the device and
/// its name, whether it is the primary one, the challenge, and all the keys.
pub proof fn registration_payloads_bind_their_parts(
    device_id: Seq<char>,
    name: Seq<char>,
    primary_flag: bool,
    challenge_id: Seq<char>,
    challenge: Seq<char>,
    challenge_issued_at: Seq<char>,
    orchestrator_key_id: Seq<char>,
    orchestrator_public_key: Seq<char>,
    edge_public_key: Seq<char>,
)
    requires
        !device_id.contains('\n'),
        !name.contains('\n'),
        !challenge_id.contains('\n'),
        !challenge.contains('\n'),
        !challenge_issued_at.contains('\n'),
        !orchestrator_key_id.contains('\n'),
        !orchestrator_public_key.contains('\n'),
        !edge_public_key.contains('\n'),
    ensures
        text::split_on(
            registration_payload(
                device_id,
                name,
                primary_flag,
                challenge_id,
                challenge,
                challenge_issued_at,
                orchestrator_key_id,
                orchestrator_public_key,
                edge_public_key,
            ),
            '\n',
        ) == seq![
            "elowen-edge-registration"@,
            device_id,
            name,
            if primary_flag {
                "true"@
            } else {
                "false"@
            },
            challenge_id,
            challenge,
            challenge_issued_at,
            orchestrator_key_id,
            orchestrator_public_key,
            edge_public_key,
        ],
{
    lemma_purposes_are_lines();
    let l1 = seq!["elowen-edge-registration"@];
    let l2 = l1.push(device_id);
    let l3 = l2.push(name);
    let l4 = l3.push(text::bool_text(primary_flag));
    let l5 = l4.push(challenge_id);
    let l6 = l5.push(challenge);
    let l7 = l6.push(challenge_issued_at);
    let l8 = l7.push(orchestrator_key_id);
    let l9 = l8.push(orchestrator_public_key);
    let lines = l9.push(edge_public_key);
    let feed = seq!['\n'];
    assert(text::joined(l1, feed) == l1[0]);
    assert(l2.drop_last() =~= l1 && l3.drop_last() =~= l2 && l4.drop_last() =~= l3);
    assert(l5.drop_last() =~= l4 && l6.drop_last() =~= l5 && l7.drop_last() =~= l6);
    assert(l8.drop_last() =~= l7 && l9.drop_last() =~= l8 && lines.drop_last() =~= l9);
    assert(text::joined(l2, feed) == text::joined(l1, feed) + feed + device_id);
    assert(text::joined(l3, feed) == text::joined(l2, feed) + feed + name);
    assert(text::joined(l4, feed) == text::joined(l3, feed) + feed + text::bool_text(primary_flag));
    assert(text::joined(l5, feed) == text::joined(l4, feed) + feed + challenge_id);
    assert(text::joined(l6, feed) == text::joined(l5, feed) + feed + challenge);
    assert(text::joined(l7, feed) == text::joined(l6, feed) + feed + challenge_issued_at);
    assert(text::joined(l8, feed) == text::joined(l7, feed) + feed + orchestrator_key_id);
    assert(text::joined(l9, feed) == text::joined(l8, feed) + feed + orchestrator_public_key);
    assert(text::joined(lines, feed) == text::joined(l9, feed) + feed + edge_public_key);
    let payload = registration_payload(
        device_id,
        name,
        primary_flag,
        challenge_id,
        challenge,
        challenge_issued_at,
        orchestrator_key_id,
        orchestrator_public_key,
        edge_public_key,
    );
    assert("elowen-edge-registration\n"@ =~= l1[0] + feed);
    assert(payload == text::joined(lines, feed));
    lemma_joined_lines_are_split(lines);
}

/// The purposes of the signed texts are lines of their own.
proof fn lemma_purposes_are_lines()
    ensures
        "elowen-orchestrator-registration-challenge\n"@
            == "elowen-orchestrator-registration-challenge"@ + seq!['\n'],
        "elowen-edge-registration\n"@ == "elowen-edge-registration"@ + seq!['\n'],
        "\n"@ == seq!['\n'],
        !"elowen-orchestrator-registration-challenge"@.contains('\n'),
        !"elowen-edge-registration"@.contains('\n'),
        !"true"@.contains('\n'),
        !"false"@.contains('\n'),
{
    reveal_strlit("elowen-orchestrator-registration-challenge\n");
    reveal_strlit("elowen-orchestrator-registration-challenge");
    reveal_strlit("elowen-edge-registration\n");
    reveal_strlit("elowen-edge-registration");
    reveal_strlit("\n");
    reveal_strlit("true");
    reveal_strlit("false");
    assert("elowen-orchestrator-registration-challenge\n"@
        =~= "elowen-orchestrator-registration-challenge"@ + seq!['\n']);
    assert("elowen-edge-registration\n"@ =~= "elowen-edge-registration"@ + seq!['\n']);
    assert("\n"@ =~= seq!['\n']);
}

/// Lines that were joined are parted again.
proof fn lemma_joined_lines_are_split(lines: Seq<Seq<char>>)
    requires
        lines.len() > 0,
        forall|i: int| 0 <= i < lines.len() ==> !(#[trigger] lines[i]).contains('\n'),
    ensures
        text::split_on(text::joined(lines, seq!['\n']), '\n') == lines,
    decreases lines.len(),
{
    if lines.len() == 1 {
        text::separators_part_the_text(lines[0], Seq::empty(), '\n');
        assert(seq![lines[0]] =~= lines);
    } else {
        let before = lines.drop_last();
        assert forall|i: int| 0 <= i < before.len() implies !(#[trigger] before[i]).contains(
            '\n',
        ) by {
            assert(before[i] == lines[i]);
        }
        lemma_joined_lines_are_split(before);
        assert(!lines[lines.len() - 1].contains('\n'));
        text::separators_part_the_text(lines.last(), Seq::empty(), '\n');
        text::separators_part_the_text(
            text::joined(before, seq!['\n']),
            lines.last(),
            '\n',
        );
        assert(before + seq![lines.last()] =~= lines);
    }
}

/// A key or a signature that cannot be read says what is wrong with it.
pub proof fn unreadable_keys_say_what_is_wrong(value: Seq<char>, label: Seq<char>)
    ensures
        ({
            let bytes = encoding::base64url_bytes(text::trim(value));
            &&& decoded_signing_key(value, label) matches Err(message) ==> message == label
                + if bytes is None {
                " is not valid base64url"@
            } else {
                " must decode to a 32-byte Ed25519 private key"@
            }
            &&& decoded_verifying_key(value, label) matches Err(message) ==> message == label
                + if bytes is None {
                " is not valid base64url"@
            } else if bytes->0.len() != 32 {
                " must decode to a 32-byte Ed25519 public key"@
            } else {
                " is not a valid Ed25519 key"@
            }
            &&& decoded_signature(value, label) matches Err(message) ==> message == label
                + if bytes is None {
                " is not valid base64url"@
            } else {
                " must decode to a 64-byte Ed25519 signature"@
            }
        }),
{
}

/// A challenge that is refused says why: a key that is unknown or not the only one, a signature that
/// cannot be read, or one that is not that of the key.
pub proof fn refused_challenges_say_why(
    keys: Seq<TrustedOrchestratorKeyMaterialView>,
    challenge: RegistrationChallengeResponse,
)
    ensures
        accepted_key(keys, challenge) matches Err(message) ==> {
            let matching = matching_keys(
                keys,
                challenge.orchestrator_public_key@,
                text::opt_text(challenge.orchestrator_key_id),
            );
            let signature = decoded_signature(
                challenge.signature@,
                "orchestrator challenge signature"@,
            );
            &&& matching.len() == 0 ==> message
                == "registration challenge was signed by an unexpected orchestrator public key"@
            &&& matching.len() > 1 ==> message
                == "registration challenge matched multiple trusted orchestrator keys; fix duplicate configuration"@
            &&& matching.len() == 1 && signature is Err ==> message == signature->Err_0
            &&& matching.len() == 1 && signature is Ok ==> message
                == "failed to verify orchestrator registration challenge signature"@
        },
{
}

/// A device that pins keys must have one of its own, and what cannot be read is named as what it is.
pub proof fn pinning_needs_a_key_of_its_own(config: EdgeConfig, key: TrustedOrchestratorKeyView)
    ensures
        config.trusted_orchestrator_keys@.len() > 0 && config.edge_signing_key is None
            ==> material_of(config) == Err::<Option<TrustMaterialView>, Seq<char>>(
            "ELOWEN_EDGE_SIGNING_KEY is required when trusted orchestrator key pinning is configured"@,
        ),
        decoded_key(key) matches Err(message) ==> "orchestrator public key"@.is_prefix_of(message),
        decoded_key(key) is Ok <==> decoded_verifying_key(
            key.public_key,
            "orchestrator public key"@,
        ) is Ok,
{
    let pinned = config::key_views(config.trusted_orchestrator_keys@);
    assert(pinned.len() == config.trusted_orchestrator_keys@.len());
    keys_are_read_from_their_text(key.public_key, "orchestrator public key"@);
}

/// What is shown of a value is what it holds, field by field.
pub proof fn what_is_held_is_shown(
    trust_keypair: TrustKeypair,
    trusted_orchestrator_key_material: TrustedOrchestratorKeyMaterial,
    trust_material: TrustMaterial,
)
    ensures
        trust_keypair@.private_key == trust_keypair.private_key@,
        trust_keypair@.public_key == trust_keypair.public_key@,
        trusted_orchestrator_key_material@.key_id == text::opt_text(trusted_orchestrator_key_material.key_id),
        trusted_orchestrator_key_material@.public_key == trusted_orchestrator_key_material.public_key@,
        trusted_orchestrator_key_material@.verifying_key == trusted_orchestrator_key_material.verifying_key@,
        trust_material@.trusted_keys == material_views(trust_material.trusted_keys@),
        trust_material@.edge_key == trust_material.edge_key@,
        trust_material@.previous_key == (match trust_material.previous_key { Some(key) => Some(key@), None => None, }),
{
}

} // verus!
