//! The status that the runtime writes down for its operator.

use vstd::prelude::*;

use crate::config::EdgeConfig;
use crate::text;
use crate::timestamp::Timestamp;

verus! {

/// What the runtime last knew of itself.
#[derive(Clone, Debug, PartialEq, Eq)]
pub struct EdgeStatus {
    pub config_path: String,
    pub process_started_at: Timestamp,
    pub updated_at: Timestamp,
    pub device_id: String,
    pub runner_mode: String,
    pub nats_status: String,
    pub last_registration_at: Option<Timestamp>,
    pub last_registration_error: Option<String>,
    pub last_registration_error_code: Option<String>,
    pub service_status: Option<String>,
}

/// The contents of an [`EdgeStatus`].
pub struct EdgeStatusView {
    pub config_path: Seq<char>,
    pub process_started_at: Timestamp,
    pub updated_at: Timestamp,
    pub device_id: Seq<char>,
    pub runner_mode: Seq<char>,
    pub nats_status: Seq<char>,
    pub last_registration_at: Option<Timestamp>,
    pub last_registration_error: Option<Seq<char>>,
    pub last_registration_error_code: Option<Seq<char>>,
    pub service_status: Option<Seq<char>>,
}

impl View for EdgeStatus {
    type V = EdgeStatusView;

    open spec fn view(&self) -> EdgeStatusView {
        EdgeStatusView {
            config_path: self.config_path@,
            process_started_at: self.process_started_at,
            updated_at: self.updated_at,
            device_id: self.device_id@,
            runner_mode: self.runner_mode@,
            nats_status: self.nats_status@,
            last_registration_at: self.last_registration_at,
            last_registration_error: text::opt_text(self.last_registration_error),
            last_registration_error_code: text::opt_text(self.last_registration_error_code),
            service_status: text::opt_text(self.service_status),
        }
    }
}

/// How jobs are run: by Codex where a command is configured, else simulated.
pub open spec fn runner_mode(codex_command: Option<Seq<char>>) -> Seq<char> {
    match codex_command {
        Some(_) => "codex-cli"@,
        None => "simulated"@,
    }
}

/// How jobs are run.
pub fn runner_mode_of(codex_command: &Option<String>) -> (out: &'static str)
    ensures
        out@ == runner_mode(text::opt_text(*codex_command)),
{
    match codex_command {
        Some(_) => "codex-cli",
        None => "simulated",
    }
}

/// The status at the start of the process.
pub open spec fn status_at_start(config: EdgeConfig, now: Timestamp) -> EdgeStatusView {
    EdgeStatusView {
        config_path: config.config_path@,
        process_started_at: now,
        updated_at: now,
        device_id: config.device_id@,
        runner_mode: runner_mode(text::opt_text(config.codex_command)),
        nats_status: "starting"@,
        last_registration_at: None,
        last_registration_error: None,
        last_registration_error_code: None,
        service_status: None,
    }
}

/// A status with the state of the message bus noted.
pub open spec fn with_nats(
    status: EdgeStatusView,
    nats_status: Seq<char>,
    now: Timestamp,
) -> EdgeStatusView {
    EdgeStatusView { nats_status, updated_at: now, ..status }
}

/// A status with a registration noted that succeeded.
pub open spec fn with_success(status: EdgeStatusView, now: Timestamp) -> EdgeStatusView {
    EdgeStatusView {
        last_registration_at: Some(now),
        last_registration_error: None,
        last_registration_error_code: None,
        updated_at: now,
        ..status
    }
}

/// A status with a registration noted that failed.
pub open spec fn with_failure(
    status: EdgeStatusView,
    error: Seq<char>,
    code: Option<Seq<char>>,
    now: Timestamp,
) -> EdgeStatusView {
    EdgeStatusView {
        last_registration_error: Some(error),
        last_registration_error_code: code,
        updated_at: now,
        ..status
    }
}

impl EdgeStatus {
    /// The status at the start of the process.
    pub fn new(config: &EdgeConfig, now: Timestamp) -> (status: EdgeStatus)
        ensures
            status@ == status_at_start(*config, now),
    {
        EdgeStatus {
            config_path: config.config_path.clone(),
            process_started_at: now,
            updated_at: now,
            device_id: config.device_id.clone(),
            runner_mode: runner_mode_of(&config.codex_command).to_owned(),
            nats_status: "starting".to_owned(),
            last_registration_at: None,
            last_registration_error: None,
            last_registration_error_code: None,
            service_status: None,
        }
    }

    /// Notes the state of the message bus.
    pub fn mark_nats(&mut self, status: String, now: Timestamp)
        ensures
            final(self)@ == with_nats(old(self)@, status@, now),
    {
        self.nats_status = status;
        self.updated_at = now;
    }

    /// Notes a registration that succeeded. An earlier failure is forgotten.
    pub fn mark_registration_success(&mut self, now: Timestamp)
        ensures
            final(self)@ == with_success(old(self)@, now),
    {
        self.last_registration_at = Some(now);
        self.last_registration_error = None;
        self.last_registration_error_code = None;
        self.updated_at = now;
    }

    /// Notes a registration that failed. When the last one succeeded is kept.
    pub fn mark_registration_error(&mut self, error: String, code: Option<String>, now: Timestamp)
        ensures
            final(self)@ == with_failure(old(self)@, error@, text::opt_text(code), now),
    {
        self.last_registration_error = Some(error);
        self.last_registration_error_code = code;
        self.updated_at = now;
    }
}

/// The codes of the trust errors that the orchestrator reports.
pub open spec fn trust_codes() -> Seq<Seq<char>> {
    seq![
        "device_trust_revoked"@,
        "edge_key_revoked"@,
        "orchestrator_signer_retired"@,
        "orchestrator_signer_untrusted"@,
        "rotation_previous_key_mismatch"@,
        "rotation_previous_signature_invalid"@,
        "trusted_registration_required"@,
    ]
}

/// The first of a number of codes that a message names.
pub open spec fn code_named(message: Seq<char>, codes: Seq<Seq<char>>) -> Option<Seq<char>>
    decreases codes.len(),
{
    if codes.len() == 0 {
        None
    } else if text::contains_text(message, codes[0]) {
        Some(codes[0])
    } else {
        code_named(message, codes.drop_first())
    }
}

/// The codes of the trust errors that the orchestrator reports.
fn known_trust_codes() -> (out: Vec<String>)
    ensures
        text::texts(out@) == trust_codes(),
{
    let mut out: Vec<String> = Vec::new();
    text::push_text(&mut out, "device_trust_revoked".to_owned());
    text::push_text(&mut out, "edge_key_revoked".to_owned());
    text::push_text(&mut out, "orchestrator_signer_retired".to_owned());
    text::push_text(&mut out, "orchestrator_signer_untrusted".to_owned());
    text::push_text(&mut out, "rotation_previous_key_mismatch".to_owned());
    text::push_text(&mut out, "rotation_previous_signature_invalid".to_owned());
    text::push_text(&mut out, "trusted_registration_required".to_owned());
    assert(text::texts(out@) == trust_codes());
    out
}

/// The code of the trust error that a failed registration names, if it names one.
pub fn trust_error_code(message: &str) -> (code: Option<String>)
    ensures
        text::opt_text(code) == code_named(message@, trust_codes()),
{
    let codes = known_trust_codes();
    let ghost given = text::texts(codes@);
    let mut i: usize = 0;
    assert(given.skip(0) == given);
    while i < codes.len()
        invariant
            i <= codes.len(),
            given == text::texts(codes@),
            given == trust_codes(),
            code_named(message@, given) == code_named(message@, given.skip(i as int)),
        decreases codes.len() - i,
    {
        assert(given.skip(i as int)[0] == codes@[i as int]@);
        assert(given.skip(i as int).drop_first() == given.skip(i + 1));
        if text::has_text(message, &codes[i]) {
            return Some(codes[i].clone());
        }
        i = i + 1;
    }
    None
}

/// What an operator is told to do about a trust error.
pub open spec fn guidance_for(code: Seq<char>) -> Option<Seq<char>> {
    if code == "device_trust_revoked"@ || code == "edge_key_revoked"@ {
        Some(
            "stop this edge identity and use the orchestrator admin UI to clear revocation or re-enroll with fresh key material"@,
        )
    } else if code == "orchestrator_signer_retired"@ || code == "orchestrator_signer_untrusted"@ {
        Some("update orchestrator-trust.json with the active signer bundle"@)
    } else if code == "rotation_previous_key_mismatch"@ || code
        == "rotation_previous_signature_invalid"@ {
        Some(
            "restore [trust.previous_edge_signing_key] during the rotation window, then confirm rotation in the orchestrator admin UI"@,
        )
    } else if code == "trusted_registration_required"@ {
        Some(
            "configure the trust bundle and edge signing-key provider before starting the service"@,
        )
    } else {
        None
    }
}

/// What an operator is told to do about a trust error.
pub fn registration_guidance(code: &str) -> (out: Option<&'static str>)
    ensures
        text::opt_str(out) == guidance_for(code@),
{
    if text::text_eq(code, "device_trust_revoked") || text::text_eq(code, "edge_key_revoked") {
        Some(
            "stop this edge identity and use the orchestrator admin UI to clear revocation or re-enroll with fresh key material",
        )
    } else if text::text_eq(code, "orchestrator_signer_retired") || text::text_eq(
        code,
        "orchestrator_signer_untrusted",
    ) {
        Some("update orchestrator-trust.json with the active signer bundle")
    } else if text::text_eq(code, "rotation_previous_key_mismatch") || text::text_eq(
        code,
        "rotation_previous_signature_invalid",
    ) {
        Some(
            "restore [trust.previous_edge_signing_key] during the rotation window, then confirm rotation in the orchestrator admin UI",
        )
    } else if text::text_eq(code, "trusted_registration_required") {
        Some("configure the trust bundle and edge signing-key provider before starting the service")
    } else {
        None
    }
}

/// For every trust error that is recognised the operator is told what to do.
pub proof fn recognised_errors_have_guidance(message: Seq<char>)
    ensures
        code_named(message, trust_codes()) matches Some(code) ==> guidance_for(code) is Some,
{
    lemma_named_codes_are_listed(message, trust_codes());
}

/// A code that a message names is one of those that were looked for.
proof fn lemma_named_codes_are_listed(message: Seq<char>, codes: Seq<Seq<char>>)
    ensures
        code_named(message, codes) matches Some(code) ==> exists|i: int|
            0 <= i < codes.len() && #[trigger] codes[i] == code,
    decreases codes.len(),
{
    if codes.len() > 0 {
        let rest = codes.drop_first();
        lemma_named_codes_are_listed(message, rest);
        match code_named(message, rest) {
            Some(code) => {
                let i = choose|i: int| 0 <= i < rest.len() && #[trigger] rest[i] == code;
                assert(codes[i + 1] == code);
            },
            None => {},
        }
        assert(codes[0] == codes[0]);
    }
}

/// A registration error is recognised exactly where its message names a known code, and the code is
/// then one that the message names, the first of them in the list.
pub proof fn recognised_codes_are_named(message: Seq<char>, i: int)
    requires
        0 <= i < trust_codes().len(),
    ensures
        code_named(message, trust_codes()) matches Some(code) ==> {
            &&& trust_codes().contains(code)
            &&& text::contains_text(message, code)
        },
        text::contains_text(message, trust_codes()[i]) ==> code_named(
            message,
            trust_codes(),
        ) is Some,
        text::contains_text(message, trust_codes()[i]) && (forall|j: int|
            0 <= j < i ==> !text::contains_text(message, #[trigger] trust_codes()[j]))
            ==> code_named(message, trust_codes()) == Some(trust_codes()[i]),
{
    lemma_first_code_is_named(message, trust_codes(), i);
}

/// The first code that a message names is the one that is found.
proof fn lemma_first_code_is_named(message: Seq<char>, codes: Seq<Seq<char>>, i: int)
    requires
        0 <= i < codes.len(),
    ensures
        code_named(message, codes) matches Some(code) ==> codes.contains(code)
            && text::contains_text(message, code),
        text::contains_text(message, codes[i]) ==> code_named(message, codes) is Some,
        text::contains_text(message, codes[i]) && (forall|j: int|
            0 <= j < i ==> !text::contains_text(message, #[trigger] codes[j])) ==> code_named(
            message,
            codes,
        ) == Some(codes[i]),
    decreases codes.len(),
{
    assert(codes.contains(codes[0]));
    let rest = codes.drop_first();
    if rest.len() > 0 {
        let k = if i > 0 {
            i - 1
        } else {
            0
        };
        lemma_first_code_is_named(message, rest, k);
        assert(rest[k] == codes[k + 1]);
        if let Some(code) = code_named(message, rest) {
            let at = choose|at: int| 0 <= at < rest.len() && rest[at] == code;
            assert(codes[at + 1] == code);
        }
        if forall|j: int| 0 <= j < i ==> !text::contains_text(message, #[trigger] codes[j]) {
            assert forall|j: int| 0 <= j < k implies !text::contains_text(
                message,
                #[trigger] rest[j],
            ) by {
                assert(rest[j] == codes[j + 1]);
            }
            if i > 0 {
                assert(!text::contains_text(message, codes[0]));
            }
        }
    } else {
        assert(code_named(message, rest) is None);
    }
}

/// The codes that are known, and no others, have guidance. Codes of one kind share it, and it differs
/// from that of the other kinds.
pub proof fn guidance_goes_by_the_kind_of_code(code: Seq<char>)
    ensures
        guidance_for(code) is Some <==> trust_codes().contains(code),
        guidance_for("device_trust_revoked"@) == guidance_for("edge_key_revoked"@),
        guidance_for("orchestrator_signer_retired"@) == guidance_for(
            "orchestrator_signer_untrusted"@,
        ),
        guidance_for("rotation_previous_key_mismatch"@) == guidance_for(
            "rotation_previous_signature_invalid"@,
        ),
        guidance_for("edge_key_revoked"@) != guidance_for("orchestrator_signer_retired"@),
        guidance_for("edge_key_revoked"@) != guidance_for("rotation_previous_key_mismatch"@),
        guidance_for("edge_key_revoked"@) != guidance_for("trusted_registration_required"@),
        guidance_for("orchestrator_signer_retired"@) != guidance_for(
            "rotation_previous_key_mismatch"@,
        ),
        guidance_for("orchestrator_signer_retired"@) != guidance_for(
            "trusted_registration_required"@,
        ),
        guidance_for("rotation_previous_key_mismatch"@) != guidance_for(
            "trusted_registration_required"@,
        ),
{
    let codes = trust_codes();
    assert(codes[0] == "device_trust_revoked"@ && codes[1] == "edge_key_revoked"@);
    assert(codes[2] == "orchestrator_signer_retired"@);
    assert(codes[3] == "orchestrator_signer_untrusted"@);
    assert(codes[4] == "rotation_previous_key_mismatch"@);
    assert(codes[5] == "rotation_previous_signature_invalid"@);
    assert(codes[6] == "trusted_registration_required"@);
    reveal_strlit("device_trust_revoked");
    reveal_strlit("edge_key_revoked");
    reveal_strlit("orchestrator_signer_retired");
    reveal_strlit("orchestrator_signer_untrusted");
    reveal_strlit("rotation_previous_key_mismatch");
    reveal_strlit("rotation_previous_signature_invalid");
    reveal_strlit("trusted_registration_required");
    let first = "device_trust_revoked"@;
    assert(first[0] == 'd');
    assert("edge_key_revoked"@[0] == 'e');
    assert("orchestrator_signer_retired"@[0] == 'o' && "orchestrator_signer_untrusted"@[0] == 'o');
    assert("rotation_previous_key_mismatch"@[0] == 'r');
    assert("rotation_previous_signature_invalid"@[0] == 'r');
    assert("trusted_registration_required"@[0] == 't');
    reveal_strlit("update orchestrator-trust.json with the active signer bundle");
    reveal_strlit(
        "stop this edge identity and use the orchestrator admin UI to clear revocation or re-enroll with fresh key material",
    );
    reveal_strlit(
        "restore [trust.previous_edge_signing_key] during the rotation window, then confirm rotation in the orchestrator admin UI",
    );
    reveal_strlit(
        "configure the trust bundle and edge signing-key provider before starting the service",
    );
    assert("update orchestrator-trust.json with the active signer bundle"@[0] == 'u');
    assert("stop this edge identity and use the orchestrator admin UI to clear revocation or re-enroll with fresh key material"@[0]
        == 's');
    assert("restore [trust.previous_edge_signing_key] during the rotation window, then confirm rotation in the orchestrator admin UI"@[0]
        == 'r');
    assert("configure the trust bundle and edge signing-key provider before starting the service"@[0]
        == 'c');
}

/// Jobs are simulated exactly where no command is configured.
pub proof fn runners_go_by_the_command(codex_command: Option<Seq<char>>)
    ensures
        codex_command is Some ==> runner_mode(codex_command) == "codex-cli"@,
        codex_command is None ==> runner_mode(codex_command) == "simulated"@,
{
}

/// What the operator is told to do goes by the code.
pub proof fn operators_are_told_what_to_do()
    ensures
        guidance_for("edge_key_revoked"@) == Some(
            "stop this edge identity and use the orchestrator admin UI to clear revocation or re-enroll with fresh key material"@,
        ),
        guidance_for("orchestrator_signer_retired"@) == Some(
            "update orchestrator-trust.json with the active signer bundle"@,
        ),
        guidance_for("rotation_previous_key_mismatch"@) == Some(
            "restore [trust.previous_edge_signing_key] during the rotation window, then confirm rotation in the orchestrator admin UI"@,
        ),
        guidance_for("trusted_registration_required"@) == Some(
            "configure the trust bundle and edge signing-key provider before starting the service"@,
        ),
{
    reveal_strlit("device_trust_revoked");
    reveal_strlit("edge_key_revoked");
    reveal_strlit("orchestrator_signer_retired");
    reveal_strlit("orchestrator_signer_untrusted");
    reveal_strlit("rotation_previous_key_mismatch");
    reveal_strlit("rotation_previous_signature_invalid");
    reveal_strlit("trusted_registration_required");
    assert("edge_key_revoked"@[0] == 'e' && "device_trust_revoked"@[0] == 'd');
    assert("orchestrator_signer_retired"@[0] == 'o' && "orchestrator_signer_untrusted"@[0] == 'o');
    assert("rotation_previous_key_mismatch"@[0] == 'r');
    assert("rotation_previous_signature_invalid"@[0] == 'r');
    assert("trusted_registration_required"@[0] == 't');
}

/// What is shown of a value is what it holds, field by field.
pub proof fn what_is_held_is_shown(
    edge_status: EdgeStatus,
)
    ensures
        edge_status@.config_path == edge_status.config_path@,
        edge_status@.process_started_at == edge_status.process_started_at,
        edge_status@.updated_at == edge_status.updated_at,
        edge_status@.device_id == edge_status.device_id@,
        edge_status@.runner_mode == edge_status.runner_mode@,
        edge_status@.nats_status == edge_status.nats_status@,
        edge_status@.last_registration_at == edge_status.last_registration_at,
        edge_status@.last_registration_error == text::opt_text(edge_status.last_registration_error),
        edge_status@.last_registration_error_code == text::opt_text(edge_status.last_registration_error_code),
        edge_status@.service_status == text::opt_text(edge_status.service_status),
{
}

/// A process starts without a registration, under the identity of its configuration. From then on its
/// identity and its start stay as they are, whatever is noted, and what was noted last tells its
/// time.
pub proof fn identities_stay_as_they_are(
    config: EdgeConfig,
    status: EdgeStatusView,
    word: Seq<char>,
    code: Option<Seq<char>>,
    now: Timestamp,
)
    ensures
        ({
            let first = status_at_start(config, now);
            &&& first.config_path == config.config_path@
            &&& first.device_id == config.device_id@
            &&& first.process_started_at == now
            &&& first.updated_at == now
            &&& first.runner_mode == runner_mode(text::opt_text(config.codex_command))
            &&& first.nats_status == "starting"@
            &&& first.last_registration_at is None
            &&& first.last_registration_error is None
            &&& first.last_registration_error_code is None
            &&& first.service_status is None
        }),
        keeps_identity(status, with_nats(status, word, now), now),
        keeps_identity(status, with_success(status, now), now),
        keeps_identity(status, with_failure(status, word, code, now), now),
{
}

/// A status that differs from an earlier one in no part of its identity, and was noted at a time.
pub open spec fn keeps_identity(
    before: EdgeStatusView,
    after: EdgeStatusView,
    now: Timestamp,
) -> bool {
    &&& after.config_path == before.config_path
    &&& after.device_id == before.device_id
    &&& after.process_started_at == before.process_started_at
    &&& after.runner_mode == before.runner_mode
    &&& after.service_status == before.service_status
    &&& after.updated_at == now
}

/// A registration that succeeds is noted with its time, and an earlier failure is forgotten. One that
/// fails is noted with its error and its code, and when the last one succeeded is kept. Neither
/// touches the message bus, nor does that touch them.
pub proof fn failures_are_forgotten_after_a_success(
    status: EdgeStatusView,
    word: Seq<char>,
    code: Option<Seq<char>>,
    now: Timestamp,
    later: Timestamp,
)
    ensures
        ({
            let failed = with_failure(status, word, code, now);
            let good = with_success(failed, later);
            let noted = with_nats(status, word, now);
            &&& failed.last_registration_error == Some(word)
            &&& failed.last_registration_error_code == code
            &&& failed.last_registration_at == status.last_registration_at
            &&& failed.nats_status == status.nats_status
            &&& good.last_registration_error is None
            &&& good.last_registration_error_code is None
            &&& good.last_registration_at == Some(later)
            &&& good.nats_status == status.nats_status
            &&& good == with_success(status, later)
            &&& noted.nats_status == word
            &&& noted.last_registration_at == status.last_registration_at
            &&& noted.last_registration_error == status.last_registration_error
            &&& noted.last_registration_error_code == status.last_registration_error_code
        }),
{
}

} // verus!
