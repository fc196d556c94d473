//! The coordinator: whether a request may run, which commands it runs, and
//! what the caller and the remote authority are told at the end.

use crate::auth::{seconds_as_unsigned, validate, verdict_on_payload};
use crate::auth::{AuthError, Claims, ClaimsView, Field, Verdict};
use crate::catalog::{ActionDefinition, ActionView, Catalog};
use crate::engine::{all_succeeded, spawned, transcript_of, Run, StepView};
use crate::outside::{clock_rfc3339, clock_seconds, random_uuid, verified_payload};
use crate::report::{artifacts_of, create_artifacts, delivered, delivery_log, delivery_log_line};
use crate::report::{execution_report, report_result, report_rollback_result, rollback_report};
use crate::report::{Artifact, ArtifactView, Delivery, Report, ReportKind, ReportView};
use crate::text::{optional_view, same_text};
use vstd::prelude::*;

verus! {

/// The platform that the helper runs on, as far as the coordinator cares.
#[derive(Debug, Clone, Copy, PartialEq, Eq, Structural)]
pub enum Host {
    /// macOS: only actions made for it may run.
    Macos,
    /// Any other platform: the action's platform is not looked at.
    Other,
}

impl Host {
    /// The host that an operating system's name stands for.
    pub fn from_os_name(name: &str) -> (host: Host)
        ensures
            host == if name@ == "macos"@ {
                Host::Macos
            } else {
                Host::Other
            },
    {
        if same_text(name, "macos") {
            Host::Macos
        } else {
            Host::Other
        }
    }
}

/// Why a request was turned away.  Nothing has run when one of these comes.
#[derive(Debug, Clone, PartialEq, Eq)]
pub enum EngineError {
    /// The identifier is not in the catalog.
    ActionNotFound { action_id: String },
    /// The credential is not genuine or not complete.
    AuthFailure { reason: String },
    /// The credential is genuine and its time is over.
    TokenExpired,
    /// The action cannot be undone.
    NotReversible { action_id: String },
    /// The action is not made for this platform.
    IncompatiblePlatform { action_id: String },
}

/// What the coordinator decides on a request.
pub enum Decision {
    NotFound,
    NotReversible,
    Refused,
    Expired,
    Incompatible,
    Granted { action: ActionView, claims: ClaimsView },
}

/// The decision on a request to run `action_id` forward.  The catalog is
/// asked first, then the credential, then the platform.
pub open spec fn execute_decision(
    catalog: Map<Seq<char>, ActionView>,
    host: Host,
    action_id: Seq<char>,
    payload: Option<Map<Seq<char>, Field>>,
    now: u64,
) -> Decision {
    if !catalog.dom().contains(action_id) {
        Decision::NotFound
    } else {
        match verdict_on_payload(payload, now) {
            Verdict::Refused => Decision::Refused,
            Verdict::Expired => Decision::Expired,
            Verdict::Admitted(claims) => if host == Host::Macos && catalog[action_id].os
                != "macos"@ {
                Decision::Incompatible
            } else {
                Decision::Granted { action: catalog[action_id], claims }
            },
        }
    }
}

/// The decision on a request to undo `action_id`.  The catalog is asked
/// first, then whether the action can be undone, then the credential.
pub open spec fn rollback_decision(
    catalog: Map<Seq<char>, ActionView>,
    action_id: Seq<char>,
    payload: Option<Map<Seq<char>, Field>>,
    now: u64,
) -> Decision {
    if !catalog.dom().contains(action_id) {
        Decision::NotFound
    } else if !catalog[action_id].can_roll_back() {
        Decision::NotReversible
    } else {
        match verdict_on_payload(payload, now) {
            Verdict::Refused => Decision::Refused,
            Verdict::Expired => Decision::Expired,
            Verdict::Admitted(claims) => Decision::Granted { action: catalog[action_id], claims },
        }
    }
}

/// The decision on a request that came to the execute endpoint.  The
/// credential is asked first, so that nothing is told of the catalog to a
/// caller without a genuine credential in time; then the catalog.  The
/// platform is not looked at.
pub open spec fn endpoint_decision(
    catalog: Map<Seq<char>, ActionView>,
    action_id: Seq<char>,
    payload: Option<Map<Seq<char>, Field>>,
    now: u64,
) -> Decision {
    match verdict_on_payload(payload, now) {
        Verdict::Refused => Decision::Refused,
        Verdict::Expired => Decision::Expired,
        Verdict::Admitted(claims) => if catalog.dom().contains(action_id) {
            Decision::Granted { action: catalog[action_id], claims }
        } else {
            Decision::NotFound
        },
    }
}

/// The commands that a decision lets the caller start, forward or back:
/// those of the granted action that name a program, and none where nothing
/// was granted.
pub open spec fn released(decision: Decision, forward: bool) -> Seq<Seq<char>> {
    match decision {
        Decision::Granted { action, .. } => spawned(
            if forward {
                action.commands
            } else {
                action.rollback_commands
            },
        ),
        _ => Seq::empty(),
    }
}

/// Which way a session runs its action.
#[derive(Debug, Clone, PartialEq, Eq)]
pub enum Operation {
    /// Forward.
    Execute,
    /// Back, under the identifier that the forward run was given.
    Rollback { rollback_id: String },
}

/// A request that was granted: the action, the claims it came with, and the
/// run of the commands that it may start.
pub struct Session {
    pub action: ActionDefinition,
    pub claims: Claims,
    pub operation: Operation,
    pub token: String,
    pub run: Run,
}

/// The decision that a result of the coordinator reports.
pub open spec fn decision_of(result: Result<Session, EngineError>) -> Decision {
    match result {
        Ok(session) => Decision::Granted { action: session.action@, claims: session.claims@ },
        Err(EngineError::ActionNotFound { .. }) => Decision::NotFound,
        Err(EngineError::AuthFailure { .. }) => Decision::Refused,
        Err(EngineError::TokenExpired) => Decision::Expired,
        Err(EngineError::NotReversible { .. }) => Decision::NotReversible,
        Err(EngineError::IncompatiblePlatform { .. }) => Decision::Incompatible,
    }
}

/// The error names the requested action, where it names one.
pub open spec fn error_names(error: EngineError, action_id: Seq<char>) -> bool {
    match error {
        EngineError::ActionNotFound { action_id: named } => named@ == action_id,
        EngineError::NotReversible { action_id: named } => named@ == action_id,
        EngineError::IncompatiblePlatform { action_id: named } => named@ == action_id,
        _ => true,
    }
}

impl Session {
    /// The session has started nothing yet and runs the forward commands of
    /// its action.
    pub open spec fn fresh_execute(&self, token: Seq<char>) -> bool {
        &&& self.operation is Execute
        &&& self.token@ == token
        &&& self.run.well_formed()
        &&& self.run.commands() == self.action@.commands
        &&& self.run.recorded() == Seq::<StepView>::empty()
    }

    /// The session has started nothing yet and runs the rollback commands of
    /// its action, under `rollback_id`.
    pub open spec fn fresh_rollback(&self, token: Seq<char>, rollback_id: Seq<char>) -> bool {
        &&& self.operation matches Operation::Rollback { rollback_id: id }
        &&& id@ == rollback_id
        &&& self.token@ == token
        &&& self.run.well_formed()
        &&& self.run.commands() == self.action@.rollback_commands
        &&& self.run.recorded() == Seq::<StepView>::empty()
    }
}

/// The words of a refusal that blames the credential open by saying so.
pub open spec fn blames_credential(result: Result<Session, EngineError>) -> bool {
    result matches Err(EngineError::AuthFailure { reason }) ==> "Invalid token: "@.is_prefix_of(
        reason@,
    )
}

fn auth_error(error: AuthError) -> (r: EngineError)
    ensures
        error is TokenExpired ==> r is TokenExpired,
        error matches AuthError::AuthFailure { reason } ==> r == (EngineError::AuthFailure {
            reason,
        }),
{
    match error {
        AuthError::AuthFailure { reason } => EngineError::AuthFailure { reason },
        AuthError::TokenExpired => EngineError::TokenExpired,
    }
}

/// Decides on a request to run `action_id` forward at the moment `now`.  An
/// identifier that the catalog lacks is turned away before the credential is
/// looked at; a credential is held against the clock before anything runs.
/// The action and the scope that the credential names are read and not held
/// against the request.
pub fn authorize_execute(
    catalog: &Catalog,
    secret: &str,
    host: Host,
    action_id: &str,
    token: &str,
    now: u64,
) -> (r: Result<Session, EngineError>)
    requires
        catalog.well_formed(),
    ensures
        decision_of(r) == execute_decision(
            catalog@,
            host,
            action_id@,
            verified_payload(token@, secret@),
            now,
        ),
        r matches Ok(session) ==> session.fresh_execute(token@),
        r matches Err(error) ==> error_names(error, action_id@),
        blames_credential(r),
{
    let action = match catalog.get(action_id) {
        Some(action) => action.clone(),
        None => {
            return Err(EngineError::ActionNotFound { action_id: String::from_str(action_id) });
        },
    };
    let claims = match validate(token, secret, now) {
        Ok(claims) => claims,
        Err(error) => {
            return Err(auth_error(error));
        },
    };
    if host == Host::Macos && !same_text(action.os.as_str(), "macos") {
        return Err(EngineError::IncompatiblePlatform { action_id: String::from_str(action_id) });
    }
    let run = Run::new(&action.commands);
    Ok(
        Session {
            action,
            claims,
            operation: Operation::Execute,
            token: String::from_str(token),
            run,
        },
    )
}

/// Decides on a request to undo `action_id` at the moment `now`.  An action
/// that is not reversible, or has no rollback commands, is turned away
/// whatever the credential is.
pub fn authorize_rollback(
    catalog: &Catalog,
    secret: &str,
    action_id: &str,
    rollback_id: &str,
    token: &str,
    now: u64,
) -> (r: Result<Session, EngineError>)
    requires
        catalog.well_formed(),
    ensures
        decision_of(r) == rollback_decision(
            catalog@,
            action_id@,
            verified_payload(token@, secret@),
            now,
        ),
        r matches Ok(session) ==> session.fresh_rollback(token@, rollback_id@),
        r matches Err(error) ==> error_names(error, action_id@),
        blames_credential(r),
{
    let action = match catalog.get(action_id) {
        Some(action) => action.clone(),
        None => {
            return Err(EngineError::ActionNotFound { action_id: String::from_str(action_id) });
        },
    };
    if !action.can_roll_back() {
        return Err(EngineError::NotReversible { action_id: String::from_str(action_id) });
    }
    let claims = match validate(token, secret, now) {
        Ok(claims) => claims,
        Err(error) => {
            return Err(auth_error(error));
        },
    };
    let run = Run::new(&action.rollback_commands);
    Ok(
        Session {
            action,
            claims,
            operation: Operation::Rollback { rollback_id: String::from_str(rollback_id) },
            token: String::from_str(token),
            run,
        },
    )
}

/// Decides on a request that came to the execute endpoint at the moment
/// `now`.  The credential is validated before the catalog is asked: a caller
/// whose credential is not genuine, or is expired, learns nothing of which
/// identifiers exist.
pub fn authorize_request(
    catalog: &Catalog,
    secret: &str,
    action_id: &str,
    token: &str,
    now: u64,
) -> (r: Result<Session, EngineError>)
    requires
        catalog.well_formed(),
    ensures
        decision_of(r) == endpoint_decision(
            catalog@,
            action_id@,
            verified_payload(token@, secret@),
            now,
        ),
        r matches Ok(session) ==> session.fresh_execute(token@),
        r matches Err(error) ==> error_names(error, action_id@),
        blames_credential(r),
{
    let claims = match validate(token, secret, now) {
        Ok(claims) => claims,
        Err(error) => {
            return Err(auth_error(error));
        },
    };
    let action = match catalog.get(action_id) {
        Some(action) => action.clone(),
        None => {
            return Err(EngineError::ActionNotFound { action_id: String::from_str(action_id) });
        },
    };
    let run = Run::new(&action.commands);
    Ok(
        Session {
            action,
            claims,
            operation: Operation::Execute,
            token: String::from_str(token),
            run,
        },
    )
}

/// Decides on a request to run `action_id` forward, at the moment that the
/// clock shows.
pub fn execute_action(
    catalog: &Catalog,
    secret: &str,
    host: Host,
    action_id: &str,
    token: &str,
) -> (r: Result<Session, EngineError>)
    requires
        catalog.well_formed(),
    ensures
        exists|now: u64|
            decision_of(r) == #[trigger] execute_decision(
                catalog@,
                host,
                action_id@,
                verified_payload(token@, secret@),
                now,
            ),
        !catalog@.dom().contains(action_id@) ==> r matches Err(EngineError::ActionNotFound { .. }),
        r matches Ok(session) ==> session.fresh_execute(token@),
        r matches Err(error) ==> error_names(error, action_id@),
        blames_credential(r),
{
    let now = seconds_as_unsigned(clock_seconds());
    authorize_execute(catalog, secret, host, action_id, token, now)
}

/// Decides on a request to undo `action_id`, at the moment that the clock
/// shows.
pub fn execute_rollback(
    catalog: &Catalog,
    secret: &str,
    action_id: &str,
    rollback_id: &str,
    token: &str,
) -> (r: Result<Session, EngineError>)
    requires
        catalog.well_formed(),
    ensures
        exists|now: u64|
            decision_of(r) == #[trigger] rollback_decision(
                catalog@,
                action_id@,
                verified_payload(token@, secret@),
                now,
            ),
        !catalog@.dom().contains(action_id@) ==> r matches Err(EngineError::ActionNotFound { .. }),
        catalog@.dom().contains(action_id@) && !catalog@[action_id@].can_roll_back() ==> r matches Err(
            EngineError::NotReversible { .. },
        ),
        r matches Ok(session) ==> session.fresh_rollback(token@, rollback_id@),
        r matches Err(error) ==> error_names(error, action_id@),
        blames_credential(r),
{
    let now = seconds_as_unsigned(clock_seconds());
    authorize_rollback(catalog, secret, action_id, rollback_id, token, now)
}

/// An identifier that the catalog lacks is turned away as not found, forward
/// and back, whatever the credential, the platform and the time are, and no
/// command is released.
pub proof fn lemma_unknown_action_not_found(
    catalog: Map<Seq<char>, ActionView>,
    host: Host,
    action_id: Seq<char>,
    payload: Option<Map<Seq<char>, Field>>,
    now: u64,
)
    requires
        !catalog.dom().contains(action_id),
    ensures
        execute_decision(catalog, host, action_id, payload, now) is NotFound,
        rollback_decision(catalog, action_id, payload, now) is NotFound,
        released(execute_decision(catalog, host, action_id, payload, now), true).len() == 0,
        released(rollback_decision(catalog, action_id, payload, now), false).len() == 0,
{
}

/// A genuine credential whose expiry lies before `now` is turned away as
/// expired, forward for every action of the catalog and back for every action
/// that can be undone, and no command is released; one that expires exactly
/// at `now` is not turned away.
pub proof fn lemma_expiry_boundary(
    catalog: Map<Seq<char>, ActionView>,
    host: Host,
    action_id: Seq<char>,
    fields: Map<Seq<char>, Field>,
    now: u64,
)
    requires
        catalog.dom().contains(action_id),
        crate::auth::claims_complete(crate::auth::raw_claims_of(fields)),
    ensures
        ({
            let exp = crate::auth::claims_of(crate::auth::raw_claims_of(fields)).exp;
            &&& exp < now ==> execute_decision(catalog, host, action_id, Some(fields), now)
                is Expired
            &&& exp >= now ==> !(execute_decision(catalog, host, action_id, Some(fields), now)
                is Expired)
            &&& exp >= now && (host == Host::Other || catalog[action_id].os == "macos"@)
                ==> execute_decision(catalog, host, action_id, Some(fields), now) is Granted
            &&& exp < now ==> released(
                execute_decision(catalog, host, action_id, Some(fields), now),
                true,
            ).len() == 0
            &&& exp < now ==> released(
                rollback_decision(catalog, action_id, Some(fields), now),
                false,
            ).len() == 0
            &&& catalog[action_id].can_roll_back() && exp < now ==> rollback_decision(
                catalog,
                action_id,
                Some(fields),
                now,
            ) is Expired
            &&& catalog[action_id].can_roll_back() && exp >= now ==> rollback_decision(
                catalog,
                action_id,
                Some(fields),
                now,
            ) is Granted
        }),
{
}

/// At the execute endpoint the credential comes first.  A credential that is
/// not genuine or not complete is refused, and a genuine one whose expiry
/// lies before `now` is turned away as expired, whatever action is named and
/// whatever the catalog holds; no command is released either way.  A genuine
/// credential in time is answered by the catalog: not found where it lacks
/// the identifier, granted where it holds it.
pub proof fn lemma_endpoint_asks_credential_first(
    catalog: Map<Seq<char>, ActionView>,
    action_id: Seq<char>,
    payload: Option<Map<Seq<char>, Field>>,
    now: u64,
)
    ensures
        verdict_on_payload(payload, now) is Refused ==> endpoint_decision(
            catalog,
            action_id,
            payload,
            now,
        ) is Refused,
        verdict_on_payload(payload, now) is Expired ==> endpoint_decision(
            catalog,
            action_id,
            payload,
            now,
        ) is Expired,
        verdict_on_payload(payload, now) is Admitted && !catalog.dom().contains(action_id)
            ==> endpoint_decision(catalog, action_id, payload, now) is NotFound,
        verdict_on_payload(payload, now) is Admitted && catalog.dom().contains(action_id)
            ==> endpoint_decision(catalog, action_id, payload, now) is Granted,
        !(verdict_on_payload(payload, now) is Admitted) || !catalog.dom().contains(action_id)
            ==> released(endpoint_decision(catalog, action_id, payload, now), true).len() == 0,
        catalog.dom().contains(action_id) ==> endpoint_decision(catalog, action_id, payload, now)
            == execute_decision(catalog, Host::Other, action_id, payload, now),
{
}

/// An action of the catalog that is not reversible, or has no rollback
/// commands, is never undone, whatever the credential and the time are, and
/// no command is released.
pub proof fn lemma_irreversible_never_rolls_back(
    catalog: Map<Seq<char>, ActionView>,
    action_id: Seq<char>,
    payload: Option<Map<Seq<char>, Field>>,
    now: u64,
)
    requires
        catalog.dom().contains(action_id),
        !catalog[action_id].reversible || catalog[action_id].rollback_commands.len() == 0,
    ensures
        rollback_decision(catalog, action_id, payload, now) is NotReversible,
        released(rollback_decision(catalog, action_id, payload, now), false).len() == 0,
{
}

/// The words of an error.
pub open spec fn error_text(error: EngineError) -> Seq<char> {
    match error {
        EngineError::ActionNotFound { action_id } => "Action '"@ + action_id@ + "' not allowlisted"@,
        EngineError::AuthFailure { reason } => reason@,
        EngineError::TokenExpired => "Token expired"@,
        EngineError::NotReversible { action_id } => "Action '"@ + action_id@
            + "' is not reversible"@,
        EngineError::IncompatiblePlatform { action_id } => "Action '"@ + action_id@
            + "' not compatible with macOS"@,
    }
}

impl EngineError {
    /// The words of the error, for the caller.
    pub fn message(&self) -> (text: String)
        ensures
            text@ == error_text(*self),
    {
        match self {
            EngineError::ActionNotFound { action_id } => String::from_str("Action '").concat(
                action_id.as_str(),
            ).concat("' not allowlisted"),
            EngineError::AuthFailure { reason } => reason.clone(),
            EngineError::TokenExpired => String::from_str("Token expired"),
            EngineError::NotReversible { action_id } => String::from_str("Action '").concat(
                action_id.as_str(),
            ).concat("' is not reversible"),
            EngineError::IncompatiblePlatform { action_id } => String::from_str("Action '").concat(
                action_id.as_str(),
            ).concat("' not compatible with macOS"),
        }
    }
}

/// A moment in the life of a session that the embedding shell is told of.
#[derive(Debug, Clone, Copy, PartialEq, Eq, Structural)]
pub enum Phase {
    Executing,
    RollingBack,
    Executed { success: bool },
    RolledBack { success: bool },
}

/// What the embedding shell is told: a line for the user and its kind.
#[derive(Debug, Clone, PartialEq, Eq)]
pub struct StatusUpdate {
    pub message: String,
    pub status_type: String,
}

/// The line for the user at `phase` of the action called `title`.
pub open spec fn status_message(title: Seq<char>, phase: Phase) -> Seq<char> {
    match phase {
        Phase::Executing => "\u{26A1} Executing "@ + title + "..."@,
        Phase::RollingBack => "\u{1F504} Rolling back "@ + title + "..."@,
        Phase::Executed { success: true } => "\u{2705} "@ + title + " completed successfully"@,
        Phase::Executed { success: false } => "\u{274C} "@ + title + " failed"@,
        Phase::RolledBack { success: true } => "\u{2705} "@ + title
            + " rollback completed successfully"@,
        Phase::RolledBack { success: false } => "\u{274C} "@ + title + " rollback failed"@,
    }
}

/// The kind of the line at `phase`.
pub open spec fn status_kind(phase: Phase) -> Seq<char> {
    match phase {
        Phase::Executing => "executing"@,
        Phase::RollingBack => "rolling_back"@,
        Phase::Executed { success: true } => "success"@,
        Phase::RolledBack { success: true } => "success"@,
        _ => "error"@,
    }
}

/// Writes what the embedding shell is told at `phase`.
pub fn status_update(title: &str, phase: Phase) -> (update: StatusUpdate)
    ensures
        update.message@ == status_message(title@, phase),
        update.status_type@ == status_kind(phase),
{
    match phase {
        Phase::Executing => StatusUpdate {
            message: String::from_str("\u{26A1} Executing ").concat(title).concat("..."),
            status_type: String::from_str("executing"),
        },
        Phase::RollingBack => StatusUpdate {
            message: String::from_str("\u{1F504} Rolling back ").concat(title).concat("..."),
            status_type: String::from_str("rolling_back"),
        },
        Phase::Executed { success: true } => StatusUpdate {
            message: String::from_str("\u{2705} ").concat(title).concat(" completed successfully"),
            status_type: String::from_str("success"),
        },
        Phase::Executed { success: false } => StatusUpdate {
            message: String::from_str("\u{274C} ").concat(title).concat(" failed"),
            status_type: String::from_str("error"),
        },
        Phase::RolledBack { success: true } => StatusUpdate {
            message: String::from_str("\u{2705} ").concat(title).concat(
                " rollback completed successfully",
            ),
            status_type: String::from_str("success"),
        },
        Phase::RolledBack { success: false } => StatusUpdate {
            message: String::from_str("\u{274C} ").concat(title).concat(" rollback failed"),
            status_type: String::from_str("error"),
        },
    }
}

/// What the caller gets back from a run.
#[derive(Debug, Clone, PartialEq, Eq)]
pub struct ActionResult {
    pub success: bool,
    pub message: String,
    pub error: Option<String>,
    pub artifacts: Option<Vec<Artifact>>,
    pub rollback_id: Option<String>,
}

/// The mathematical value of an [`ActionResult`].
pub struct ActionResultView {
    pub success: bool,
    pub message: Seq<char>,
    pub error: Option<Seq<char>>,
    pub artifacts: Option<Seq<ArtifactView>>,
    pub rollback_id: Option<Seq<char>>,
}

impl View for ActionResult {
    type V = ActionResultView;

    open spec fn view(&self) -> ActionResultView {
        ActionResultView {
            success: self.success,
            message: self.message@,
            error: optional_view(self.error),
            artifacts: match self.artifacts {
                Some(artifacts) => Some(artifacts.deep_view()),
                None => None,
            },
            rollback_id: optional_view(self.rollback_id),
        }
    }
}

/// The result of a forward run: the transcript is the message, and the error
/// too where a step failed; the artifacts are those of the transcript; a
/// reversible action gets a rollback identifier.
pub open spec fn execution_result(
    reversible: bool,
    success: bool,
    output: Seq<char>,
    rollback_id: Seq<char>,
) -> ActionResultView {
    ActionResultView {
        success,
        message: output,
        error: if success {
            None
        } else {
            Some(output)
        },
        artifacts: Some(artifacts_of(output)),
        rollback_id: if reversible {
            Some(rollback_id)
        } else {
            None
        },
    }
}

/// The result of a rollback: as that of a forward run, without artifacts and
/// without a new rollback identifier.
pub open spec fn rollback_result(success: bool, output: Seq<char>) -> ActionResultView {
    ActionResultView {
        success,
        message: output,
        error: if success {
            None
        } else {
            Some(output)
        },
        artifacts: Some(Seq::empty()),
        rollback_id: None,
    }
}

/// Writes the result of a forward run of `action` that is given `rollback_id`.
pub fn execution_outcome(
    action: &ActionDefinition,
    success: bool,
    output: &str,
    rollback_id: String,
) -> (r: ActionResult)
    ensures
        r@ == execution_result(action@.reversible, success, output@, rollback_id@),
{
    let reversible = action.reversible;
    ActionResult {
        success,
        message: String::from_str(output),
        error: if success {
            None
        } else {
            Some(String::from_str(output))
        },
        artifacts: Some(create_artifacts(action.id.as_str(), output)),
        rollback_id: if reversible {
            Some(rollback_id)
        } else {
            None
        },
    }
}

/// Writes the result of a rollback.
pub fn rollback_outcome(success: bool, output: &str) -> (r: ActionResult)
    ensures
        r@ == rollback_result(success, output@),
{
    let artifacts: Vec<Artifact> = Vec::new();
    assert(artifacts.deep_view() =~= Seq::<ArtifactView>::empty());
    ActionResult {
        success,
        message: String::from_str(output),
        error: if success {
            None
        } else {
            Some(String::from_str(output))
        },
        artifacts: Some(artifacts),
        rollback_id: None,
    }
}

/// What a session amounts to once its run is over: the result for the
/// caller, the last word for the embedding shell, and the report that goes to
/// the remote authority under the caller's own credential.
#[derive(Debug, Clone, PartialEq, Eq)]
pub struct Completion {
    pub result: ActionResult,
    pub status: StatusUpdate,
    pub report: Report,
    pub kind: ReportKind,
    pub token: String,
}

/// The end of a session: the result, and what to log about the report.
#[derive(Debug, Clone, PartialEq, Eq)]
pub struct Closing {
    pub result: ActionResult,
    pub log: Option<String>,
}

impl Session {
    /// Whether every step of the session's run succeeded so far.
    pub open spec fn succeeded(&self) -> bool {
        all_succeeded(self.run.recorded())
    }

    /// The transcript of the session's run so far.
    pub open spec fn output(&self) -> Seq<char> {
        transcript_of(spawned(self.run.commands()), self.run.recorded())
    }

    /// What the embedding shell is told when the session starts.
    pub fn opening_status(&self) -> (update: StatusUpdate)
        ensures
            update.message@ == status_message(
                self.action@.title,
                if self.operation is Execute {
                    Phase::Executing
                } else {
                    Phase::RollingBack
                },
            ),
            update.status_type@ == status_kind(
                if self.operation is Execute {
                    Phase::Executing
                } else {
                    Phase::RollingBack
                },
            ),
    {
        match &self.operation {
            Operation::Execute => status_update(self.action.title.as_str(), Phase::Executing),
            Operation::Rollback { .. } => status_update(
                self.action.title.as_str(),
                Phase::RollingBack,
            ),
        }
    }

    /// Ends the session once every command that names a program has had its
    /// outcome.  The status is good when every step succeeded, and
    /// the transcript holds the lines of every step.  A forward run of a
    /// reversible action is given a fresh rollback identifier; its report
    /// carries a rollback point exactly when the run succeeded.  A rollback
    /// is given no new identifier and is reported under the one it came with.
    pub fn complete(self) -> (done: Completion)
        requires
            self.run.well_formed(),
            self.run.recorded().len() == spawned(self.run.commands()).len(),
        ensures
            done.token@ == self.token@,
            done.result@.success == self.succeeded(),
            done.result@.message == self.output(),
            self.operation is Execute ==> {
                &&& done.kind == ReportKind::Execution
                &&& done.status.message@ == status_message(
                    self.action@.title,
                    Phase::Executed { success: self.succeeded() },
                )
                &&& done.status.status_type@ == status_kind(
                    Phase::Executed { success: self.succeeded() },
                )
                &&& exists|rollback_id: Seq<char>|
                    rollback_id.len() == 36 && done.result@ == #[trigger] execution_result(
                        self.action@.reversible,
                        self.succeeded(),
                        self.output(),
                        rollback_id,
                    )
                &&& exists|recorded_at: Seq<char>, sent_at: Seq<char>|
                    done.report@ == #[trigger] execution_report(
                        self.action@.id,
                        self.succeeded(),
                        self.output(),
                        recorded_at,
                        sent_at,
                    )
            },
            self.operation matches Operation::Rollback { rollback_id } ==> {
                &&& done.kind == ReportKind::Rollback
                &&& done.status.message@ == status_message(
                    self.action@.title,
                    Phase::RolledBack { success: self.succeeded() },
                )
                &&& done.status.status_type@ == status_kind(
                    Phase::RolledBack { success: self.succeeded() },
                )
                &&& done.result@ == rollback_result(self.succeeded(), self.output())
                &&& exists|sent_at: Seq<char>|
                    done.report@ == #[trigger] rollback_report(
                        self.action@.id,
                        rollback_id@,
                        self.succeeded(),
                        self.output(),
                        sent_at,
                    )
            },
    {
        let ghost succeeded = self.succeeded();
        let ghost transcript = self.output();
        let Session { action, claims: _, operation, token, run } = self;
        let (success, output) = run.finish();
        match operation {
            Operation::Execute => {
                let rollback_id = random_uuid();
                let recorded_at = clock_rfc3339();
                let sent_at = clock_rfc3339();
                let ghost id = rollback_id@;
                let result = execution_outcome(&action, success, output.as_str(), rollback_id);
                let report = report_result(
                    action.id.as_str(),
                    success,
                    output.as_str(),
                    recorded_at.as_str(),
                    sent_at.as_str(),
                );
                let status = status_update(action.title.as_str(), Phase::Executed { success });
                assert(result@ == execution_result(action@.reversible, succeeded, transcript, id));
                assert(report@ == execution_report(
                    action@.id,
                    succeeded,
                    transcript,
                    recorded_at@,
                    sent_at@,
                ));
                Completion { result, status, report, kind: ReportKind::Execution, token }
            },
            Operation::Rollback { rollback_id } => {
                let sent_at = clock_rfc3339();
                let result = rollback_outcome(success, output.as_str());
                let report = report_rollback_result(
                    action.id.as_str(),
                    rollback_id.as_str(),
                    success,
                    output.as_str(),
                    sent_at.as_str(),
                );
                let status = status_update(action.title.as_str(), Phase::RolledBack { success });
                assert(report@ == rollback_report(
                    action@.id,
                    rollback_id@,
                    succeeded,
                    transcript,
                    sent_at@,
                ));
                Completion { result, status, report, kind: ReportKind::Rollback, token }
            },
        }
    }
}

impl Completion {
    /// Takes what became of the report.  The result for the caller stays as
    /// it was whatever became of it: a report that was not delivered leaves a
    /// line for the log and nothing else.
    pub fn close(self, delivery: &Delivery) -> (end: Closing)
        ensures
            end.result == self.result,
            end.log is None <==> delivered(delivery@),
            end.log matches Some(line) ==> line@ == delivery_log_line(self.kind, delivery@),
    {
        let log = delivery_log(self.kind, delivery);
        Closing { result: self.result, log }
    }
}

/// The report on a forward run carries a rollback point exactly when the run
/// succeeded, and the point names the action and the hash of the transcript.
pub proof fn lemma_rollback_point_on_success(
    action_id: Seq<char>,
    success: bool,
    output: Seq<char>,
    recorded_at: Seq<char>,
    sent_at: Seq<char>,
)
    ensures
        execution_report(action_id, success, output, recorded_at, sent_at) matches ReportView::Execution {
            rollback_point,
            ..
        } && (rollback_point is Some <==> success) && (rollback_point matches Some(point)
            ==> point.action_id == action_id && point.output_hash == artifacts_of(
            output,
        )[0].hash->0),
{
}

} // verus!
