//! What the helper tells the remote authority after a run, and what it makes
//! of the answer.  Sending is the caller's part.

use crate::outside::{base64_text, encode_base64};
use crate::text::optional_view;
use vstd::prelude::*;

verus! {

/// A piece of evidence from a run.
#[derive(Debug, Clone, PartialEq, Eq)]
pub struct Artifact {
    pub artifact_type: String,
    pub uri: Option<String>,
    pub hash: Option<String>,
    pub data: Option<String>,
}

/// The mathematical value of an [`Artifact`].
pub struct ArtifactView {
    pub artifact_type: Seq<char>,
    pub uri: Option<Seq<char>>,
    pub hash: Option<Seq<char>>,
    pub data: Option<Seq<char>>,
}

impl View for Artifact {
    type V = ArtifactView;

    open spec fn view(&self) -> ArtifactView {
        ArtifactView {
            artifact_type: self.artifact_type@,
            uri: optional_view(self.uri),
            hash: optional_view(self.hash),
            data: optional_view(self.data),
        }
    }
}

impl DeepView for Artifact {
    type V = ArtifactView;

    open spec fn deep_view(&self) -> ArtifactView {
        self@
    }
}

/// The record that ties a successful run to the way it is undone.
#[derive(Debug, Clone, PartialEq, Eq)]
pub struct RollbackPoint {
    pub method: String,
    pub action_id: String,
    pub timestamp: String,
    pub output_hash: String,
}

/// The mathematical value of a [`RollbackPoint`].
pub struct RollbackPointView {
    pub method: Seq<char>,
    pub action_id: Seq<char>,
    pub timestamp: Seq<char>,
    pub output_hash: Seq<char>,
}

impl View for RollbackPoint {
    type V = RollbackPointView;

    open spec fn view(&self) -> RollbackPointView {
        RollbackPointView {
            method: self.method@,
            action_id: self.action_id@,
            timestamp: self.timestamp@,
            output_hash: self.output_hash@,
        }
    }
}

/// The artifacts of a transcript: the transcript itself as an execution log,
/// with its base64 text as the hash.
pub open spec fn artifacts_of(output: Seq<char>) -> Seq<ArtifactView> {
    seq![
        ArtifactView {
            artifact_type: "execution_log"@,
            uri: None,
            hash: Some(base64_text(output)),
            data: Some(output),
        },
    ]
}

/// Derives the artifacts of a run from its transcript.
pub fn create_artifacts(_action_id: &str, output: &str) -> (artifacts: Vec<Artifact>)
    ensures
        artifacts.deep_view() == artifacts_of(output@),
{
    let mut artifacts: Vec<Artifact> = Vec::new();
    artifacts.push(
        Artifact {
            artifact_type: String::from_str("execution_log"),
            uri: None,
            hash: Some(encode_base64(output)),
            data: Some(String::from_str(output)),
        },
    );
    assert(artifacts.deep_view() =~= artifacts_of(output@));
    artifacts
}

/// The rollback point of a successful run of `action_id` with the transcript
/// `output`, recorded at `timestamp`.
pub open spec fn rollback_point_of(
    action_id: Seq<char>,
    output: Seq<char>,
    timestamp: Seq<char>,
) -> RollbackPointView {
    RollbackPointView {
        method: "command_sequence"@,
        action_id,
        timestamp,
        output_hash: base64_text(output),
    }
}

/// The body of a report to the remote authority.
#[derive(Debug, Clone, PartialEq, Eq)]
pub enum Report {
    /// What a forward run amounted to.
    Execution {
        action_id: String,
        success: bool,
        output: String,
        artifacts: Vec<Artifact>,
        rollback_point: Option<RollbackPoint>,
        timestamp: String,
    },
    /// What a rollback amounted to.
    Rollback {
        action_id: String,
        rollback_id: String,
        success: bool,
        output: String,
        artifacts: Vec<Artifact>,
        timestamp: String,
    },
}

/// The mathematical value of a [`Report`].
pub enum ReportView {
    Execution {
        action_id: Seq<char>,
        success: bool,
        output: Seq<char>,
        artifacts: Seq<ArtifactView>,
        rollback_point: Option<RollbackPointView>,
        timestamp: Seq<char>,
    },
    Rollback {
        action_id: Seq<char>,
        rollback_id: Seq<char>,
        success: bool,
        output: Seq<char>,
        artifacts: Seq<ArtifactView>,
        timestamp: Seq<char>,
    },
}

impl View for Report {
    type V = ReportView;

    open spec fn view(&self) -> ReportView {
        match self {
            Report::Execution {
                action_id,
                success,
                output,
                artifacts,
                rollback_point,
                timestamp,
            } => ReportView::Execution {
                action_id: action_id@,
                success: *success,
                output: output@,
                artifacts: artifacts.deep_view(),
                rollback_point: match rollback_point {
                    Some(point) => Some(point@),
                    None => None,
                },
                timestamp: timestamp@,
            },
            Report::Rollback {
                action_id,
                rollback_id,
                success,
                output,
                artifacts,
                timestamp,
            } => ReportView::Rollback {
                action_id: action_id@,
                rollback_id: rollback_id@,
                success: *success,
                output: output@,
                artifacts: artifacts.deep_view(),
                timestamp: timestamp@,
            },
        }
    }
}

/// The report on a forward run.  It carries the artifacts of the transcript,
/// and a rollback point exactly when the run succeeded.
pub open spec fn execution_report(
    action_id: Seq<char>,
    success: bool,
    output: Seq<char>,
    recorded_at: Seq<char>,
    sent_at: Seq<char>,
) -> ReportView {
    ReportView::Execution {
        action_id,
        success,
        output,
        artifacts: artifacts_of(output),
        rollback_point: if success {
            Some(rollback_point_of(action_id, output, recorded_at))
        } else {
            None
        },
        timestamp: sent_at,
    }
}

/// The report on a rollback.  It is filed under the action's identifier with
/// `_rollback` behind it and carries no rollback point.
pub open spec fn rollback_report(
    action_id: Seq<char>,
    rollback_id: Seq<char>,
    success: bool,
    output: Seq<char>,
    sent_at: Seq<char>,
) -> ReportView {
    ReportView::Rollback {
        action_id: action_id + "_rollback"@,
        rollback_id,
        success,
        output,
        artifacts: artifacts_of(output),
        timestamp: sent_at,
    }
}

/// Writes the report on a forward run.  `recorded_at` dates the rollback
/// point and `sent_at` the report.
pub fn report_result(
    action_id: &str,
    success: bool,
    output: &str,
    recorded_at: &str,
    sent_at: &str,
) -> (report: Report)
    ensures
        report@ == execution_report(action_id@, success, output@, recorded_at@, sent_at@),
{
    let artifacts = create_artifacts(action_id, output);
    let rollback_point = if success {
        Some(
            RollbackPoint {
                method: String::from_str("command_sequence"),
                action_id: String::from_str(action_id),
                timestamp: String::from_str(recorded_at),
                output_hash: encode_base64(output),
            },
        )
    } else {
        None
    };
    Report::Execution {
        action_id: String::from_str(action_id),
        success,
        output: String::from_str(output),
        artifacts,
        rollback_point,
        timestamp: String::from_str(sent_at),
    }
}

/// Writes the report on a rollback.
pub fn report_rollback_result(
    action_id: &str,
    rollback_id: &str,
    success: bool,
    output: &str,
    sent_at: &str,
) -> (report: Report)
    ensures
        report@ == rollback_report(action_id@, rollback_id@, success, output@, sent_at@),
{
    let filed_under = String::from_str(action_id).concat("_rollback");
    let artifacts = create_artifacts(filed_under.as_str(), output);
    Report::Rollback {
        action_id: filed_under,
        rollback_id: String::from_str(rollback_id),
        success,
        output: String::from_str(output),
        artifacts,
        timestamp: String::from_str(sent_at),
    }
}

/// Which run a report is about.
#[derive(Debug, Clone, Copy, PartialEq, Eq, Structural)]
pub enum ReportKind {
    Execution,
    Rollback,
}

/// What became of a report that was sent.
#[derive(Debug, Clone, PartialEq, Eq)]
pub enum Delivery {
    /// The authority answered with an HTTP status: its code and its text.
    Responded { code: u16, status: String },
    /// No answer came.
    Failed { reason: String },
}

/// The mathematical value of a [`Delivery`].
pub enum DeliveryView {
    Responded { code: u16, status: Seq<char> },
    Failed { reason: Seq<char> },
}

impl View for Delivery {
    type V = DeliveryView;

    open spec fn view(&self) -> DeliveryView {
        match self {
            Delivery::Responded { code, status } => DeliveryView::Responded {
                code: *code,
                status: status@,
            },
            Delivery::Failed { reason } => DeliveryView::Failed { reason: reason@ },
        }
    }
}

/// A report is delivered when the authority answers with a status from 200
/// to 299.
pub open spec fn delivered(delivery: DeliveryView) -> bool {
    delivery matches DeliveryView::Responded { code, .. } && 200 <= code <= 299
}

/// The words in which a run of that kind is spoken of.
pub open spec fn kind_words(kind: ReportKind) -> Seq<char> {
    match kind {
        ReportKind::Execution => "result"@,
        ReportKind::Rollback => "rollback result"@,
    }
}

/// What is said of a report that was not delivered.
pub open spec fn delivery_complaint(kind: ReportKind, delivery: DeliveryView) -> Seq<char> {
    match delivery {
        DeliveryView::Responded { status, .. } => "Server returned status: "@ + status,
        DeliveryView::Failed { reason } => "Failed to report "@ + kind_words(kind) + ": "@ + reason,
    }
}

/// The line that goes to the log for a report that was not delivered.
pub open spec fn delivery_log_line(kind: ReportKind, delivery: DeliveryView) -> Seq<char> {
    "Failed to report "@ + kind_words(kind) + ": "@ + delivery_complaint(kind, delivery)
}

fn kind_text(kind: ReportKind) -> (words: &'static str)
    ensures
        words@ == kind_words(kind),
{
    match kind {
        ReportKind::Execution => "result",
        ReportKind::Rollback => "rollback result",
    }
}

/// Judges what became of a report: `Ok` when it was delivered, else the
/// complaint.
pub fn delivery_verdict(kind: ReportKind, delivery: &Delivery) -> (r: Result<(), String>)
    ensures
        r is Ok <==> delivered(delivery@),
        r matches Err(complaint) ==> complaint@ == delivery_complaint(kind, delivery@),
{
    match delivery {
        Delivery::Responded { code, status } => {
            if 200 <= *code && *code <= 299 {
                Ok(())
            } else {
                Err(String::from_str("Server returned status: ").concat(status.as_str()))
            }
        },
        Delivery::Failed { reason } => {
            let mut complaint = String::from_str("Failed to report ");
            complaint.append(kind_text(kind));
            complaint.append(": ");
            complaint.append(reason.as_str());
            assert(complaint@ =~= delivery_complaint(kind, delivery@));
            Err(complaint)
        },
    }
}

/// The line to log after a report was sent: none when it was delivered.
pub fn delivery_log(kind: ReportKind, delivery: &Delivery) -> (line: Option<String>)
    ensures
        line is None <==> delivered(delivery@),
        line matches Some(text) ==> text@ == delivery_log_line(kind, delivery@),
{
    match delivery_verdict(kind, delivery) {
        Ok(()) => None,
        Err(complaint) => {
            let mut line = String::from_str("Failed to report ");
            line.append(kind_text(kind));
            line.append(": ");
            line.append(complaint.as_str());
            assert(line@ =~= delivery_log_line(kind, delivery@));
            Some(line)
        },
    }
}

/// The address that reports go to, under the authority's base address.
pub open spec fn report_address(server_url: Seq<char>) -> Seq<char> {
    server_url + "/api/automation/helper/report"@
}

/// The address that reports go to.
pub fn report_url(server_url: &str) -> (url: String)
    ensures
        url@ == report_address(server_url@),
{
    String::from_str(server_url).concat("/api/automation/helper/report")
}

/// The `Authorization` header that carries `token`: the credential that the
/// caller came with, since the helper has none of its own.
pub fn bearer_header(token: &str) -> (header: String)
    ensures
        header@ == "Bearer "@ + token@,
{
    String::from_str("Bearer ").concat(token)
}

} // verus!
