use desktop_helper::report::{
    bearer_header, create_artifacts, delivery_log, delivery_verdict, report_result,
    report_rollback_result, report_url, Artifact, Delivery, Report, ReportKind, RollbackPoint,
};

fn log_artifact(output: &str, hash: &str) -> Artifact {
    Artifact {
        artifact_type: "execution_log".to_string(),
        uri: None,
        hash: Some(hash.to_string()),
        data: Some(output.to_string()),
    }
}

#[test]
fn artifact_is_the_transcript_with_its_base64_hash() {
    assert_eq!(create_artifacts("any", "hello"), vec![log_artifact("hello", "aGVsbG8=")]);
    assert_eq!(create_artifacts("any", ""), vec![log_artifact("", "")]);
    assert_eq!(
        create_artifacts("other", "Command: true\n"),
        vec![log_artifact("Command: true\n", "Q29tbWFuZDogdHJ1ZQo=")]
    );
    assert_eq!(create_artifacts("x", "\u{2705} ok"), vec![log_artifact("\u{2705} ok", "4pyFIG9r")]);
}

#[test]
fn successful_run_is_reported_with_a_rollback_point() {
    let report = report_result("flush-dns-macos", true, "hello", "2024-01-01T00:00:00+00:00", "2024-01-01T00:00:01+00:00");
    assert_eq!(
        report,
        Report::Execution {
            action_id: "flush-dns-macos".to_string(),
            success: true,
            output: "hello".to_string(),
            artifacts: vec![log_artifact("hello", "aGVsbG8=")],
            rollback_point: Some(RollbackPoint {
                method: "command_sequence".to_string(),
                action_id: "flush-dns-macos".to_string(),
                timestamp: "2024-01-01T00:00:00+00:00".to_string(),
                output_hash: "aGVsbG8=".to_string(),
            }),
            timestamp: "2024-01-01T00:00:01+00:00".to_string(),
        }
    );
}

#[test]
fn failed_run_is_reported_without_a_rollback_point() {
    let report = report_result("flush-dns-macos", false, "hello", "t1", "t2");
    assert_eq!(
        report,
        Report::Execution {
            action_id: "flush-dns-macos".to_string(),
            success: false,
            output: "hello".to_string(),
            artifacts: vec![log_artifact("hello", "aGVsbG8=")],
            rollback_point: None,
            timestamp: "t2".to_string(),
        }
    );
}

#[test]
fn rollback_is_reported_under_its_own_name() {
    for success in [true, false] {
        let report = report_rollback_result("toggle-wifi-macos", "id-1", success, "hello", "t");
        assert_eq!(
            report,
            Report::Rollback {
                action_id: "toggle-wifi-macos_rollback".to_string(),
                rollback_id: "id-1".to_string(),
                success,
                output: "hello".to_string(),
                artifacts: vec![log_artifact("hello", "aGVsbG8=")],
                timestamp: "t".to_string(),
            }
        );
    }
}

fn answered(code: u16, status: &str) -> Delivery {
    Delivery::Responded { code, status: status.to_string() }
}

#[test]
fn report_is_delivered_on_a_2xx_status() {
    for code in [200u16, 201, 204, 299] {
        assert_eq!(delivery_verdict(ReportKind::Execution, &answered(code, "x")), Ok(()));
        assert_eq!(delivery_log(ReportKind::Rollback, &answered(code, "x")), None);
    }
}

#[test]
fn other_statuses_are_complained_of() {
    for (code, status) in [(199u16, "199 <unknown status code>"), (300, "300 Multiple Choices"), (401, "401 Unauthorized"), (500, "500 Internal Server Error"), (0, "0"), (65535, "65535")] {
        assert_eq!(
            delivery_verdict(ReportKind::Execution, &answered(code, status)),
            Err(format!("Server returned status: {}", status))
        );
        assert_eq!(
            delivery_verdict(ReportKind::Rollback, &answered(code, status)),
            Err(format!("Server returned status: {}", status))
        );
    }
    assert_eq!(
        delivery_log(ReportKind::Execution, &answered(401, "401 Unauthorized")),
        Some("Failed to report result: Server returned status: 401 Unauthorized".to_string())
    );
    assert_eq!(
        delivery_log(ReportKind::Rollback, &answered(503, "503 Service Unavailable")),
        Some("Failed to report rollback result: Server returned status: 503 Service Unavailable".to_string())
    );
}

#[test]
fn unsent_report_is_complained_of() {
    let delivery = Delivery::Failed { reason: "connection refused".to_string() };
    assert_eq!(
        delivery_verdict(ReportKind::Execution, &delivery),
        Err("Failed to report result: connection refused".to_string())
    );
    assert_eq!(
        delivery_verdict(ReportKind::Rollback, &delivery),
        Err("Failed to report rollback result: connection refused".to_string())
    );
    assert_eq!(
        delivery_log(ReportKind::Execution, &delivery),
        Some("Failed to report result: Failed to report result: connection refused".to_string())
    );
    assert_eq!(
        delivery_log(ReportKind::Rollback, &delivery),
        Some("Failed to report rollback result: Failed to report rollback result: connection refused".to_string())
    );
}

#[test]
fn report_address_and_header() {
    assert_eq!(report_url("http://localhost:3000"), "http://localhost:3000/api/automation/helper/report");
    assert_eq!(report_url(""), "/api/automation/helper/report");
    assert_eq!(bearer_header("abc.def.ghi"), "Bearer abc.def.ghi");
    assert_eq!(bearer_header(""), "Bearer ");
}
