use desktop_helper::builtin::builtin_catalog;
use desktop_helper::catalog::Catalog;
use desktop_helper::control::{
    automation_answer, automation_execute, automation_refusal, bearer_token, get_health_status,
    health_descriptor, screenshot_handler, screenshot_unavailable, status_descriptor,
    AutomationExecuteResponse, Config, ScreenshotResponse,
};
use desktop_helper::coordinator::{ActionResult, EngineError, Session};

const SECRET: &str = "test-signing-key";

fn sign(exp: u64, secret: &str) -> String {
    let mut claims = serde_json::Map::new();
    claims.insert("action_id".to_string(), serde_json::Value::from("x"));
    claims.insert("approval_id".to_string(), serde_json::Value::from("y"));
    claims.insert("scope".to_string(), serde_json::Value::from("z"));
    claims.insert("exp".to_string(), serde_json::Value::from(exp));
    claims.insert("iat".to_string(), serde_json::Value::from(1u64));
    jsonwebtoken::encode(
        &jsonwebtoken::Header::new(jsonwebtoken::Algorithm::HS256),
        &serde_json::Value::Object(claims),
        &jsonwebtoken::EncodingKey::from_secret(secret.as_bytes()),
    )
    .unwrap()
}

fn now() -> u64 {
    chrono::Utc::now().timestamp() as u64
}

fn answer_of(result: Result<Session, AutomationExecuteResponse>) -> AutomationExecuteResponse {
    match result {
        Ok(_) => panic!("the request was granted"),
        Err(answer) => answer,
    }
}

#[test]
fn configuration_falls_back_to_its_defaults() {
    let config = Config::from_values(None, None);
    assert_eq!(config.jwt_secret, "default-secret-change-in-production");
    assert_eq!(config.server_url, "http://localhost:3000");
    assert!(config.uses_default_secret());
    let config = Config::from_values(Some("s3".to_string()), Some("https://authority.example".to_string()));
    assert_eq!(config.jwt_secret, "s3");
    assert_eq!(config.server_url, "https://authority.example");
    assert!(!config.uses_default_secret());
    let config = Config::from_values(Some(String::new()), None);
    assert_eq!(config.jwt_secret, "");
    assert_eq!(config.server_url, "http://localhost:3000");
}

#[test]
fn bearer_token_is_what_stands_behind_the_word() {
    assert_eq!(bearer_token(Some("Bearer abc.def.ghi")), "abc.def.ghi");
    assert_eq!(bearer_token(Some("Bearer ")), "");
    assert_eq!(bearer_token(Some("Bearer  two")), " two");
    assert_eq!(bearer_token(Some("bearer abc")), "");
    assert_eq!(bearer_token(Some("Basic abc")), "");
    assert_eq!(bearer_token(Some("abc")), "");
    assert_eq!(bearer_token(Some("")), "");
    assert_eq!(bearer_token(None), "");
}

#[test]
fn liveness_probe() {
    let status = status_descriptor();
    assert_eq!(status.status, "ok");
    assert_eq!(status.version, "0.1.0");
    assert_eq!(status.capabilities, vec!["screenshot", "system_info", "process_list", "file_operations"]);
}

#[test]
fn capture_is_not_implemented() {
    assert_eq!(
        screenshot_unavailable("2024-05-05T10:00:00+00:00".to_string()),
        ScreenshotResponse {
            success: false,
            data: None,
            format: Some("png".to_string()),
            size: None,
            timestamp: Some("2024-05-05T10:00:00+00:00".to_string()),
            error: Some("Not implemented".to_string()),
            details: Some(
                "Desktop Helper installed and reachable, but screenshot capture is not yet implemented."
                    .to_string()
            ),
        }
    );
    let answer = screenshot_handler();
    assert!(!answer.success);
    assert_eq!(answer.error, Some("Not implemented".to_string()));
    assert!(chrono::DateTime::parse_from_rfc3339(answer.timestamp.as_ref().unwrap()).is_ok());
}

#[test]
fn health_counts_the_actions() {
    let health = health_descriptor(&builtin_catalog(), "t".to_string());
    assert_eq!(health.status, "healthy");
    assert_eq!(health.version, "0.1.0");
    assert_eq!(health.timestamp, "t");
    assert_eq!(health.actions_available, 7);
    assert_eq!(health_descriptor(&Catalog::new(), "t".to_string()).actions_available, 0);
    let health = get_health_status(&builtin_catalog());
    assert_eq!(health.actions_available, 7);
    assert!(chrono::DateTime::parse_from_rfc3339(&health.timestamp).is_ok());
}

#[test]
fn refusals_in_words() {
    assert_eq!(
        automation_refusal(&EngineError::AuthFailure { reason: "Invalid token: InvalidSignature".to_string() }),
        AutomationExecuteResponse { success: false, output: "Unauthorized".to_string() }
    );
    assert_eq!(
        automation_refusal(&EngineError::TokenExpired),
        AutomationExecuteResponse { success: false, output: "Token expired".to_string() }
    );
    assert_eq!(
        automation_refusal(&EngineError::ActionNotFound { action_id: "x".to_string() }),
        AutomationExecuteResponse { success: false, output: "Action 'x' not allowlisted".to_string() }
    );
}

#[test]
fn answer_of_a_run() {
    let result = ActionResult {
        success: true,
        message: "Command: true\n".to_string(),
        error: None,
        artifacts: None,
        rollback_id: None,
    };
    assert_eq!(
        automation_answer(&result),
        AutomationExecuteResponse { success: true, output: "Command: true\n".to_string() }
    );
}

#[test]
fn endpoint_grants_a_genuine_request() {
    let catalog = builtin_catalog();
    let header = format!("Bearer {}", sign(now() + 3_600, SECRET));
    let session = match automation_execute(&catalog, SECRET, Some(&header), "flush-dns-macos") {
        Ok(session) => session,
        Err(answer) => panic!("refused: {:?}", answer),
    };
    assert_eq!(session.action.id, "flush-dns-macos");
    assert_eq!(format!("Bearer {}", session.token), header);
    assert_eq!(session.run.pending().unwrap().command, "sudo dscacheutil -flushcache");
}

#[test]
fn endpoint_refuses_in_words() {
    let catalog = builtin_catalog();
    let good = format!("Bearer {}", sign(now() + 3_600, SECRET));
    let old = format!("Bearer {}", sign(now() - 3_600, SECRET));
    let forged = format!("Bearer {}", sign(now() + 3_600, "wrong"));
    let bare = sign(now() + 3_600, SECRET);
    assert_eq!(
        answer_of(automation_execute(&catalog, SECRET, Some(&good), "format-disk")),
        AutomationExecuteResponse { success: false, output: "Action 'format-disk' not allowlisted".to_string() }
    );
    assert_eq!(
        answer_of(automation_execute(&catalog, SECRET, Some(&old), "flush-dns-macos")),
        AutomationExecuteResponse { success: false, output: "Token expired".to_string() }
    );
    for header in [Some(forged.as_str()), Some(bare.as_str()), Some(""), None] {
        assert_eq!(
            answer_of(automation_execute(&catalog, SECRET, header, "flush-dns-macos")),
            AutomationExecuteResponse { success: false, output: "Unauthorized".to_string() }
        );
    }
}

#[test]
fn endpoint_asks_the_credential_before_the_catalog() {
    let catalog = builtin_catalog();
    let old = format!("Bearer {}", sign(now() - 3_600, SECRET));
    let forged = format!("Bearer {}", sign(now() + 3_600, "wrong"));
    let bare = sign(now() + 3_600, SECRET);
    for action_id in ["format-disk", "", "flush-dns-macos", "restart-finder"] {
        assert_eq!(
            answer_of(automation_execute(&catalog, SECRET, Some(&old), action_id)),
            AutomationExecuteResponse { success: false, output: "Token expired".to_string() },
            "{:?}",
            action_id
        );
        for header in [Some(forged.as_str()), Some(bare.as_str()), Some("Bearer "), Some(""), None] {
            assert_eq!(
                answer_of(automation_execute(&catalog, SECRET, header, action_id)),
                AutomationExecuteResponse { success: false, output: "Unauthorized".to_string() },
                "{:?} {:?}",
                action_id,
                header
            );
        }
    }
}

#[test]
fn endpoint_tells_of_the_catalog_only_to_a_genuine_caller() {
    let catalog = builtin_catalog();
    let good = format!("Bearer {}", sign(now() + 3_600, SECRET));
    assert_eq!(
        answer_of(automation_execute(&catalog, SECRET, Some(&good), "killall Finder")),
        AutomationExecuteResponse { success: false, output: "Action 'killall Finder' not allowlisted".to_string() }
    );
    assert!(automation_execute(&catalog, SECRET, Some(&good), "restart-finder").is_ok());
}
