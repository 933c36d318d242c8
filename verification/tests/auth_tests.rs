use tokenvault::apis::{AgentResponse, ApiEchoResponse, EchoResponse};
use tokenvault::auth::{authorize_admin, authorize_echo, ct_eq, list_agents, resolve_identity};
use tokenvault::codec::sign_claim;
use tokenvault::config::{get, set_value, Config};
use tokenvault::errors::{ApiError, StorageError};
use tokenvault::log::{format_line, LogManager};
use tokenvault::tokens::{TokenMetadata, TokensDatabase};

const FAR_FUTURE: u64 = 4102444800; // 2100-01-01
const SECRET: &str = "service-secret";
const ADMIN: &str = "notSoSecureValue";

fn fresh_db(name: &str) -> (TokensDatabase, String) {
    let nanos = chrono::Utc::now()
        .timestamp_nanos_opt()
        .expect("clock in range");
    let path = format!("/tmp/tokenvault_auth_{}_{}.db", name, nanos);
    let db = TokensDatabase::new(&path);
    db.init().expect("init");
    (db, path)
}

fn insert_row(path: &str, id: &str, exp: i64, token: Option<&str>) {
    let conn = rusqlite::Connection::open(path).expect("open");
    conn.execute(
        "INSERT INTO Tokens (id, exp, token) VALUES (?1, ?2, ?3)",
        (id, exp, token),
    )
    .expect("insert");
}

#[test]
fn echo_missing_header_is_missing_credential() {
    let (db, _path) = fresh_db("echo_missing");
    match authorize_echo(&db, None, SECRET, 0) {
        Err(ApiError::MissingBearerToken) => {}
        other => panic!("expected MissingBearerToken, got {:?}", other),
    }
}

#[test]
fn echo_wrongly_signed_token_is_invalid_credential() {
    let (db, path) = fresh_db("echo_wrong_sig");
    insert_row(&path, "agent-1", FAR_FUTURE as i64, None);
    let token = sign_claim("agent-1", FAR_FUTURE, "other-secret");
    match authorize_echo(&db, Some(&token), SECRET, 0) {
        Err(ApiError::InvalidToken(s)) => assert_eq!(s, token),
        other => panic!("expected InvalidToken, got {:?}", other),
    }
}

#[test]
fn echo_expired_token_is_expired_credential() {
    let (db, path) = fresh_db("echo_expired");
    insert_row(&path, "agent-1", 100, None);
    let token = sign_claim("agent-1", 100, SECRET);
    match authorize_echo(&db, Some(&token), SECRET, 200) {
        Err(ApiError::ExpiredToken(s)) => assert_eq!(s, token),
        other => panic!("expected ExpiredToken, got {:?}", other),
    }
}

#[test]
fn echo_removed_identity_is_unknown() {
    let (db, path) = fresh_db("echo_removed");
    insert_row(&path, "agent-1", FAR_FUTURE as i64, None);
    let token = sign_claim("agent-1", FAR_FUTURE, SECRET);
    // The token stays signature-valid, but the identity is deregistered.
    db.delete("agent-1").expect("delete");
    match authorize_echo(&db, Some(&token), SECRET, 0) {
        Err(ApiError::UnAuthorizedToken(s)) => assert_eq!(s, "agent-1"),
        other => panic!("expected UnAuthorizedToken, got {:?}", other),
    }
}

#[test]
fn echo_valid_registered_unexpired_token_succeeds() {
    let (db, path) = fresh_db("echo_ok");
    insert_row(&path, "agent-1", FAR_FUTURE as i64, None);
    let token = sign_claim("agent-1", FAR_FUTURE, SECRET);
    let record = authorize_echo(&db, Some(&token), SECRET, 1700000000).expect("authorized");
    assert_eq!(record.id, "agent-1");
    assert_eq!(record.exp, FAR_FUTURE);
}

#[test]
fn admin_exact_value_lists_with_count() {
    let (db, path) = fresh_db("admin_ok");
    insert_row(&path, "a", 1, None);
    insert_row(&path, "b", 2, None);
    insert_row(&path, "c", 3, None);
    let resp = list_agents(&db, Some(ADMIN), ADMIN).expect("authorized");
    assert_eq!(resp.count, 3);
    assert_eq!(resp.agents.len(), 3);
}

#[test]
fn admin_prefix_and_case_variants_are_rejected() {
    let (db, _path) = fresh_db("admin_reject");
    // A strict prefix of the configured value.
    assert!(matches!(
        list_agents(&db, Some("notSoSecure"), ADMIN),
        Err(ApiError::UnAuthorizedToken(_))
    ));
    // The configured value with one extra character.
    assert!(matches!(
        list_agents(&db, Some("notSoSecureValue "), ADMIN),
        Err(ApiError::UnAuthorizedToken(_))
    ));
    // A case variant.
    assert!(matches!(
        list_agents(&db, Some("NotSoSecureValue"), ADMIN),
        Err(ApiError::UnAuthorizedToken(_))
    ));
    // No credential at all.
    assert!(matches!(
        list_agents(&db, None, ADMIN),
        Err(ApiError::MissingBearerToken)
    ));
}

#[test]
fn authorize_admin_is_exact_equality() {
    assert!(authorize_admin(Some(ADMIN), ADMIN).is_ok());
    assert!(matches!(
        authorize_admin(Some(""), ADMIN),
        Err(ApiError::UnAuthorizedToken(_))
    ));
    assert!(matches!(
        authorize_admin(None, ADMIN),
        Err(ApiError::MissingBearerToken)
    ));
}

#[test]
fn ct_eq_compares_exactly() {
    assert!(ct_eq("", ""));
    assert!(ct_eq("abc", "abc"));
    assert!(!ct_eq("abc", "abd"));
    assert!(!ct_eq("abc", "abcd"));
    assert!(!ct_eq("abcd", "abc"));
    assert!(!ct_eq("Abc", "abc"));
}

#[test]
fn resolve_identity_maps_storage_outcomes() {
    let m = TokenMetadata { id: "a".to_string(), exp: 1, token: None };
    assert_eq!(resolve_identity("a", Ok(m.clone())), Ok(m));
    match resolve_identity("a", Err(StorageError::NotFound("a".to_string()))) {
        Err(ApiError::UnAuthorizedToken(s)) => assert_eq!(s, "a"),
        other => panic!("expected UnAuthorizedToken, got {:?}", other),
    }
    match resolve_identity("a", Err(StorageError::QueryFailed)) {
        Err(ApiError::InternalServerError(s)) => assert_eq!(s, "Token registry query failed"),
        other => panic!("expected InternalServerError, got {:?}", other),
    }
}

#[test]
fn echo_response_bodies_are_exact() {
    let r = EchoResponse::success("agent-1".to_string(), 250);
    assert_eq!(r.status, "Success");
    assert_eq!(r.latency, "250ms");
    assert_eq!(r.host_id, "agent-1");

    let r2 = ApiEchoResponse::success("agent-2".to_string(), 0);
    assert_eq!(r2.status, "Success");
    assert_eq!(r2.latency, "0ms");
    assert_eq!(r2.host_id, "agent-2");
}

#[test]
fn agent_response_count_matches_records() {
    let rows = vec![
        TokenMetadata { id: "a".to_string(), exp: 1, token: None },
        TokenMetadata { id: "b".to_string(), exp: 2, token: None },
    ];
    let resp = AgentResponse::over(rows);
    assert_eq!(resp.count, 2);
    assert_eq!(resp.agents.len(), 2);
}

#[test]
fn api_error_reasons_are_fixed_texts() {
    assert_eq!(
        ApiError::MissingBearerToken.reason(),
        "Bearer Token is not provided"
    );
    assert_eq!(
        ApiError::InvalidToken("t".to_string()).reason(),
        "Invalid Token has been found"
    );
    assert_eq!(
        ApiError::ExpiredToken("t".to_string()).reason(),
        "Token has been expired"
    );
    assert_eq!(
        ApiError::UnAuthorizedToken("t".to_string()).reason(),
        "Unauthorized Token has been found"
    );
    assert_eq!(
        ApiError::InternalServerError("x".to_string()).reason(),
        "Api Server faced an internal issue"
    );
}

#[test]
fn config_get_and_set() {
    let mut c = Config::default();
    assert_eq!(c.host_id, "");
    assert!(set_value(&mut c, "host_id", "agent-1"));
    assert_eq!(c.host_id, "agent-1");
    assert!(!set_value(&mut c, "port", "8080"));
    assert_eq!(c.host_id, "agent-1");
    assert_eq!(get(&c, "host_id"), Ok("agent-1".to_string()));
    assert_eq!(get(&c, "missing"), Err("Key not found".to_string()));
}

#[test]
fn log_lines_are_exact() {
    let _m = LogManager::new("server");
    assert_eq!(format_line(Some("API"), "starting"), "[API] starting");
    assert_eq!(format_line(None, "starting"), "[Others] starting");
}

#[test]
fn echo_store_failure_is_internal_error() {
    // A valid, unexpired token for a registry whose backing file cannot be
    // opened: the failure is internal, not an authorization verdict.
    let db = TokensDatabase::new("/tmp/tokenvault_missing_dir_xyz/registry.db");
    let token = sign_claim("agent-1", FAR_FUTURE, SECRET);
    match authorize_echo(&db, Some(&token), SECRET, 0) {
        Err(ApiError::InternalServerError(_)) => {}
        other => panic!("expected InternalServerError, got {:?}", other),
    }
}

#[test]
fn listing_store_failure_is_internal_error() {
    let db = TokensDatabase::new("/tmp/tokenvault_missing_dir_xyz/registry.db");
    match list_agents(&db, Some(ADMIN), ADMIN) {
        Err(ApiError::InternalServerError(_)) => {}
        other => panic!("expected InternalServerError, got {:?}", other),
    }
}
