use mcp_auth::auth::apikey::ApiKeyAuthService;
use mcp_auth::auth::{Fetched, NoOpAuthProvider, OAuthTokenData, RedisAuthService, SessionData};
use mcp_auth::clock::Timestamp;
use mcp_auth::error::ServerError;
use mcp_auth::tools::auth_example::{action_text, AuthExampleTool, AuthenticatedRequest};
use mcp_auth::tools::dice_example::{default_count, DiceToolExample, RollRequestExample};
use mcp_auth::tools::http_client_example::{
    default_method, ApiCall, AuthenticatedApiRequest, HttpClientExampleTool, HttpMethod,
    HttpOutcome, PublicApiRequest,
};
use mcp_auth::tools::session_example::{
    default_provider, SessionExampleTool, SessionInfoRequest, UserProfileRequest,
};
use mcp_auth::tools::{refuse, ToolError};

const SESSION: &str = "550e8400-e29b-41d4-a716-446655440000";

fn sessions() -> RedisAuthService {
    RedisAuthService::new("redis://localhost:6379").unwrap()
}

fn token(expires_at: &str) -> OAuthTokenData {
    OAuthTokenData {
        user_id: "u1".to_string(),
        provider: "google".to_string(),
        provider_user_id: "123".to_string(),
        email: "test@example.com".to_string(),
        display_name: "Test User".to_string(),
        access_token: "secret-token".to_string(),
        refresh_token: Some("secret-refresh".to_string()),
        expires_at: expires_at.to_string(),
        scopes: vec!["openid".to_string(), "email".to_string()],
        linked_at: "2019-06-01T12:00:00Z".to_string(),
    }
}

fn refusal<T>(r: Result<T, ToolError>) -> ToolError {
    match r {
        Ok(_) => panic!("expected a refusal"),
        Err(e) => e,
    }
}

#[test]
fn test_with_api_key_auth() {
    let keys = vec![("test-key".to_string(), "user123".to_string())];

    let auth = ApiKeyAuthService::new(keys);
    let tool = AuthExampleTool::new(auth);

    let req = AuthenticatedRequest {
        credential: "test-key".to_string(),
        action: "test-action".to_string(),
    };

    let result = tool.authenticated_action(&req);
    assert!(result.is_ok());
}

#[test]
fn test_with_redis_auth() {
    let auth = sessions();

    // Without a session in the store the lookup comes to a failure.
    let query = auth.resolve_session(SESSION).map_err(|e| e.message()).unwrap();
    let result = query.identity(Fetched::Missing);
    assert!(result.is_err());
}

#[test]
fn test_defaults() {
    assert_eq!(mcp_auth::tools::http_client_example::default_provider(), "google");
    assert_eq!(default_method(), "GET");
}

#[test]
fn test_invalid_session_format() {
    let auth_service = sessions();
    let tool = HttpClientExampleTool::new(auth_service);

    let invalid_req = AuthenticatedApiRequest {
        session_id: "invalid-uuid".to_string(),
        url: "https://api.example.com/test".to_string(),
        provider: "google".to_string(),
        method: "GET".to_string(),
        body: None,
    };

    let result = tool.authenticated_api_call(&invalid_req);
    assert!(result.is_err(), "Should fail with invalid UUID format");
}

#[test]
fn test_public_api_call_invalid_method() {
    let auth_service = sessions();
    let tool = HttpClientExampleTool::new(auth_service);

    let invalid_req = PublicApiRequest {
        url: "https://httpbin.org/get".to_string(),
        method: "INVALID".to_string(),
        body: None,
    };

    let result = tool.public_api_call(&invalid_req);
    assert!(result.is_err(), "Should fail with invalid HTTP method");
}

#[test]
fn test_session_validation() {
    let auth_service = sessions();
    let tool = SessionExampleTool::new(auth_service);

    // Test valid UUID format
    let valid_req = SessionInfoRequest { session_id: SESSION.to_string() };

    // This does not fail on format validation
    let result = tool.get_session_info(&valid_req);
    assert!(result.is_ok());

    // Test invalid UUID format
    let invalid_req = SessionInfoRequest { session_id: "invalid-uuid".to_string() };

    let result = tool.get_session_info(&invalid_req);
    assert!(result.is_err(), "Should fail with invalid UUID format");
}

#[test]
fn test_default_provider() {
    assert_eq!(default_provider(), "google");
}

#[test]
fn dice_requests_are_checked() {
    assert_eq!(default_count(), 1);
    let tool = DiceToolExample;
    assert_eq!(
        tool.roll(RollRequestExample { sides: 0, count: 1 }),
        Err(ToolError::InvalidParams("Dice must have at least 1 side".to_string()))
    );
    assert_eq!(
        tool.roll(RollRequestExample { sides: 0, count: 0 }),
        Err(ToolError::InvalidParams("Dice must have at least 1 side".to_string()))
    );
    for count in [0, 101, u32::MAX] {
        assert_eq!(
            tool.roll(RollRequestExample { sides: 6, count }),
            Err(ToolError::InvalidParams("Count must be between 1 and 100".to_string()))
        );
    }
}

#[test]
fn dice_rolls_are_faces() {
    let tool = DiceToolExample;
    assert_eq!(tool.roll(RollRequestExample { sides: 1, count: 1 }), Ok("Rolled a d1: 1".to_string()));
    assert_eq!(
        tool.roll(RollRequestExample { sides: 1, count: 3 }),
        Ok("Rolled 3d1: 1, 1, 1 (total: 3)".to_string())
    );
    for _ in 0..50 {
        let text = tool.roll(RollRequestExample { sides: 6, count: 1 }).unwrap();
        let face: u32 = text.strip_prefix("Rolled a d6: ").unwrap().parse().unwrap();
        assert!((1..=6).contains(&face));
    }
    let text = tool.roll(RollRequestExample { sides: 20, count: 100 }).unwrap();
    let list = text.strip_prefix("Rolled 100d20: ").unwrap();
    let (faces, total) = list.split_once(" (total: ").unwrap();
    let faces: Vec<u32> = faces.split(", ").map(|f| f.parse().unwrap()).collect();
    assert_eq!(faces.len(), 100);
    assert!(faces.iter().all(|f| (1..=20).contains(f)));
    // a hundred rolls of a d20 do not all show the same face
    assert!(faces.iter().any(|f| *f != 20));
    assert!(faces.iter().any(|f| *f != faces[0]));
    assert_eq!(total, format!("{})", faces.iter().sum::<u32>()));
}

#[test]
fn dice_reports() {
    assert_eq!(DiceToolExample::report(6, &vec![4]), "Rolled a d6: 4");
    assert_eq!(DiceToolExample::report(20, &vec![20, 1, 13]), "Rolled 3d20: 20, 1, 13 (total: 34)");
    assert_eq!(DiceToolExample::report(6, &Vec::new()), "Rolled 0d6:  (total: 0)");
    assert_eq!(
        DiceToolExample::report(u32::MAX, &vec![u32::MAX, u32::MAX]),
        "Rolled 2d4294967295: 4294967295, 4294967295 (total: 8589934590)"
    );
}

#[test]
fn authenticated_action_reports_the_user() {
    let auth = ApiKeyAuthService::new(vec![("k1".to_string(), "u1".to_string())]);
    let tool = AuthExampleTool::new(auth);
    let req = AuthenticatedRequest { credential: "k1".to_string(), action: "deploy".to_string() };
    assert_eq!(
        tool.authenticated_action(&req),
        Ok("Authenticated Action:\n\u{2022} User ID: u1\n\u{2022} Action: deploy\n\u{2022} Auth Type: api_key\n\u{2022} Status: Success"
            .to_string())
    );
}

#[test]
fn authenticated_action_refusals() {
    let auth = ApiKeyAuthService::new(vec![("k1".to_string(), "u1".to_string())]);
    let tool = AuthExampleTool::new(auth);
    let empty = AuthenticatedRequest { credential: "".to_string(), action: "deploy".to_string() };
    assert_eq!(
        tool.authenticated_action(&empty),
        Err(ToolError::InvalidParams(
            "Invalid credential: Authentication error: API key cannot be empty".to_string()
        ))
    );
    let unknown =
        AuthenticatedRequest { credential: "bogus".to_string(), action: "deploy".to_string() };
    assert_eq!(
        tool.authenticated_action(&unknown),
        Err(ToolError::InvalidParams(
            "Authentication failed: Authentication error: Invalid API key".to_string()
        ))
    );
    let disabled = AuthExampleTool::new(NoOpAuthProvider);
    assert_eq!(
        disabled.authenticated_action(&unknown),
        Err(ToolError::InvalidParams(
            "Authentication failed: Authentication error: Authentication is disabled".to_string()
        ))
    );
}

#[test]
fn action_report_without_an_auth_type() {
    let data = mcp_auth::auth::AuthData { user_id: "u1".to_string(), metadata: Vec::new() };
    assert_eq!(
        action_text(&data, "deploy"),
        "Authenticated Action:\n\u{2022} User ID: u1\n\u{2022} Action: deploy\n\u{2022} Auth Type: unknown\n\u{2022} Status: Success"
    );
}

#[test]
fn refusals_carry_the_message() {
    assert_eq!(
        refuse("Authentication failed: ", &ServerError::StoreUnavailable("down".to_string())),
        ToolError::InvalidParams("Authentication failed: Redis error: down".to_string())
    );
}

#[test]
fn session_info_answers() {
    let tool = SessionExampleTool::new(sessions());
    let req = SessionInfoRequest { session_id: SESSION.to_string() };
    let query = tool.get_session_info(&req).map_err(|_| ()).unwrap();
    assert_eq!(query.key(), "mcp_session:550e8400-e29b-41d4-a716-446655440000");

    let record = SessionData {
        session_id: SESSION.to_string(),
        user_id: "u1".to_string(),
        created_at: "2020-01-01T00:00:00Z".to_string(),
        expires_at: "2020-01-02T00:00:00Z".to_string(),
    };
    assert_eq!(
        SessionExampleTool::session_info(&req, &query.resolve(Fetched::Found(record))),
        Ok("Session Information:\n\u{2022} Session ID: 550e8400-e29b-41d4-a716-446655440000\n\u{2022} User ID: u1\n\u{2022} Status: Valid\n\u{2022} Authentication: Enabled"
            .to_string())
    );
    assert_eq!(
        SessionExampleTool::session_info(&req, &query.resolve(Fetched::Missing)),
        Err(ToolError::InvalidParams(
            "Authentication failed: Authentication error: Session not found or expired"
                .to_string()
        ))
    );

    let bad = SessionInfoRequest { session_id: "invalid-uuid".to_string() };
    assert_eq!(
        refusal(tool.get_session_info(&bad)),
        ToolError::InvalidParams(
            "Invalid session ID: Authentication error: Invalid session ID format".to_string()
        )
    );
}

#[test]
fn user_profile_answers() {
    let tool = SessionExampleTool::new(sessions());
    let req = UserProfileRequest { session_id: SESSION.to_string(), provider: "google".to_string() };
    let query = tool.get_user_profile(&req).map_err(|_| ()).unwrap();
    assert_eq!(query.key(), "mcp_session:550e8400-e29b-41d4-a716-446655440000");

    let report = |status: &str| {
        format!(
            "User Profile:\n\u{2022} User ID: u1\n\u{2022} Provider: google\n\u{2022} Email: test@example.com\n\u{2022} Display Name: Test User\n\u{2022} Provider User ID: 123\n\u{2022} Scopes: openid, email\n\u{2022} Linked At: 2019-06-01T12:00:00Z\n\u{2022} Token Status: {}\n\u{2022} Authentication: Enabled",
            status
        )
    };
    let before = Timestamp { secs: 1_577_836_799, nanos: 0 };
    let after = Timestamp { secs: 1_577_836_801, nanos: 0 };
    let found = Ok(token("2020-01-01T00:00:00Z"));
    assert_eq!(SessionExampleTool::user_profile_at(&found, before), Ok(report("Valid")));
    assert_eq!(SessionExampleTool::user_profile_at(&found, after), Ok(report("Expired")));
    assert_eq!(SessionExampleTool::user_profile(&found), Ok(report("Expired")));
    let text = SessionExampleTool::user_profile_at(&found, before).unwrap();
    assert!(!text.contains("secret"));

    let failed = Err(ServerError::InvalidCredential("OAuth token expired".to_string()));
    assert_eq!(
        SessionExampleTool::user_profile_at(&failed, before),
        Err(ToolError::InvalidParams(
            "Authentication failed: Authentication error: OAuth token expired".to_string()
        ))
    );

    let bad = UserProfileRequest { session_id: "123".to_string(), provider: "google".to_string() };
    assert_eq!(
        refusal(tool.get_user_profile(&bad)),
        ToolError::InvalidParams(
            "Invalid session ID: Authentication error: Invalid session ID format".to_string()
        )
    );
}

#[test]
fn methods_are_read_in_any_case() {
    assert_eq!(HttpMethod::parse("GET"), Ok(HttpMethod::Get));
    assert_eq!(HttpMethod::parse("get"), Ok(HttpMethod::Get));
    assert_eq!(HttpMethod::parse("Post"), Ok(HttpMethod::Post));
    assert_eq!(HttpMethod::parse("pUt"), Ok(HttpMethod::Put));
    assert_eq!(HttpMethod::parse("delete"), Ok(HttpMethod::Delete));
    for other in ["", "PATCH", "GET ", "HEAD"] {
        assert_eq!(
            HttpMethod::parse(other),
            Err(ToolError::InvalidParams("Unsupported HTTP method".to_string()))
        );
    }
    assert_eq!(HttpMethod::from_upper("GET"), Some(HttpMethod::Get));
    assert_eq!(HttpMethod::from_upper("get"), None);
}

#[test]
fn calls_are_planned() {
    let tool = HttpClientExampleTool::new(sessions());
    let public = PublicApiRequest {
        url: "https://httpbin.org/post".to_string(),
        method: "post".to_string(),
        body: Some("{\"a\":1}".to_string()),
    };
    assert_eq!(
        tool.public_api_call(&public),
        Ok(ApiCall {
            method: HttpMethod::Post,
            url: "https://httpbin.org/post".to_string(),
            body: Some("{\"a\":1}".to_string()),
        })
    );

    let req = AuthenticatedApiRequest {
        session_id: SESSION.to_string(),
        url: "https://api.example.com/me".to_string(),
        provider: "google".to_string(),
        method: "INVALID".to_string(),
        body: None,
    };
    let query = tool.authenticated_api_call(&req).map_err(|_| ()).unwrap();
    assert_eq!(query.key(), "mcp_session:550e8400-e29b-41d4-a716-446655440000");

    // a failed authentication is reported before an unsupported method
    let failed = Err(ServerError::InvalidCredential("OAuth token not found".to_string()));
    assert_eq!(
        HttpClientExampleTool::authorized_call(&req, &failed),
        Err(ToolError::InvalidParams(
            "Authentication failed: Authentication error: OAuth token not found".to_string()
        ))
    );
    let found = Ok(token("2020-01-01T00:00:00Z"));
    assert_eq!(
        HttpClientExampleTool::authorized_call(&req, &found),
        Err(ToolError::InvalidParams("Unsupported HTTP method".to_string()))
    );
    let get = AuthenticatedApiRequest { method: "get".to_string(), ..req };
    assert_eq!(
        HttpClientExampleTool::authorized_call(&get, &found),
        Ok(ApiCall {
            method: HttpMethod::Get,
            url: "https://api.example.com/me".to_string(),
            body: None,
        })
    );
}

#[test]
fn previews_are_cut_after_200_bytes() {
    assert_eq!(HttpClientExampleTool::response_preview(""), "");
    let exact = "a".repeat(200);
    assert_eq!(HttpClientExampleTool::response_preview(&exact), exact);
    let longer = "a".repeat(200) + "bc";
    assert_eq!(HttpClientExampleTool::response_preview(&longer), "a".repeat(200) + "...");
    // 100 characters of two bytes each, then more
    let wide = "\u{e9}".repeat(100) + "tail";
    assert_eq!(HttpClientExampleTool::response_preview(&wide), "\u{e9}".repeat(100) + "...");
}

#[test]
fn call_answers() {
    let public = PublicApiRequest {
        url: "https://httpbin.org/get".to_string(),
        method: "GET".to_string(),
        body: None,
    };
    let response =
        HttpOutcome::Response { status: "200 OK".to_string(), body: "h\u{e9}llo".to_string() };
    assert_eq!(
        HttpClientExampleTool::public_answer(&public, &response),
        Ok("Public API Call Results:\n\u{2022} URL: https://httpbin.org/get\n\u{2022} Method: GET\n\u{2022} Status: 200 OK\n\u{2022} Response Length: 6 bytes\n\u{2022} Response Preview: h\u{e9}llo\n\u{2022} Authentication: Not Required"
            .to_string())
    );
    assert_eq!(
        HttpClientExampleTool::public_answer(&public, &HttpOutcome::SendFailed("dns".to_string())),
        Err(ToolError::InternalError("HTTP request failed: dns".to_string()))
    );
    assert_eq!(
        HttpClientExampleTool::public_answer(&public, &HttpOutcome::BodyFailed("eof".to_string())),
        Err(ToolError::InternalError("Failed to read response: eof".to_string()))
    );

    let req = AuthenticatedApiRequest {
        session_id: SESSION.to_string(),
        url: "https://api.example.com/me".to_string(),
        provider: "google".to_string(),
        method: "get".to_string(),
        body: None,
    };
    let record = token("2020-01-01T00:00:00Z");
    let long = HttpOutcome::Response { status: "404 Not Found".to_string(), body: "x".repeat(250) };
    assert_eq!(
        HttpClientExampleTool::authenticated_answer(&req, &record, &long),
        Ok(format!(
            "Authenticated API Call Results:\n\u{2022} URL: https://api.example.com/me\n\u{2022} Method: get\n\u{2022} Status: 404 Not Found\n\u{2022} Provider: google\n\u{2022} User: test@example.com\n\u{2022} Response Length: 250 bytes\n\u{2022} Response Preview: {}...\n\u{2022} Authentication: Enabled",
            "x".repeat(200)
        ))
    );
    assert_eq!(
        HttpClientExampleTool::authenticated_answer(
            &req,
            &record,
            &HttpOutcome::SendFailed("refused".to_string())
        ),
        Err(ToolError::InternalError("HTTP request failed: refused".to_string()))
    );
    assert_eq!(
        HttpClientExampleTool::authenticated_answer(
            &req,
            &record,
            &HttpOutcome::BodyFailed("reset".to_string())
        ),
        Err(ToolError::InternalError("Failed to read response: reset".to_string()))
    );
}
