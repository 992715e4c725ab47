use mstodo_lib::auth::responses::{
    AuthenticationResponse, AuthorizationError, DeviceCodeAhenticationError, DeviceCodeChallenge,
    HttpResponse,
};
use mstodo_lib::auth::taxonomy::AuthorizationOutcome;
use mstodo_lib::error::AuthenticationError;
use mstodo_lib::json::{
    number_member, numbers_in, numbers_member, optional_text_member, text_member,
};

const CHALLENGE: &str = r#"{
    "user_code": "E4JX9QWH2",
    "device_code": "EAQABAAEAAAD--DLA3VO7QrddgJg7Wevr",
    "verification_uri": "https://microsoft.com/devicelogin",
    "expires_in": 900,
    "interval": 5,
    "message": "To sign in, use a web browser to open the page https://microsoft.com/devicelogin and enter the code E4JX9QWH2 to authenticate."
}"#;

const TOKEN: &str = r#"{
    "token_type": "Bearer",
    "scope": "User.Read Tasks.ReadWrite",
    "expires_in": 3599,
    "ext_expires_in": 3600,
    "access_token": "eyJ0eXAi.access",
    "refresh_token": "AwABAAAA.refresh",
    "id_token": "eyJ0eXAi.id"
}"#;

fn error_body(code: &str) -> String {
    format!(
        r#"{{"error":"{}","error_description":"AADSTS70016: pending","error_codes":[70016,50058],"timestamp":"2023-03-01 12:00:00Z","trace_id":"trace-1","correlation_id":"corr-1"}}"#,
        code
    )
}

fn parse(text: &str) -> Option<serde_json::Value> {
    serde_json::from_str(text).ok()
}

fn token() -> AuthenticationResponse {
    AuthenticationResponse {
        token_type: "Bearer".to_string(),
        scope: "User.Read Tasks.ReadWrite".to_string(),
        expires_in: 3599,
        ext_expires_in: 3600,
        access_token: "eyJ0eXAi.access".to_string(),
        refresh_token: "AwABAAAA.refresh".to_string(),
        id_token: Some("eyJ0eXAi.id".to_string()),
    }
}

fn response(status: u16, body: &str) -> HttpResponse {
    HttpResponse { status, body: body.to_string() }
}

#[test]
fn challenge_document_is_decoded_field_by_field() {
    let challenge = DeviceCodeChallenge::decode(CHALLENGE).unwrap();
    assert_eq!(challenge.device_code(), "EAQABAAEAAAD--DLA3VO7QrddgJg7Wevr");
    assert_eq!(challenge.user_code(), "E4JX9QWH2");
    assert_eq!(challenge.verification_uri(), "https://microsoft.com/devicelogin");
    assert_eq!(challenge.expires_in(), 900);
    assert_eq!(challenge.interval(), 5);
    assert_eq!(
        challenge.message(),
        "To sign in, use a web browser to open the page https://microsoft.com/devicelogin and enter the code E4JX9QWH2 to authenticate."
    );
}

#[test]
fn challenge_fields_keep_escaped_and_foreign_characters() {
    let body = r#"{"device_code":"a\"b\\c","user_code":"é\n","verification_uri":"https://例え.test/","expires_in":1,"interval":1,"message":""}"#;
    let challenge = DeviceCodeChallenge::decode(body).unwrap();
    assert_eq!(challenge.device_code(), "a\"b\\c");
    assert_eq!(challenge.user_code(), "é\n");
    assert_eq!(challenge.verification_uri(), "https://例え.test/");
    assert_eq!(challenge.message(), "");
}

#[test]
fn challenge_ignores_members_it_does_not_know() {
    let body = r#"{"device_code":"D","user_code":"U","verification_uri":"V","verification_uri_complete":"W","expires_in":900,"interval":5,"message":"M","extra":[1,{"a":null}]}"#;
    let challenge = DeviceCodeChallenge::decode(body).unwrap();
    assert_eq!(challenge.device_code(), "D");
    assert_eq!(challenge.interval(), 5);
}

#[test]
fn challenge_with_a_missing_member_is_rejected() {
    for missing in ["device_code", "user_code", "verification_uri", "expires_in", "interval", "message"] {
        let mut doc: Vec<String> = Vec::new();
        for (name, value) in [
            ("device_code", "\"D\""),
            ("user_code", "\"U\""),
            ("verification_uri", "\"V\""),
            ("expires_in", "900"),
            ("interval", "5"),
            ("message", "\"M\""),
        ] {
            if name != missing {
                doc.push(format!("\"{}\":{}", name, value));
            }
        }
        let body = format!("{{{}}}", doc.join(","));
        assert!(DeviceCodeChallenge::decode(&body).is_none(), "{}", missing);
    }
}

#[test]
fn challenge_with_a_member_of_the_wrong_kind_is_rejected() {
    let with = |expires_in: &str, interval: &str, message: &str| {
        format!(
            r#"{{"device_code":"D","user_code":"U","verification_uri":"V","expires_in":{},"interval":{},"message":{}}}"#,
            expires_in, interval, message
        )
    };
    assert!(DeviceCodeChallenge::decode(&with("900", "5", "\"M\"")).is_some());
    assert!(DeviceCodeChallenge::decode(&with("\"900\"", "5", "\"M\"")).is_none());
    assert!(DeviceCodeChallenge::decode(&with("900.5", "5", "\"M\"")).is_none());
    assert!(DeviceCodeChallenge::decode(&with("-1", "5", "\"M\"")).is_none());
    assert!(DeviceCodeChallenge::decode(&with("900", "null", "\"M\"")).is_none());
    assert!(DeviceCodeChallenge::decode(&with("900", "18446744073709551616", "\"M\"")).is_none());
    assert!(DeviceCodeChallenge::decode(&with("900", "5", "7")).is_none());
    assert!(DeviceCodeChallenge::decode(&with("900", "5", "null")).is_none());
    assert!(DeviceCodeChallenge::decode(&with("18446744073709551615", "5", "\"M\"")).is_some());
}

#[test]
fn challenge_with_zero_interval_is_rejected() {
    let body = r#"{"device_code":"D","user_code":"U","verification_uri":"V","expires_in":900,"interval":0,"message":"M"}"#;
    assert!(DeviceCodeChallenge::decode(body).is_none());
    assert!(DeviceCodeChallenge::new(
        "D".to_string(),
        "U".to_string(),
        "V".to_string(),
        900,
        0,
        "M".to_string()
    )
    .is_none());
}

#[test]
fn challenge_that_is_no_json_object_is_rejected() {
    for body in ["", "not json", "{", "[]", "null", "42", "\"text\"", "{} trailing", "{\"device_code\":\"D\""] {
        assert!(DeviceCodeChallenge::decode(body).is_none(), "{:?}", body);
    }
}

#[test]
fn challenge_from_fields_needs_every_field() {
    let text = |t: &str| Some(t.to_string());
    let full = DeviceCodeChallenge::from_fields(
        text("D"),
        text("U"),
        text("V"),
        Some(900),
        Some(5),
        text("M"),
    )
    .unwrap();
    assert_eq!(full.device_code(), "D");
    assert_eq!(full.user_code(), "U");
    assert_eq!(full.verification_uri(), "V");
    assert_eq!(full.expires_in(), 900);
    assert_eq!(full.interval(), 5);
    assert_eq!(full.message(), "M");
    assert!(DeviceCodeChallenge::from_fields(None, text("U"), text("V"), Some(900), Some(5), text("M")).is_none());
    assert!(DeviceCodeChallenge::from_fields(text("D"), None, text("V"), Some(900), Some(5), text("M")).is_none());
    assert!(DeviceCodeChallenge::from_fields(text("D"), text("U"), None, Some(900), Some(5), text("M")).is_none());
    assert!(DeviceCodeChallenge::from_fields(text("D"), text("U"), text("V"), None, Some(5), text("M")).is_none());
    assert!(DeviceCodeChallenge::from_fields(text("D"), text("U"), text("V"), Some(900), None, text("M")).is_none());
    assert!(DeviceCodeChallenge::from_fields(text("D"), text("U"), text("V"), Some(900), Some(5), None).is_none());
    assert!(DeviceCodeChallenge::from_fields(text("D"), text("U"), text("V"), Some(900), Some(0), text("M")).is_none());
}

#[test]
fn challenge_prompt_and_clone_keep_the_fields() {
    let challenge = DeviceCodeChallenge::decode(CHALLENGE).unwrap();
    let prompt = challenge.prompt();
    assert_eq!(prompt.user_code, "E4JX9QWH2");
    assert_eq!(prompt.verification_uri, "https://microsoft.com/devicelogin");
    assert_eq!(prompt.message, challenge.message());
    let copy = challenge.clone();
    assert!(copy == challenge);
}

#[test]
fn token_document_is_decoded_field_by_field() {
    assert_eq!(AuthenticationResponse::decode(TOKEN), Some(token()));
}

#[test]
fn token_without_id_token_is_accepted() {
    let absent = r#"{"token_type":"Bearer","scope":"S","expires_in":1,"ext_expires_in":2,"access_token":"A","refresh_token":"R"}"#;
    let null = r#"{"token_type":"Bearer","scope":"S","expires_in":1,"ext_expires_in":2,"access_token":"A","refresh_token":"R","id_token":null}"#;
    let expected = AuthenticationResponse {
        token_type: "Bearer".to_string(),
        scope: "S".to_string(),
        expires_in: 1,
        ext_expires_in: 2,
        access_token: "A".to_string(),
        refresh_token: "R".to_string(),
        id_token: None,
    };
    assert_eq!(AuthenticationResponse::decode(absent), Some(expected.clone()));
    assert_eq!(AuthenticationResponse::decode(null), Some(expected));
}

#[test]
fn token_with_an_id_token_that_is_no_text_is_rejected() {
    let body = r#"{"token_type":"Bearer","scope":"S","expires_in":1,"ext_expires_in":2,"access_token":"A","refresh_token":"R","id_token":7}"#;
    assert_eq!(AuthenticationResponse::decode(body), None);
}

#[test]
fn token_without_a_required_member_is_rejected() {
    let no_access = r#"{"token_type":"Bearer","scope":"S","expires_in":1,"ext_expires_in":2,"refresh_token":"R"}"#;
    let no_refresh = r#"{"token_type":"Bearer","scope":"S","expires_in":1,"ext_expires_in":2,"access_token":"A"}"#;
    let text_number = r#"{"token_type":"Bearer","scope":"S","expires_in":"1","ext_expires_in":2,"access_token":"A","refresh_token":"R"}"#;
    assert_eq!(AuthenticationResponse::decode(no_access), None);
    assert_eq!(AuthenticationResponse::decode(no_refresh), None);
    assert_eq!(AuthenticationResponse::decode(text_number), None);
    assert_eq!(AuthenticationResponse::decode("{}"), None);
    assert_eq!(AuthenticationResponse::decode("oops"), None);
}

#[test]
fn token_from_fields_needs_all_but_the_id_token() {
    let text = |t: &str| Some(t.to_string());
    let built = AuthenticationResponse::from_fields(
        text("Bearer"),
        text("User.Read Tasks.ReadWrite"),
        Some(3599),
        Some(3600),
        text("eyJ0eXAi.access"),
        text("AwABAAAA.refresh"),
        Some(text("eyJ0eXAi.id")),
    );
    assert_eq!(built, Some(token()));
    let without = AuthenticationResponse::from_fields(
        text("Bearer"),
        text("S"),
        Some(1),
        Some(2),
        text("A"),
        text("R"),
        Some(None),
    )
    .unwrap();
    assert_eq!(without.id_token, None);
    assert_eq!(
        AuthenticationResponse::from_fields(text("B"), text("S"), Some(1), Some(2), text("A"), text("R"), None),
        None
    );
    assert_eq!(
        AuthenticationResponse::from_fields(None, text("S"), Some(1), Some(2), text("A"), text("R"), Some(None)),
        None
    );
    assert_eq!(
        AuthenticationResponse::from_fields(text("B"), text("S"), None, Some(2), text("A"), text("R"), Some(None)),
        None
    );
    assert_eq!(
        AuthenticationResponse::from_fields(text("B"), text("S"), Some(1), Some(2), None, text("R"), Some(None)),
        None
    );
}

#[test]
fn error_codes_are_named_as_the_provider_writes_them() {
    let all = [
        (AuthorizationError::AuthorizationPending, "authorization_pending"),
        (AuthorizationError::AuthorizationDeclined, "authorization_declined"),
        (AuthorizationError::BadVerificationCode, "bad_verification_code"),
        (AuthorizationError::ExpiredToken, "expired_token"),
    ];
    for (error, code) in all {
        assert_eq!(error.as_code(), code);
        assert_eq!(AuthorizationError::from_code(code), Some(error));
    }
}

#[test]
fn unknown_error_codes_name_no_error() {
    for code in ["", "slow_down", "invalid_grant", "Authorization_Pending", "authorization_pending ", "expired"] {
        assert_eq!(AuthorizationError::from_code(code), None, "{:?}", code);
    }
}

#[test]
fn error_body_is_decoded_field_by_field() {
    let decoded = DeviceCodeAhenticationError::decode(&error_body("authorization_pending"));
    assert_eq!(
        decoded,
        Some(DeviceCodeAhenticationError {
            error: AuthorizationError::AuthorizationPending,
            error_description: "AADSTS70016: pending".to_string(),
            error_codes: vec![70016, 50058],
            timestamp: "2023-03-01 12:00:00Z".to_string(),
            trace_id: "trace-1".to_string(),
            correlation_id: "corr-1".to_string(),
        })
    );
}

#[test]
fn error_body_with_unknown_code_or_missing_member_is_rejected() {
    assert_eq!(DeviceCodeAhenticationError::decode(&error_body("slow_down")), None);
    let short = r#"{"error":"authorization_pending","error_description":"d"}"#;
    assert_eq!(DeviceCodeAhenticationError::decode(short), None);
    let bad_codes = r#"{"error":"expired_token","error_description":"d","error_codes":[1,"2"],"timestamp":"t","trace_id":"x","correlation_id":"y"}"#;
    assert_eq!(DeviceCodeAhenticationError::decode(bad_codes), None);
    let no_array = r#"{"error":"expired_token","error_description":"d","error_codes":7,"timestamp":"t","trace_id":"x","correlation_id":"y"}"#;
    assert_eq!(DeviceCodeAhenticationError::decode(no_array), None);
    let empty_codes = r#"{"error":"expired_token","error_description":"d","error_codes":[],"timestamp":"t","trace_id":"x","correlation_id":"y"}"#;
    assert_eq!(
        DeviceCodeAhenticationError::decode(empty_codes).map(|e| (e.error, e.error_codes)),
        Some((AuthorizationError::ExpiredToken, vec![]))
    );
}

#[test]
fn error_body_from_fields_needs_every_field_and_a_known_code() {
    let text = |t: &str| Some(t.to_string());
    let built = DeviceCodeAhenticationError::from_fields(
        text("authorization_declined"),
        text("d"),
        Some(vec![1, 2]),
        text("t"),
        text("x"),
        text("y"),
    )
    .unwrap();
    assert_eq!(built.error, AuthorizationError::AuthorizationDeclined);
    assert_eq!(built.error_description, "d");
    assert_eq!(built.error_codes, vec![1, 2]);
    assert_eq!(built.timestamp, "t");
    assert_eq!(built.trace_id, "x");
    assert_eq!(built.correlation_id, "y");
    assert_eq!(
        DeviceCodeAhenticationError::from_fields(text("nope"), text("d"), Some(vec![]), text("t"), text("x"), text("y")),
        None
    );
    assert_eq!(
        DeviceCodeAhenticationError::from_fields(None, text("d"), Some(vec![]), text("t"), text("x"), text("y")),
        None
    );
    assert_eq!(
        DeviceCodeAhenticationError::from_fields(text("expired_token"), text("d"), None, text("t"), text("x"), text("y")),
        None
    );
    assert_eq!(
        DeviceCodeAhenticationError::from_fields(text("expired_token"), text("d"), Some(vec![]), text("t"), text("x"), None),
        None
    );
}

#[test]
fn status_codes_from_200_to_299_report_success() {
    assert!(!response(199, "").succeeded());
    assert!(response(200, "").succeeded());
    assert!(response(204, "").succeeded());
    assert!(response(299, "").succeeded());
    assert!(!response(300, "").succeeded());
    assert!(!response(400, "").succeeded());
    assert!(!response(0, "").succeeded());
    assert!(!response(u16::MAX, "").succeeded());
}

#[test]
fn each_known_code_has_its_outcome() {
    let cases = [
        ("authorization_pending", AuthorizationOutcome::Pending),
        ("authorization_declined", AuthorizationOutcome::Declined),
        ("bad_verification_code", AuthorizationOutcome::BadVerificationCode),
        ("expired_token", AuthorizationOutcome::Expired),
    ];
    for (code, outcome) in cases {
        let got = AuthorizationOutcome::from_response(response(400, &error_body(code)));
        assert_eq!(got, outcome);
    }
    assert_eq!(
        AuthorizationOutcome::from_code(AuthorizationError::AuthorizationPending),
        AuthorizationOutcome::Pending
    );
    assert_eq!(
        AuthorizationOutcome::from_code(AuthorizationError::AuthorizationDeclined),
        AuthorizationOutcome::Declined
    );
    assert_eq!(
        AuthorizationOutcome::from_code(AuthorizationError::BadVerificationCode),
        AuthorizationOutcome::BadVerificationCode
    );
    assert_eq!(
        AuthorizationOutcome::from_code(AuthorizationError::ExpiredToken),
        AuthorizationOutcome::Expired
    );
}

#[test]
fn only_pending_is_recoverable() {
    assert!(AuthorizationOutcome::Pending.is_recoverable());
    assert!(!AuthorizationOutcome::Declined.is_recoverable());
    assert!(!AuthorizationOutcome::BadVerificationCode.is_recoverable());
    assert!(!AuthorizationOutcome::Expired.is_recoverable());
    assert!(!AuthorizationOutcome::Success(token()).is_recoverable());
    assert!(!AuthorizationOutcome::Unclassified("x".to_string()).is_recoverable());
}

#[test]
fn unknown_error_code_is_unclassified_never_pending() {
    for code in ["slow_down", "invalid_grant", "authorization_pending2", ""] {
        let body = error_body(code);
        let got = AuthorizationOutcome::from_response(response(400, &body));
        assert_eq!(got, AuthorizationOutcome::Unclassified(body));
    }
}

#[test]
fn error_answer_that_is_no_json_is_unclassified_with_its_raw_text() {
    for body in ["<html>Bad Gateway</html>", "", "{\"error\":", "Service Unavailable"] {
        let got = AuthorizationOutcome::from_response(response(502, body));
        assert_eq!(got, AuthorizationOutcome::Unclassified(body.to_string()));
    }
}

#[test]
fn successful_answer_holds_the_token_record() {
    let got = AuthorizationOutcome::from_response(response(200, TOKEN));
    assert_eq!(got, AuthorizationOutcome::Success(token()));
}

#[test]
fn successful_answer_without_a_token_record_is_unclassified() {
    let body = error_body("authorization_pending");
    let got = AuthorizationOutcome::from_response(response(200, &body));
    assert_eq!(got, AuthorizationOutcome::Unclassified(body));
    let got = AuthorizationOutcome::from_response(response(200, "{}"));
    assert_eq!(got, AuthorizationOutcome::Unclassified("{}".to_string()));
}

#[test]
fn error_status_with_a_token_body_is_unclassified() {
    let got = AuthorizationOutcome::from_response(response(400, TOKEN));
    assert_eq!(got, AuthorizationOutcome::Unclassified(TOKEN.to_string()));
}

#[test]
fn outcome_from_parts() {
    let raw = "raw".to_string();
    assert_eq!(
        AuthorizationOutcome::from_token(Some(token()), raw.clone()),
        AuthorizationOutcome::Success(token())
    );
    assert_eq!(
        AuthorizationOutcome::from_token(None, raw.clone()),
        AuthorizationOutcome::Unclassified(raw.clone())
    );
    let error = DeviceCodeAhenticationError::decode(&error_body("expired_token"));
    assert_eq!(AuthorizationOutcome::from_error(error, raw.clone()), AuthorizationOutcome::Expired);
    assert_eq!(
        AuthorizationOutcome::from_error(None, raw.clone()),
        AuthorizationOutcome::Unclassified(raw)
    );
}

#[test]
fn refresh_answer_comes_to_a_token_or_a_failure() {
    assert_eq!(AuthenticationResponse::refreshed(Ok(response(200, TOKEN))), Ok(token()));
    assert_eq!(
        AuthenticationResponse::refreshed(Ok(response(400, TOKEN))),
        Err(AuthenticationError::UnexpectedResponse(TOKEN.to_string()))
    );
    assert_eq!(
        AuthenticationResponse::refreshed(Ok(response(200, "nope"))),
        Err(AuthenticationError::UnexpectedResponse("nope".to_string()))
    );
    assert_eq!(
        AuthenticationResponse::refreshed(Err("timed out".to_string())),
        Err(AuthenticationError::NetworkError("timed out".to_string()))
    );
    assert_eq!(
        AuthenticationResponse::refreshed_from(true, Some(token()), "r".to_string()),
        Ok(token())
    );
    assert_eq!(
        AuthenticationResponse::refreshed_from(false, Some(token()), "r".to_string()),
        Err(AuthenticationError::UnexpectedResponse("r".to_string()))
    );
    assert_eq!(
        AuthenticationResponse::refreshed_from(true, None, "r".to_string()),
        Err(AuthenticationError::UnexpectedResponse("r".to_string()))
    );
}

#[test]
fn json_members_are_read_by_kind() {
    let doc = parse(r#"{"t":"text","n":7,"z":null,"a":[1,2,3],"m":[1,"x"],"o":{"t":"inner"},"f":1.5,"neg":-1}"#).unwrap();
    assert_eq!(text_member(&doc, "t"), Some("text".to_string()));
    assert_eq!(text_member(&doc, "n"), None);
    assert_eq!(text_member(&doc, "z"), None);
    assert_eq!(text_member(&doc, "missing"), None);
    assert_eq!(number_member(&doc, "n"), Some(7));
    assert_eq!(number_member(&doc, "t"), None);
    assert_eq!(number_member(&doc, "f"), None);
    assert_eq!(number_member(&doc, "neg"), None);
    assert_eq!(number_member(&doc, "missing"), None);
    assert_eq!(optional_text_member(&doc, "t"), Some(Some("text".to_string())));
    assert_eq!(optional_text_member(&doc, "z"), Some(None));
    assert_eq!(optional_text_member(&doc, "missing"), Some(None));
    assert_eq!(optional_text_member(&doc, "n"), None);
    assert_eq!(numbers_member(&doc, "a"), Some(vec![1, 2, 3]));
    assert_eq!(numbers_member(&doc, "m"), None);
    assert_eq!(numbers_member(&doc, "n"), None);
    assert_eq!(numbers_member(&doc, "missing"), None);
    assert_eq!(text_member(&doc, "o"), None);
}

#[test]
fn members_of_what_is_no_object_are_missing() {
    let doc = parse("[1,2]").unwrap();
    assert_eq!(text_member(&doc, "0"), None);
    assert_eq!(optional_text_member(&doc, "0"), Some(None));
    let doc = parse("\"text\"").unwrap();
    assert_eq!(number_member(&doc, "len"), None);
}

#[test]
fn numbers_in_reads_every_item_or_none() {
    let doc = parse(r#"{"a":[3,2,1],"b":[1,null]}"#).unwrap();
    let a = doc.get("a").unwrap().as_array().unwrap();
    let b = doc.get("b").unwrap().as_array().unwrap();
    assert_eq!(numbers_in(a), Some(vec![3, 2, 1]));
    assert_eq!(numbers_in(b), None);
    assert_eq!(numbers_in(&Vec::new()), Some(vec![]));
}
