use user_signup::email::{mail_endpoint, render_confirmation};
use user_signup::model::{Identity, MerchantRecord, RegistrationRequest};
use user_signup::records::{build_user_record, default_allowance, default_merchant_id};
use user_signup::reply::{content_type, Failure, Reply};
use user_signup::username::{stored_username, username_is_allowed};

#[test]
fn reply_statuses() {
    assert_eq!(Reply::InvalidUsername.status(), 400);
    assert_eq!(Reply::UsernameTaken.status(), 409);
    assert_eq!(Reply::MissingIdentityKey.status(), 500);
    assert_eq!(Reply::IdentityRejected.status(), 500);
    assert_eq!(Reply::Registered.status(), 200);
}

#[test]
fn reply_bodies() {
    assert_eq!(
        Reply::InvalidUsername.body(),
        r#"{"failed":true,"message":"invalid characters in username"}"#
    );
    assert_eq!(
        Reply::UsernameTaken.body(),
        r#"{"failed":true,"message":"username already exists"}"#
    );
    assert_eq!(
        Reply::MissingIdentityKey.body(),
        r#"{"failed":true,"message":"FIREBASE_WEB_API_KEY is not set"}"#
    );
    assert_eq!(Reply::IdentityRejected.body(), r#"{"failed":true}"#);
    assert_eq!(Reply::Registered.body(), "{}");
}

#[test]
fn reply_bodies_are_json_with_a_failed_flag() {
    for reply in [
        Reply::InvalidUsername,
        Reply::UsernameTaken,
        Reply::MissingIdentityKey,
        Reply::IdentityRejected,
    ] {
        let value: serde_json::Value = serde_json::from_str(&reply.body()).unwrap();
        assert_eq!(value["failed"], true);
        assert!(reply.failed());
    }
    let ok: serde_json::Value = serde_json::from_str(&Reply::Registered.body()).unwrap();
    assert_eq!(ok, serde_json::Value::Object(serde_json::Map::new()));
    assert!(!Reply::Registered.failed());
    assert_eq!(content_type(), "application/json");
}

#[test]
fn failures_are_server_errors() {
    for failure in [
        Failure::UsernameQuery,
        Failure::UserInsert,
        Failure::MerchantLookup,
        Failure::MerchantMissing,
        Failure::AllowanceInsert,
        Failure::OutOfTurn,
    ] {
        assert_eq!(failure.status(), 500);
        assert_eq!(failure.body(), r#"{"failed":true}"#);
    }
}

#[test]
fn allowed_usernames() {
    assert!(username_is_allowed("ann"));
    assert!(username_is_allowed(""));
    assert!(username_is_allowed("Ann.Lee-42"));
    assert!(!username_is_allowed("ann lee"));
    assert!(!username_is_allowed("ann@example.test"));
    assert!(!username_is_allowed(" "));
    assert!(!username_is_allowed("@"));
    assert!(!username_is_allowed("日本語@"));
}

#[test]
fn usernames_are_stored_in_lower_case() {
    assert_eq!(stored_username("AnnLee"), "annlee");
    assert_eq!(stored_username("annlee"), "annlee");
    assert_eq!(stored_username("ÄÖÜ"), "äöü");
    assert_eq!(stored_username(""), "");
}

#[test]
fn user_record_is_built_from_its_parts() {
    let req = RegistrationRequest {
        email: "Submitted@Example.test".to_string(),
        username: "MiXed".to_string(),
        password: "secret".to_string(),
        want_secure_token: None,
    };
    let user = build_user_record(
        Identity { user_id: "u1".to_string(), email: "canonical@example.test".to_string() },
        &req,
        "2024-01-02T03:04:05+00:00".to_string(),
        "tok".to_string(),
    );
    assert_eq!(user.user_id, "u1");
    assert_eq!(user.email, "canonical@example.test");
    assert_eq!(user.username, "mixed");
    assert_eq!(user.created_at, "2024-01-02T03:04:05+00:00");
    assert_eq!(user.photo_url, None);
    assert_eq!(user.email_verification_token, "tok");
    assert!(!user.email_verified);
    assert!(!user.is_public);
}

#[test]
fn default_allowance_is_zero_at_the_merchant() {
    let merchant = MerchantRecord {
        name: "Shop".to_string(),
        logo_url: String::new(),
        merchant_uid: "m-7".to_string(),
    };
    let allowance = default_allowance(&merchant);
    assert_eq!(allowance.amount, "$0.00");
    assert_eq!(allowance.merchant_uid, "m-7");
    assert_eq!(default_merchant_id(), "zzy3wQDdmwXXjzVu4eCx3QRAQ1J3");
}

#[test]
fn confirmation_body_is_exact() {
    let body = render_confirmation("ann@example.test", "ann", "uid-1", "tok-1");
    assert_eq!(
        body,
        concat_all(&[
            r#"{"from":{"email":"confirmation@allowance.fund","name":"Hoya Allowance"},"#,
            r#""personalizations":[{"dynamic_template_data":"#,
            r#"{"token":"tok-1","uid":"uid-1","username":"ann"},"#,
            r#""to":[{"email":"ann@example.test"}]}],"#,
            r#""template_id":"d-f9bdc147ca1847b59ff50ea3be406da5"}"#,
        ])
    );
    assert_eq!(mail_endpoint(), "https://api.sendgrid.com/v3/mail/send");
}

fn concat_all(parts: &[&str]) -> String {
    let mut out = String::new();
    for p in parts {
        out.push_str(p);
    }
    out
}

#[test]
fn confirmation_body_escapes_its_values() {
    let body = render_confirmation("a\"b@example.test", "back\\slash", "line\nbreak", "tab\there");
    assert!(body.contains(r#""email":"a\"b@example.test""#));
    assert!(body.contains(r#""username":"back\\slash""#));
    assert!(body.contains(r#""uid":"line\nbreak""#));
    assert!(body.contains(r#""token":"tab\there""#));
    let value: serde_json::Value = serde_json::from_str(&body).unwrap();
    let data = &value["personalizations"][0]["dynamic_template_data"];
    assert_eq!(data["username"], "back\\slash");
    assert_eq!(data["uid"], "line\nbreak");
    assert_eq!(data["token"], "tab\there");
    assert_eq!(value["personalizations"][0]["to"][0]["email"], "a\"b@example.test");
    assert_eq!(value["from"]["email"], "confirmation@allowance.fund");
    assert_eq!(value["from"]["name"], "Hoya Allowance");
    assert_eq!(value["template_id"], "d-f9bdc147ca1847b59ff50ea3be406da5");
}

#[test]
fn confirmation_body_matches_the_printed_value() {
    let mut from = serde_json::Map::new();
    from.insert("email".to_string(), "confirmation@allowance.fund".into());
    from.insert("name".to_string(), "Hoya Allowance".into());
    let mut to = serde_json::Map::new();
    to.insert("email".to_string(), "é@example.test".into());
    let mut data = serde_json::Map::new();
    data.insert("username".to_string(), "a\u{1}b".into());
    data.insert("uid".to_string(), "u/1".into());
    data.insert("token".to_string(), "t".into());
    let mut personalization = serde_json::Map::new();
    personalization.insert(
        "to".to_string(),
        serde_json::Value::Array(vec![serde_json::Value::Object(to)]),
    );
    personalization
        .insert("dynamic_template_data".to_string(), serde_json::Value::Object(data));
    let mut root = serde_json::Map::new();
    root.insert("from".to_string(), serde_json::Value::Object(from));
    root.insert(
        "personalizations".to_string(),
        serde_json::Value::Array(vec![serde_json::Value::Object(personalization)]),
    );
    root.insert("template_id".to_string(), "d-f9bdc147ca1847b59ff50ea3be406da5".into());
    let printed = serde_json::Value::Object(root).to_string();
    assert_eq!(render_confirmation("é@example.test", "a\u{1}b", "u/1", "t"), printed);
}
