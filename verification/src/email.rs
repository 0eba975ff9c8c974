//! The confirmation email, as the request body that the mail service takes.

use vstd::prelude::*;

verus! {

/// Where the mail service takes requests.
pub fn mail_endpoint() -> (url: &'static str)
    ensures
        url@ == "https://api.sendgrid.com/v3/mail/send"@,
{
    "https://api.sendgrid.com/v3/mail/send"
}

/// A text as a JSON string, quotes and escapes included, as `serde_json`
/// prints `Value::String`.
pub uninterp spec fn json_string(text: Seq<char>) -> Seq<char>;

/// Prints `text` through the `Display` of `serde_json::Value::String`. The
/// result is a function of the text alone and is known here only by its name,
/// `json_string`.
#[verifier::external_body]
pub(crate) fn quote_json(text: &str) -> (out: String)
    ensures
        out@ == json_string(text@),
{
    serde_json::Value::String(text.to_owned()).to_string()
}

/// The body of the request that sends the confirmation email: a JSON object
/// with the sender, one personalization (the recipient and the template's
/// data: token, user id, username) and the template's id. Keys stand in
/// alphabetical order at every level, and no white space separates them.
pub open spec fn confirmation_payload(
    email: Seq<char>,
    username: Seq<char>,
    user_id: Seq<char>,
    token: Seq<char>,
) -> Seq<char> {
    "{\"from\":{\"email\":\"confirmation@allowance.fund\",\"name\":\"Hoya Allowance\"},\"personalizations\":[{\"dynamic_template_data\":{\"token\":"@
        + json_string(token) + ",\"uid\":"@ + json_string(user_id) + ",\"username\":"@
        + json_string(username) + "},\"to\":[{\"email\":"@ + json_string(email)
        + "}]}],\"template_id\":\"d-f9bdc147ca1847b59ff50ea3be406da5\"}"@
}

/// Assembles the confirmation email's request body.
pub fn render_confirmation(email: &str, username: &str, user_id: &str, token: &str) -> (body:
    String)
    ensures
        body@ == confirmation_payload(email@, username@, user_id@, token@),
{
    let mut body = String::from_str(
        "{\"from\":{\"email\":\"confirmation@allowance.fund\",\"name\":\"Hoya Allowance\"},\"personalizations\":[{\"dynamic_template_data\":{\"token\":",
    );
    let quoted_token = quote_json(token);
    body.append(quoted_token.as_str());
    body.append(",\"uid\":");
    let quoted_id = quote_json(user_id);
    body.append(quoted_id.as_str());
    body.append(",\"username\":");
    let quoted_name = quote_json(username);
    body.append(quoted_name.as_str());
    body.append("},\"to\":[{\"email\":");
    let quoted_email = quote_json(email);
    body.append(quoted_email.as_str());
    body.append("}]}],\"template_id\":\"d-f9bdc147ca1847b59ff50ea3be406da5\"}");
    body
}

} // verus!
