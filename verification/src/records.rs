//! The records that a registration creates.

use vstd::prelude::*;
use crate::model::{
    AllowanceModel, AllowanceRecord, Identity, IdentityModel, MerchantModel, MerchantRecord,
    RegistrationRequest, RequestModel, UserModel, UserRecord,
};
use crate::username::{lowercase_of, stored_username};

verus! {

/// The identifier of the merchant whose allowance every new user gets.
pub open spec fn default_merchant() -> Seq<char> {
    "zzy3wQDdmwXXjzVu4eCx3QRAQ1J3"@
}

/// The default merchant's identifier, as a string to look it up by.
pub fn default_merchant_id() -> (id: String)
    ensures
        id@ == default_merchant(),
{
    String::from_str("zzy3wQDdmwXXjzVu4eCx3QRAQ1J3")
}

/// The amount a new allowance starts with.
pub open spec fn zero_amount() -> Seq<char> {
    "$0.00"@
}

/// The record of a user whose identity was just created: the identity
/// provider's id and email, the submitted username in lower case, nothing
/// verified or public yet.
pub open spec fn new_user(
    identity: IdentityModel,
    request: RequestModel,
    created_at: Seq<char>,
    token: Seq<char>,
) -> UserModel {
    UserModel {
        user_id: identity.user_id,
        email: identity.email,
        username: lowercase_of(request.username),
        created_at,
        photo_url: None,
        email_verification_token: token,
        email_verified: false,
        is_public: false,
    }
}

/// The allowance a new user gets at `merchant`: zero.
pub open spec fn new_allowance(merchant: MerchantModel) -> AllowanceModel {
    AllowanceModel { amount: zero_amount(), merchant_uid: merchant.merchant_uid }
}

/// Calls `chrono::Utc::now` and formats the result with
/// `DateTime::to_rfc3339`. The text depends on the clock, so nothing is
/// claimed of it. `Utc::now` panics on a machine whose clock stands before
/// 1970; nothing here can rule that out.
#[verifier::external_body]
pub(crate) fn timestamp_now() -> (out: String) {
    chrono::Utc::now().to_rfc3339()
}

/// Calls `uuid::Uuid::new_v4` and formats the result with its `Display`.
/// The identifier is random; its hyphenated form always has 36 characters.
#[verifier::external_body]
pub(crate) fn fresh_token() -> (out: String)
    ensures
        out@.len() == 36,
{
    uuid::Uuid::new_v4().to_string()
}

/// Builds the record of a new user from the identity, the request, the time
/// of creation and the verification token.
pub fn build_user_record(
    identity: Identity,
    request: &RegistrationRequest,
    created_at: String,
    token: String,
) -> (user: UserRecord)
    ensures
        user@ == new_user(identity@, request@, created_at@, token@),
{
    UserRecord {
        user_id: identity.user_id,
        email: identity.email,
        username: stored_username(request.username.as_str()),
        created_at,
        photo_url: None,
        email_verification_token: token,
        email_verified: false,
        is_public: false,
    }
}

/// Builds the zero allowance of a new user at `merchant`.
pub fn default_allowance(merchant: &MerchantRecord) -> (allowance: AllowanceRecord)
    ensures
        allowance@ == new_allowance(merchant@),
{
    AllowanceRecord {
        amount: String::from_str("$0.00"),
        merchant_uid: merchant.merchant_uid.clone(),
    }
}

} // verus!
