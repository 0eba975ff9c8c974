//! The records that a registration reads and writes, each with its view.

use vstd::prelude::*;

verus! {

/// What an optional string holds.
pub open spec fn text_of(o: Option<String>) -> Option<Seq<char>> {
    match o {
        Some(s) => Some(s@),
        None => None,
    }
}

/// A copy of an optional string.
pub fn copy_text(o: &Option<String>) -> (out: Option<String>)
    ensures
        text_of(out) == text_of(*o),
{
    match o {
        Some(s) => Some(s.clone()),
        None => None,
    }
}

/// The keys that the process was started with. Either may be missing.
pub struct Config {
    pub identity_api_key: Option<String>,
    pub email_api_key: Option<String>,
}

pub struct ConfigModel {
    pub identity_api_key: Option<Seq<char>>,
    pub email_api_key: Option<Seq<char>>,
}

impl View for Config {
    type V = ConfigModel;

    open spec fn view(&self) -> ConfigModel {
        ConfigModel {
            identity_api_key: text_of(self.identity_api_key),
            email_api_key: text_of(self.email_api_key),
        }
    }
}

/// What a client submits. The password is handed to the identity provider and
/// stored nowhere.
pub struct RegistrationRequest {
    pub email: String,
    pub username: String,
    pub password: String,
    pub want_secure_token: Option<bool>,
}

pub struct RequestModel {
    pub email: Seq<char>,
    pub username: Seq<char>,
    pub password: Seq<char>,
    pub want_secure_token: Option<bool>,
}

impl View for RegistrationRequest {
    type V = RequestModel;

    open spec fn view(&self) -> RequestModel {
        RequestModel {
            email: self.email@,
            username: self.username@,
            password: self.password@,
            want_secure_token: self.want_secure_token,
        }
    }
}

impl RequestModel {
    /// The request that stands for a missing or malformed body.
    pub open spec fn empty() -> RequestModel {
        RequestModel {
            email: Seq::empty(),
            username: Seq::empty(),
            password: Seq::empty(),
            want_secure_token: None,
        }
    }

    /// The flag handed to the identity provider: false unless asked for.
    pub open spec fn secure_token(self) -> bool {
        match self.want_secure_token {
            Some(b) => b,
            None => false,
        }
    }
}

impl Default for RegistrationRequest {
    /// The request used when a body cannot be read: every field empty.
    fn default() -> (out: RegistrationRequest)
        ensures
            out@ == RequestModel::empty(),
    {
        RegistrationRequest {
            email: String::new(),
            username: String::new(),
            password: String::new(),
            want_secure_token: None,
        }
    }
}

impl RegistrationRequest {
    /// The request to work on, given what could be read of the body: the
    /// request that was read, or the empty one where the body was missing or
    /// malformed. A body that cannot be read is not refused here.
    pub fn or_empty(parsed: Option<RegistrationRequest>) -> (out: RegistrationRequest)
        ensures
            out@ == (match parsed {
                Some(request) => request@,
                None => RequestModel::empty(),
            }),
    {
        match parsed {
            Some(request) => request,
            None => RegistrationRequest::default(),
        }
    }
}

/// What the identity provider answers when it has created an identity.
pub struct Identity {
    pub user_id: String,
    pub email: String,
}

pub struct IdentityModel {
    pub user_id: Seq<char>,
    pub email: Seq<char>,
}

impl View for Identity {
    type V = IdentityModel;

    open spec fn view(&self) -> IdentityModel {
        IdentityModel { user_id: self.user_id@, email: self.email@ }
    }
}

/// A payee. Merchants are seeded elsewhere and only read here.
pub struct MerchantRecord {
    pub name: String,
    pub logo_url: String,
    pub merchant_uid: String,
}

pub struct MerchantModel {
    pub name: Seq<char>,
    pub logo_url: Seq<char>,
    pub merchant_uid: Seq<char>,
}

impl View for MerchantRecord {
    type V = MerchantModel;

    open spec fn view(&self) -> MerchantModel {
        MerchantModel {
            name: self.name@,
            logo_url: self.logo_url@,
            merchant_uid: self.merchant_uid@,
        }
    }
}

/// A registered user, keyed by `user_id`.
pub struct UserRecord {
    pub user_id: String,
    pub email: String,
    pub username: String,
    pub created_at: String,
    pub photo_url: Option<String>,
    pub email_verification_token: String,
    pub email_verified: bool,
    pub is_public: bool,
}

pub struct UserModel {
    pub user_id: Seq<char>,
    pub email: Seq<char>,
    pub username: Seq<char>,
    pub created_at: Seq<char>,
    pub photo_url: Option<Seq<char>>,
    pub email_verification_token: Seq<char>,
    pub email_verified: bool,
    pub is_public: bool,
}

impl View for UserRecord {
    type V = UserModel;

    open spec fn view(&self) -> UserModel {
        UserModel {
            user_id: self.user_id@,
            email: self.email@,
            username: self.username@,
            created_at: self.created_at@,
            photo_url: text_of(self.photo_url),
            email_verification_token: self.email_verification_token@,
            email_verified: self.email_verified,
            is_public: self.is_public,
        }
    }
}

impl Clone for UserRecord {
    fn clone(&self) -> (out: UserRecord)
        ensures
            out@ == self@,
    {
        UserRecord {
            user_id: self.user_id.clone(),
            email: self.email.clone(),
            username: self.username.clone(),
            created_at: self.created_at.clone(),
            photo_url: copy_text(&self.photo_url),
            email_verification_token: self.email_verification_token.clone(),
            email_verified: self.email_verified,
            is_public: self.is_public,
        }
    }
}

/// What a user may spend at one merchant. It is stored under the user's
/// record and keyed by `merchant_uid`.
pub struct AllowanceRecord {
    pub amount: String,
    pub merchant_uid: String,
}

pub struct AllowanceModel {
    pub amount: Seq<char>,
    pub merchant_uid: Seq<char>,
}

impl View for AllowanceRecord {
    type V = AllowanceModel;

    open spec fn view(&self) -> AllowanceModel {
        AllowanceModel { amount: self.amount@, merchant_uid: self.merchant_uid@ }
    }
}

} // verus!
