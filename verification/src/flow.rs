//! A registration as a state machine: each event that its driver reports
//! moves it one stage on and names the next thing to do.

use vstd::prelude::*;
use crate::email::{confirmation_payload, render_confirmation};
use crate::model::{
    copy_text, AllowanceModel, AllowanceRecord, Config, ConfigModel, Identity, IdentityModel,
    MerchantModel, MerchantRecord, RegistrationRequest, RequestModel, UserModel, UserRecord,
};
use crate::records::{
    build_user_record, default_allowance, default_merchant, default_merchant_id, fresh_token,
    new_allowance, new_user, timestamp_now,
};
use crate::reply::{Failure, Reply};
use crate::username::{username_allowed, username_is_allowed};

verus! {

/// What the driver reports back after carrying out an action.
pub enum Event {
    /// The request has arrived.
    Begin,
    /// The user store holds this many records with the submitted username.
    UsersCounted(usize),
    /// The identity provider created the identity.
    IdentityCreated(Identity),
    /// The identity provider refused, for whatever reason.
    IdentityRejected,
    /// The user store took the record it was handed.
    Stored,
    /// The user store holds the merchant that was asked for.
    MerchantFound(MerchantRecord),
    /// The user store holds no such merchant.
    MerchantAbsent,
    /// The user store could not be reached or refused the call.
    StoreFailed,
    /// The mail service took the email.
    EmailSent,
    /// The mail service could not be reached.
    EmailFailed,
}

pub enum EventModel {
    Begin,
    UsersCounted(nat),
    IdentityCreated(IdentityModel),
    IdentityRejected,
    Stored,
    MerchantFound(MerchantModel),
    MerchantAbsent,
    StoreFailed,
    EmailSent,
    EmailFailed,
}

impl View for Event {
    type V = EventModel;

    open spec fn view(&self) -> EventModel {
        match *self {
            Event::Begin => EventModel::Begin,
            Event::UsersCounted(n) => EventModel::UsersCounted(n as nat),
            Event::IdentityCreated(identity) => EventModel::IdentityCreated(identity@),
            Event::IdentityRejected => EventModel::IdentityRejected,
            Event::Stored => EventModel::Stored,
            Event::MerchantFound(merchant) => EventModel::MerchantFound(merchant@),
            Event::MerchantAbsent => EventModel::MerchantAbsent,
            Event::StoreFailed => EventModel::StoreFailed,
            Event::EmailSent => EventModel::EmailSent,
            Event::EmailFailed => EventModel::EmailFailed,
        }
    }
}

/// What the driver is to do next.
pub enum Action {
    /// Count the stored users whose username equals `username`.
    FindUsers { username: String },
    /// Ask the identity provider for an identity.
    SignUp { api_key: String, email: String, password: String, want_secure_token: bool },
    /// Store `user` under its `user_id`.
    StoreUser { user: UserRecord },
    /// Fetch the merchant with this id.
    FetchMerchant { merchant_id: String },
    /// Store `allowance` under the user `user_id`, keyed by its merchant.
    StoreAllowance { user_id: String, allowance: AllowanceRecord },
    /// Post `payload` to the mail service.
    SendEmail { api_key: String, payload: String },
    /// Answer the client. The registration is over.
    Respond(Reply),
    /// Give up without an answer. The registration is over.
    Abort(Failure),
}

pub enum ActionModel {
    FindUsers { username: Seq<char> },
    SignUp { api_key: Seq<char>, email: Seq<char>, password: Seq<char>, want_secure_token: bool },
    StoreUser { user: UserModel },
    FetchMerchant { merchant_id: Seq<char> },
    StoreAllowance { user_id: Seq<char>, allowance: AllowanceModel },
    SendEmail { api_key: Seq<char>, payload: Seq<char> },
    Respond(Reply),
    Abort(Failure),
}

impl View for Action {
    type V = ActionModel;

    open spec fn view(&self) -> ActionModel {
        match *self {
            Action::FindUsers { username } => ActionModel::FindUsers { username: username@ },
            Action::SignUp { api_key, email, password, want_secure_token } => ActionModel::SignUp {
                api_key: api_key@,
                email: email@,
                password: password@,
                want_secure_token,
            },
            Action::StoreUser { user } => ActionModel::StoreUser { user: user@ },
            Action::FetchMerchant { merchant_id } => ActionModel::FetchMerchant {
                merchant_id: merchant_id@,
            },
            Action::StoreAllowance { user_id, allowance } => ActionModel::StoreAllowance {
                user_id: user_id@,
                allowance: allowance@,
            },
            Action::SendEmail { api_key, payload } => ActionModel::SendEmail {
                api_key: api_key@,
                payload: payload@,
            },
            Action::Respond(reply) => ActionModel::Respond(reply),
            Action::Abort(failure) => ActionModel::Abort(failure),
        }
    }
}

impl ActionModel {
    /// An answer or a failure ends the registration.
    pub open spec fn is_final(self) -> bool {
        self is Respond || self is Abort
    }

    /// The actions that write to the user store.
    pub open spec fn writes(self) -> bool {
        self is StoreUser || self is StoreAllowance
    }
}

/// How far a registration has come, with what it carries from earlier stages.
pub enum Stage {
    /// Nothing has been done yet.
    Start,
    /// The user store is counting the users with the submitted username.
    CheckingUsername { api_key: String },
    /// The identity provider is creating the identity.
    CreatingIdentity,
    /// The user store is storing the new user.
    StoringUser { user: UserRecord },
    /// The user store is fetching the default merchant.
    FetchingMerchant { user: UserRecord },
    /// The user store is storing the new user's allowance.
    StoringAllowance { user: UserRecord },
    /// The mail service is sending the confirmation.
    SendingEmail,
    /// The registration is over.
    Done,
}

pub enum StageModel {
    Start,
    CheckingUsername { api_key: Seq<char> },
    CreatingIdentity,
    StoringUser { user: UserModel },
    FetchingMerchant { user: UserModel },
    StoringAllowance { user: UserModel },
    SendingEmail,
    Done,
}

impl View for Stage {
    type V = StageModel;

    open spec fn view(&self) -> StageModel {
        match *self {
            Stage::Start => StageModel::Start,
            Stage::CheckingUsername { api_key } => StageModel::CheckingUsername {
                api_key: api_key@,
            },
            Stage::CreatingIdentity => StageModel::CreatingIdentity,
            Stage::StoringUser { user } => StageModel::StoringUser { user: user@ },
            Stage::FetchingMerchant { user } => StageModel::FetchingMerchant { user: user@ },
            Stage::StoringAllowance { user } => StageModel::StoringAllowance { user: user@ },
            Stage::SendingEmail => StageModel::SendingEmail,
            Stage::Done => StageModel::Done,
        }
    }
}

/// One registration: the configuration and the request it was started with,
/// and the stage it has reached.
pub struct Registration {
    pub config: Config,
    pub request: RegistrationRequest,
    pub stage: Stage,
}

pub struct RegistrationModel {
    pub config: ConfigModel,
    pub request: RequestModel,
    pub stage: StageModel,
}

impl View for Registration {
    type V = RegistrationModel;

    open spec fn view(&self) -> RegistrationModel {
        RegistrationModel { config: self.config@, request: self.request@, stage: self.stage@ }
    }
}

impl RegistrationModel {
    /// A registration that has done nothing yet.
    pub open spec fn start(config: ConfigModel, request: RequestModel) -> RegistrationModel {
        RegistrationModel { config, request, stage: StageModel::Start }
    }

    /// The same registration at another stage.
    pub open spec fn at(self, stage: StageModel) -> RegistrationModel {
        RegistrationModel { config: self.config, request: self.request, stage }
    }

    /// The registration ends with `reply`.
    pub open spec fn answer(self, reply: Reply) -> (RegistrationModel, ActionModel) {
        (self.at(StageModel::Done), ActionModel::Respond(reply))
    }

    /// The registration ends with `failure`.
    pub open spec fn give_up(self, failure: Failure) -> (RegistrationModel, ActionModel) {
        (self.at(StageModel::Done), ActionModel::Abort(failure))
    }

    /// The first step: the username is validated, then the identity
    /// provider's key is looked for, then the user store is asked for users
    /// with the same username.
    pub open spec fn begin(self) -> (RegistrationModel, ActionModel) {
        if !username_allowed(self.request.username) {
            self.answer(Reply::InvalidUsername)
        } else {
            match self.config.identity_api_key {
                None => self.answer(Reply::MissingIdentityKey),
                Some(api_key) => (
                    self.at(StageModel::CheckingUsername { api_key }),
                    ActionModel::FindUsers { username: self.request.username },
                ),
            }
        }
    }

    /// After the count: any user with the username ends the registration;
    /// none lets the identity be created.
    pub open spec fn after_count(self, api_key: Seq<char>, found: nat) -> (
        RegistrationModel,
        ActionModel,
    ) {
        if found > 0 {
            self.answer(Reply::UsernameTaken)
        } else {
            (
                self.at(StageModel::CreatingIdentity),
                ActionModel::SignUp {
                    api_key,
                    email: self.request.email,
                    password: self.request.password,
                    want_secure_token: self.request.secure_token(),
                },
            )
        }
    }

    /// After the allowance is stored: the confirmation is sent if the mail
    /// service's key is there; without it the registration has succeeded.
    pub open spec fn after_allowance(self, user: UserModel) -> (RegistrationModel, ActionModel) {
        match self.config.email_api_key {
            Some(api_key) => (
                self.at(StageModel::SendingEmail),
                ActionModel::SendEmail {
                    api_key,
                    payload: confirmation_payload(
                        self.request.email,
                        self.request.username,
                        user.user_id,
                        user.email_verification_token,
                    ),
                },
            ),
            None => self.answer(Reply::Registered),
        }
    }

    /// The stage and the action that follow when `event` arrives. `stamp` and
    /// `token` are the time and the verification token given to a user record
    /// that this step creates; no other step reads them. An event that the
    /// stage is not waiting for ends the registration.
    pub open spec fn step(self, event: EventModel, stamp: Seq<char>, token: Seq<char>) -> (
        RegistrationModel,
        ActionModel,
    ) {
        match (self.stage, event) {
            (StageModel::Start, EventModel::Begin) => self.begin(),
            (StageModel::CheckingUsername { api_key }, EventModel::UsersCounted(found)) =>
                self.after_count(api_key, found),
            (StageModel::CheckingUsername { .. }, EventModel::StoreFailed) => self.give_up(
                Failure::UsernameQuery,
            ),
            (StageModel::CreatingIdentity, EventModel::IdentityCreated(identity)) => {
                let user = new_user(identity, self.request, stamp, token);
                (self.at(StageModel::StoringUser { user }), ActionModel::StoreUser { user })
            },
            (StageModel::CreatingIdentity, EventModel::IdentityRejected) => self.answer(
                Reply::IdentityRejected,
            ),
            (StageModel::StoringUser { user }, EventModel::Stored) => (
                self.at(StageModel::FetchingMerchant { user }),
                ActionModel::FetchMerchant { merchant_id: default_merchant() },
            ),
            (StageModel::StoringUser { .. }, EventModel::StoreFailed) => self.give_up(
                Failure::UserInsert,
            ),
            (StageModel::FetchingMerchant { user }, EventModel::MerchantFound(merchant)) => (
                self.at(StageModel::StoringAllowance { user }),
                ActionModel::StoreAllowance {
                    user_id: user.user_id,
                    allowance: new_allowance(merchant),
                },
            ),
            (StageModel::FetchingMerchant { .. }, EventModel::MerchantAbsent) => self.give_up(
                Failure::MerchantMissing,
            ),
            (StageModel::FetchingMerchant { .. }, EventModel::StoreFailed) => self.give_up(
                Failure::MerchantLookup,
            ),
            (StageModel::StoringAllowance { user }, EventModel::Stored) => self.after_allowance(
                user,
            ),
            (StageModel::StoringAllowance { .. }, EventModel::StoreFailed) => self.give_up(
                Failure::AllowanceInsert,
            ),
            (StageModel::SendingEmail, EventModel::EmailSent) => self.answer(Reply::Registered),
            (StageModel::SendingEmail, EventModel::EmailFailed) => self.answer(Reply::Registered),
            _ => self.give_up(Failure::OutOfTurn),
        }
    }

    /// The one step that creates a user record, and so reads the clock and
    /// draws a token.
    pub open spec fn creates_user(self, event: EventModel) -> bool {
        self.stage is CreatingIdentity && event is IdentityCreated
    }
}

impl Registration {
    /// A registration that has done nothing yet.
    pub fn new(config: Config, request: RegistrationRequest) -> (out: Registration)
        ensures
            out@ == RegistrationModel::start(config@, request@),
    {
        Registration { config, request, stage: Stage::Start }
    }

    /// Whether the registration is over.
    pub fn is_done(&self) -> (done: bool)
        ensures
            done == (self@.stage is Done),
    {
        match self.stage {
            Stage::Done => true,
            _ => false,
        }
    }

    /// Whether `event` makes this registration create its user record.
    pub fn creates_user(&self, event: &Event) -> (yes: bool)
        ensures
            yes == self@.creates_user(event@),
    {
        match (&self.stage, event) {
            (Stage::CreatingIdentity, Event::IdentityCreated(_)) => true,
            _ => false,
        }
    }

    /// Takes one step with a given time and token.
    pub fn advance_with(self, event: Event, stamp: String, token: String) -> (next: (
        Registration,
        Action,
    ))
        ensures
            (next.0@, next.1@) == self@.step(event@, stamp@, token@),
    {
        let Registration { config, request, stage } = self;
        match (stage, event) {
            (Stage::Start, Event::Begin) => {
                if !username_is_allowed(request.username.as_str()) {
                    (
                        Registration { config, request, stage: Stage::Done },
                        Action::Respond(Reply::InvalidUsername),
                    )
                } else {
                    match copy_text(&config.identity_api_key) {
                        None => (
                            Registration { config, request, stage: Stage::Done },
                            Action::Respond(Reply::MissingIdentityKey),
                        ),
                        Some(api_key) => {
                            let username = request.username.clone();
                            (
                                Registration {
                                    config,
                                    request,
                                    stage: Stage::CheckingUsername { api_key },
                                },
                                Action::FindUsers { username },
                            )
                        },
                    }
                }
            },
            (Stage::CheckingUsername { api_key }, Event::UsersCounted(found)) => {
                if found > 0 {
                    (
                        Registration { config, request, stage: Stage::Done },
                        Action::Respond(Reply::UsernameTaken),
                    )
                } else {
                    let email = request.email.clone();
                    let password = request.password.clone();
                    let want_secure_token = match request.want_secure_token {
                        Some(b) => b,
                        None => false,
                    };
                    (
                        Registration { config, request, stage: Stage::CreatingIdentity },
                        Action::SignUp { api_key, email, password, want_secure_token },
                    )
                }
            },
            (Stage::CheckingUsername { .. }, Event::StoreFailed) => (
                Registration { config, request, stage: Stage::Done },
                Action::Abort(Failure::UsernameQuery),
            ),
            (Stage::CreatingIdentity, Event::IdentityCreated(identity)) => {
                let user = build_user_record(identity, &request, stamp, token);
                let kept = user.clone();
                (
                    Registration { config, request, stage: Stage::StoringUser { user: kept } },
                    Action::StoreUser { user },
                )
            },
            (Stage::CreatingIdentity, Event::IdentityRejected) => (
                Registration { config, request, stage: Stage::Done },
                Action::Respond(Reply::IdentityRejected),
            ),
            (Stage::StoringUser { user }, Event::Stored) => (
                Registration { config, request, stage: Stage::FetchingMerchant { user } },
                Action::FetchMerchant { merchant_id: default_merchant_id() },
            ),
            (Stage::StoringUser { .. }, Event::StoreFailed) => (
                Registration { config, request, stage: Stage::Done },
                Action::Abort(Failure::UserInsert),
            ),
            (Stage::FetchingMerchant { user }, Event::MerchantFound(merchant)) => {
                let user_id = user.user_id.clone();
                let allowance = default_allowance(&merchant);
                (
                    Registration { config, request, stage: Stage::StoringAllowance { user } },
                    Action::StoreAllowance { user_id, allowance },
                )
            },
            (Stage::FetchingMerchant { .. }, Event::MerchantAbsent) => (
                Registration { config, request, stage: Stage::Done },
                Action::Abort(Failure::MerchantMissing),
            ),
            (Stage::FetchingMerchant { .. }, Event::StoreFailed) => (
                Registration { config, request, stage: Stage::Done },
                Action::Abort(Failure::MerchantLookup),
            ),
            (Stage::StoringAllowance { user }, Event::Stored) => {
                match copy_text(&config.email_api_key) {
                    Some(api_key) => {
                        let payload = render_confirmation(
                            request.email.as_str(),
                            request.username.as_str(),
                            user.user_id.as_str(),
                            user.email_verification_token.as_str(),
                        );
                        (
                            Registration { config, request, stage: Stage::SendingEmail },
                            Action::SendEmail { api_key, payload },
                        )
                    },
                    None => (
                        Registration { config, request, stage: Stage::Done },
                        Action::Respond(Reply::Registered),
                    ),
                }
            },
            (Stage::StoringAllowance { .. }, Event::StoreFailed) => (
                Registration { config, request, stage: Stage::Done },
                Action::Abort(Failure::AllowanceInsert),
            ),
            (Stage::SendingEmail, Event::EmailSent) => (
                Registration { config, request, stage: Stage::Done },
                Action::Respond(Reply::Registered),
            ),
            (Stage::SendingEmail, Event::EmailFailed) => (
                Registration { config, request, stage: Stage::Done },
                Action::Respond(Reply::Registered),
            ),
            _ => (
                Registration { config, request, stage: Stage::Done },
                Action::Abort(Failure::OutOfTurn),
            ),
        }
    }

    /// Takes one step. Where the step creates the user record, the record is
    /// stamped with the current time and a fresh token of 36 characters;
    /// every other step is fixed by the stage and the event alone.
    pub fn advance(self, event: Event) -> (next: (Registration, Action))
        ensures
            !self@.creates_user(event@) ==> (next.0@, next.1@) == self@.step(
                event@,
                Seq::empty(),
                Seq::empty(),
            ),
            self@.creates_user(event@) ==> exists|stamp: Seq<char>, token: Seq<char>|
                token.len() == 36 && (next.0@, next.1@) == #[trigger] self@.step(
                    event@,
                    stamp,
                    token,
                ),
    {
        if self.creates_user(&event) {
            let stamp = timestamp_now();
            let token = fresh_token();
            self.advance_with(event, stamp, token)
        } else {
            self.advance_with(event, String::new(), String::new())
        }
    }
}

} // verus!
