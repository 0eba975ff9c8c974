//! What holds of every registration, stated over a model of the services that
//! a registration talks to.

use vstd::prelude::*;
use crate::email::confirmation_payload;
use crate::flow::{ActionModel, EventModel, RegistrationModel};
use crate::model::{
    AllowanceModel, ConfigModel, IdentityModel, MerchantModel, RequestModel, UserModel,
};
use crate::records::{default_merchant, new_allowance, new_user, zero_amount};
use crate::reply::Reply;
use crate::username::{lowercase_of, username_allowed};

verus! {

/// How many of `users` have the username `name`, letter for letter.
pub open spec fn count_users(users: Seq<UserModel>, name: Seq<char>) -> nat
    decreases users.len(),
{
    if users.len() == 0 {
        0
    } else {
        count_users(users.drop_last(), name) + if users.last().username == name {
            1nat
        } else {
            0nat
        }
    }
}

/// The services around a registration: what the user store holds, how the
/// identity provider and the mail service will answer, which time and token a
/// new user record gets, and what has been asked of each so far.
pub struct World {
    /// Whether the user store answers.
    pub store_up: bool,
    /// The user records, in the order in which they were stored.
    pub users: Seq<UserModel>,
    /// The allowance records, each with the id of the user it belongs to.
    pub allowances: Seq<(Seq<char>, AllowanceModel)>,
    /// The merchants, by id.
    pub merchants: Map<Seq<char>, MerchantModel>,
    /// The identity that the provider will create, if it will create one.
    pub identity: Option<IdentityModel>,
    /// How often the identity provider has been asked.
    pub sign_ups: nat,
    /// Whether the mail service answers.
    pub mail_up: bool,
    /// The bodies handed to the mail service.
    pub emails: Seq<Seq<char>>,
    /// The time that a new record is stamped with.
    pub stamp: Seq<char>,
    /// The verification token that a new record gets.
    pub token: Seq<char>,
}

impl World {
    /// What the services report when `action` is carried out, and what they
    /// hold afterwards.
    pub open spec fn react(self, action: ActionModel) -> (EventModel, World) {
        match action {
            ActionModel::FindUsers { username } => if self.store_up {
                (EventModel::UsersCounted(count_users(self.users, username)), self)
            } else {
                (EventModel::StoreFailed, self)
            },
            ActionModel::SignUp { .. } => (
                match self.identity {
                    Some(identity) => EventModel::IdentityCreated(identity),
                    None => EventModel::IdentityRejected,
                },
                World { sign_ups: self.sign_ups + 1, ..self },
            ),
            ActionModel::StoreUser { user } => if self.store_up {
                (EventModel::Stored, World { users: self.users.push(user), ..self })
            } else {
                (EventModel::StoreFailed, self)
            },
            ActionModel::FetchMerchant { merchant_id } => if !self.store_up {
                (EventModel::StoreFailed, self)
            } else if self.merchants.contains_key(merchant_id) {
                (EventModel::MerchantFound(self.merchants[merchant_id]), self)
            } else {
                (EventModel::MerchantAbsent, self)
            },
            ActionModel::StoreAllowance { user_id, allowance } => if self.store_up {
                (
                    EventModel::Stored,
                    World { allowances: self.allowances.push((user_id, allowance)), ..self },
                )
            } else {
                (EventModel::StoreFailed, self)
            },
            ActionModel::SendEmail { payload, .. } => (
                if self.mail_up {
                    EventModel::EmailSent
                } else {
                    EventModel::EmailFailed
                },
                World { emails: self.emails.push(payload), ..self },
            ),
            ActionModel::Respond(_) => (EventModel::Begin, self),
            ActionModel::Abort(_) => (EventModel::Begin, self),
        }
    }
}

/// A registration as seen from outside: the actions it took, in order, and
/// the services as it left them.
pub struct Outcome {
    pub actions: Seq<ActionModel>,
    pub world: World,
}

/// Runs a registration from `event` on, for at most `fuel` more actions after
/// the next one.
pub open spec fn run(reg: RegistrationModel, event: EventModel, world: World, fuel: nat) -> Outcome
    decreases fuel,
{
    let (next, action) = reg.step(event, world.stamp, world.token);
    if action.is_final() || fuel == 0 {
        Outcome { actions: seq![action], world }
    } else {
        let (report, after) = world.react(action);
        let rest = run(next, report, after, (fuel - 1) as nat);
        Outcome { actions: seq![action] + rest.actions, world: rest.world }
    }
}

/// A whole registration of `request` against `world`.
pub open spec fn register(config: ConfigModel, request: RequestModel, world: World) -> Outcome {
    run(RegistrationModel::start(config, request), EventModel::Begin, world, 6)
}

/// A request that passes validation and the key check, against a store that
/// answers.
pub open spec fn admitted(config: ConfigModel, request: RequestModel, world: World) -> bool {
    &&& username_allowed(request.username)
    &&& config.identity_api_key is Some
    &&& world.store_up
}

/// Everything a registration needs in order to succeed: an admitted request,
/// a free username, an identity provider that accepts, and the default
/// merchant in the store.
pub open spec fn will_succeed(config: ConfigModel, request: RequestModel, world: World) -> bool {
    &&& admitted(config, request, world)
    &&& count_users(world.users, request.username) == 0
    &&& world.identity is Some
    &&& world.merchants.contains_key(default_merchant())
}

/// Every registration ends, and ends with an answer or a failure; nothing
/// before its last action is either.
pub proof fn registration_ends(config: ConfigModel, request: RequestModel, world: World)
    ensures
        ({
            let actions = register(config, request, world).actions;
            &&& 1 <= actions.len() <= 7
            &&& actions.last().is_final()
            &&& forall|i: int| 0 <= i < actions.len() - 1 ==> !(#[trigger] actions[i]).is_final()
        }),
{
    reveal_with_fuel(run, 8);
}

/// Whatever the services answer, a registration only adds: it asks for at most
/// one identity, stores at most one user and at most one allowance, hands at
/// most one email to the mail service, and leaves what was there before as it
/// was. An allowance is stored only after a user, under that user's id, and an
/// email is handed over only after the allowance.
pub proof fn registration_only_adds(config: ConfigModel, request: RequestModel, world: World)
    ensures
        ({
            let done = register(config, request, world);
            &&& done.world.sign_ups <= world.sign_ups + 1
            &&& world.users.is_prefix_of(done.world.users)
            &&& done.world.users.len() <= world.users.len() + 1
            &&& world.allowances.is_prefix_of(done.world.allowances)
            &&& done.world.allowances.len() <= world.allowances.len() + 1
            &&& world.emails.is_prefix_of(done.world.emails)
            &&& done.world.emails.len() <= world.emails.len() + 1
            &&& done.world.users.len() > world.users.len() ==> done.world.sign_ups
                > world.sign_ups
            &&& done.world.allowances.len() > world.allowances.len() ==> {
                &&& done.world.users.len() > world.users.len()
                &&& done.world.allowances.last().0 == done.world.users.last().user_id
            }
            &&& done.world.emails.len() > world.emails.len() ==> done.world.allowances.len()
                > world.allowances.len()
            &&& done.world.merchants == world.merchants
        }),
{
    reveal_with_fuel(run, 8);
}

/// A username with a space or an `@` gets the validation answer, whatever
/// else the request, the configuration and the services hold, and nothing is
/// asked of any service.
pub proof fn invalid_username_is_refused(
    config: ConfigModel,
    request: RequestModel,
    world: World,
)
    requires
        !username_allowed(request.username),
    ensures
        register(config, request, world).actions == seq![
            ActionModel::Respond(Reply::InvalidUsername),
        ],
        register(config, request, world).world == world,
{
    reveal_with_fuel(run, 2);
}

/// Where the store already holds a user with the submitted username, an
/// admitted request gets the conflict answer after the one query: no identity
/// is asked for and nothing is written.
pub proof fn taken_username_is_refused(config: ConfigModel, request: RequestModel, world: World)
    requires
        admitted(config, request, world),
        count_users(world.users, request.username) > 0,
    ensures
        register(config, request, world).actions == seq![
            ActionModel::FindUsers { username: request.username },
            ActionModel::Respond(Reply::UsernameTaken),
        ],
        register(config, request, world).world == world,
{
    reveal_with_fuel(run, 3);
    assert(register(config, request, world).actions =~= seq![
        ActionModel::FindUsers { username: request.username },
        ActionModel::Respond(Reply::UsernameTaken),
    ]);
}

/// Without the identity provider's key, a request with an allowed username
/// gets the configuration answer, and the store is never queried.
pub proof fn missing_identity_key_is_reported(
    config: ConfigModel,
    request: RequestModel,
    world: World,
)
    requires
        username_allowed(request.username),
        config.identity_api_key is None,
    ensures
        register(config, request, world).actions == seq![
            ActionModel::Respond(Reply::MissingIdentityKey),
        ],
        register(config, request, world).world == world,
{
    reveal_with_fuel(run, 2);
}

/// The actions of a registration that succeeds, up to the allowance.
pub open spec fn writes_of(config: ConfigModel, request: RequestModel, world: World) -> Seq<
    ActionModel,
> {
    let user = new_user(world.identity->0, request, world.stamp, world.token);
    seq![
        ActionModel::FindUsers { username: request.username },
        ActionModel::SignUp {
            api_key: config.identity_api_key->0,
            email: request.email,
            password: request.password,
            want_secure_token: request.secure_token(),
        },
        ActionModel::StoreUser { user },
        ActionModel::FetchMerchant { merchant_id: default_merchant() },
        ActionModel::StoreAllowance {
            user_id: user.user_id,
            allowance: new_allowance(world.merchants[default_merchant()]),
        },
    ]
}

/// The body of the confirmation email of a registration that succeeds.
pub open spec fn confirmation_of(request: RequestModel, world: World) -> Seq<char> {
    confirmation_payload(request.email, request.username, world.identity->0.user_id, world.token)
}

/// A registration that can succeed does: it asks for one identity, stores
/// exactly one user record (username in lower case, email not verified) and
/// exactly one allowance (zero, at the default merchant) under that user,
/// hands exactly one email to the mail service if it has the key, and answers
/// that the user is registered, whether or not the mail service took the
/// email.
pub proof fn registration_succeeds(config: ConfigModel, request: RequestModel, world: World)
    requires
        will_succeed(config, request, world),
    ensures
        ({
            let done = register(config, request, world);
            let user = new_user(world.identity->0, request, world.stamp, world.token);
            let allowance = new_allowance(world.merchants[default_merchant()]);
            &&& done.actions.last() == ActionModel::Respond(Reply::Registered)
            &&& done.world.sign_ups == world.sign_ups + 1
            &&& done.world.users == world.users.push(user)
            &&& user.username == lowercase_of(request.username)
            &&& !user.email_verified
            &&& done.world.allowances == world.allowances.push((user.user_id, allowance))
            &&& allowance.amount == zero_amount()
            &&& allowance.merchant_uid == world.merchants[default_merchant()].merchant_uid
            &&& match config.email_api_key {
                Some(api_key) => {
                    &&& done.world.emails == world.emails.push(confirmation_of(request, world))
                    &&& done.actions == writes_of(config, request, world) + seq![
                        ActionModel::SendEmail {
                            api_key,
                            payload: confirmation_of(request, world),
                        },
                        ActionModel::Respond(Reply::Registered),
                    ]
                },
                None => {
                    &&& done.world.emails == world.emails
                    &&& done.actions == writes_of(config, request, world) + seq![
                        ActionModel::Respond(Reply::Registered),
                    ]
                },
            }
        }),
{
    reveal_with_fuel(run, 8);
    let done = register(config, request, world);
    match config.email_api_key {
        Some(api_key) => {
            assert(done.actions =~= writes_of(config, request, world) + seq![
                ActionModel::SendEmail { api_key, payload: confirmation_of(request, world) },
                ActionModel::Respond(Reply::Registered),
            ]);
        },
        None => {
            assert(done.actions =~= writes_of(config, request, world) + seq![
                ActionModel::Respond(Reply::Registered),
            ]);
        },
    }
}

/// Where the identity provider refuses, the registration answers with the
/// bare failure flag and status 500, and no user or allowance is stored.
pub proof fn rejected_identity_writes_nothing(
    config: ConfigModel,
    request: RequestModel,
    world: World,
)
    requires
        admitted(config, request, world),
        count_users(world.users, request.username) == 0,
        world.identity is None,
    ensures
        ({
            let done = register(config, request, world);
            &&& done.actions.last() == ActionModel::Respond(Reply::IdentityRejected)
            &&& Reply::IdentityRejected.status_code() == 500
            &&& Reply::IdentityRejected.body_text() == "{\"failed\":true}"@
            &&& forall|i: int| 0 <= i < done.actions.len() ==> !(#[trigger] done.actions[i]).writes()
            &&& done.world.users == world.users
            &&& done.world.allowances == world.allowances
        }),
{
    reveal_with_fuel(run, 4);
}

/// Without the mail service's key a registration that can succeed still
/// does, and no email is handed to the mail service.
pub proof fn missing_email_key_still_registers(
    config: ConfigModel,
    request: RequestModel,
    world: World,
)
    requires
        will_succeed(config, request, world),
        config.email_api_key is None,
    ensures
        ({
            let done = register(config, request, world);
            &&& done.actions.last() == ActionModel::Respond(Reply::Registered)
            &&& Reply::Registered.status_code() == 200
            &&& Reply::Registered.body_text() == "{}"@
            &&& done.world.emails == world.emails
            &&& forall|i: int| 0 <= i < done.actions.len() ==> !(#[trigger] done.actions[i] is SendEmail)
        }),
{
    registration_succeeds(config, request, world);
}

/// The same request, sent again after it succeeded, gets the conflict answer
/// and stores no second user, provided that the username was submitted in
/// the lower-case form in which it is stored.
pub proof fn repeated_request_is_refused(config: ConfigModel, request: RequestModel, world: World)
    requires
        will_succeed(config, request, world),
        lowercase_of(request.username) == request.username,
    ensures
        ({
            let first = register(config, request, world);
            let second = register(config, request, first.world);
            &&& second.actions.last() == ActionModel::Respond(Reply::UsernameTaken)
            &&& second.world == first.world
            &&& second.world.users.len() == world.users.len() + 1
        }),
{
    registration_succeeds(config, request, world);
    let first = register(config, request, world);
    let user = new_user(world.identity->0, request, world.stamp, world.token);
    assert(first.world.users.drop_last() =~= world.users);
    assert(first.world.users.last() == user);
    assert(count_users(first.world.users, request.username) > 0);
    assert(first.world.store_up) by {
        reveal_with_fuel(run, 8);
    }
    taken_username_is_refused(config, request, first.world);
}

} // verus!
