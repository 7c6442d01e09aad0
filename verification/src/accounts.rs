//! Registering, logging in, and who one is.

use vstd::prelude::*;

use crate::auth;
use crate::auth::AuthUser;
use crate::error::{AppError, Status, StoreFailure};
use crate::flow;
use crate::flow::{Effect, Job, Reply, Step};
use crate::ids;
use crate::orgs;
use crate::records::{
    AuthResponse, LoginBody, OrgOut, OrgView, RegisterBody, UserOut, UserRow, UserRowView, UserView,
};
use crate::text;

verus! {

/// The fewest bytes of a password.
pub const MIN_PASSWORD_BYTES: usize = 8;

/// An address as it is kept and looked for: trimmed, in lower case.
pub open spec fn email_key(email: Seq<char>) -> Seq<char> {
    text::lowercased(text::trimmed(email))
}

pub fn normal_email(email: &str) -> (r: String)
    ensures
        r@ == email_key(email@),
{
    text::to_lowercase(text::trim(email))
}

/// What stands for an organisation where there is no room for its name: the
/// first letter of the name, in upper case.
pub open spec fn initial_of(name: Seq<char>) -> Seq<char> {
    if name.len() > 0 {
        text::uppercased(name[0])
    } else {
        text::uppercased('R')
    }
}

pub fn logo_initial(name: &str) -> (r: String)
    ensures
        r@ == initial_of(name@),
{
    let mut letters = name.chars();
    match letters.next() {
        Some(first) => text::to_uppercase(first),
        None => text::to_uppercase('R'),
    }
}

/// The body has what registering asks for: a name of the organisation, an
/// address, and a password that is not too short.
pub open spec fn can_register(body: RegisterBody) -> bool {
    &&& !text::is_blank(body.org_name@)
    &&& !text::is_blank(body.email@)
    &&& vstd::utf8::encode_utf8(body.password@).len() >= MIN_PASSWORD_BYTES
}

/// The admin as answers show one.
pub open spec fn shown_user(user: UserRowView) -> UserView {
    UserView { id: user.id, name: user.name, email: user.email }
}

/// What is left to do of a request that is answered with a token.
#[derive(Debug)]
pub enum AuthJob {
    /// Registering: the new organisation was sent to the store.
    AddingOrg { row: UserRow, secret: String },
    /// Registering: its admin was sent to the store.
    AddingUser { org_id: String, user: UserOut, secret: String },
    /// Registering: the organisation was asked for, to be shown.
    Registered { user: UserOut, secret: String },
    /// Logging in: the admin with the address was asked for.
    Checking { password: String, secret: String },
    /// Logging in: the organisation was asked for, to be shown.
    Entering { user: UserOut, secret: String },
    /// Who one is: the organisation was asked for.
    Recalling { user_id: String, secret: String },
    /// Who one is: the admin was asked for.
    Recognising { org: OrgOut, secret: String },
}

/// The request is answered with the organisation, the admin, and a token for both.
pub open spec fn lets_in(
    step: Step<AuthJob, AuthResponse>,
    org: OrgOut,
    user: UserOut,
    secret: Seq<char>,
) -> bool {
    &&& step matches Step::Done(Ok(answer))
    &&& answer.org == org
    &&& answer.user == user
    &&& auth::is_token_for(user.id@, org.id@, secret, answer.token@)
}

/// Registering came to nothing: where the store says that something should have
/// been unique, the address is taken.
pub open spec fn not_registered(
    step: Step<AuthJob, AuthResponse>,
    failure: StoreFailure,
) -> bool {
    match failure {
        StoreFailure::Other(words) => if text::occurs_in("UNIQUE"@, words@) {
            flow::refused(step, Status::BadRequest, "an account with that email already exists"@)
        } else {
            flow::fails_with(step, failure)
        },
        StoreFailure::NoRows => flow::fails_with(step, failure),
    }
}

/// Logging in was refused: nothing tells whether it was for the address or for
/// the password.
pub open spec fn not_let_in(step: Step<AuthJob, AuthResponse>) -> bool {
    flow::refused(step, Status::Unauthorized, "invalid email or password"@)
}

/// The organisation, the admin, and a token for both.
fn let_in(org: OrgOut, user: UserOut, secret: &str) -> (step: Step<AuthJob, AuthResponse>)
    ensures
        lets_in(step, org, user, secret@),
{
    match auth::issue_token(user.id.as_str(), org.id.as_str(), secret) {
        Ok(token) => Step::Done(Ok(AuthResponse { token, org, user })),
        Err(e) => Step::Done(Err(e)),
    }
}

/// The error for a registration that the store did not take.
fn registration_error(failure: &StoreFailure) -> (step: Step<AuthJob, AuthResponse>)
    ensures
        not_registered(step, *failure),
{
    match failure {
        StoreFailure::Other(words) => if text::contains(words.as_str(), "UNIQUE") {
            Step::Done(Err(AppError::bad_request("an account with that email already exists")))
        } else {
            Step::Done(Err(AppError::from_store(failure)))
        },
        StoreFailure::NoRows => Step::Done(Err(AppError::from_store(failure))),
    }
}

/// The password was checked: with the right one, the organisation is asked for.
pub open spec fn goes_on_after_check(
    user: UserRow,
    checked: Result<bool, AppError>,
    secret: String,
    step: Step<AuthJob, AuthResponse>,
) -> bool {
    match checked {
        Ok(true) => {
            &&& step matches Step::Await {
                effect: Effect::FindOrg { org_id },
                job: AuthJob::Entering { user: shown, secret: kept },
            }
            &&& org_id == user.org_id
            &&& shown@ == shown_user(user@)
            &&& kept == secret
        },
        Ok(false) => not_let_in(step),
        Err(e) => step == Step::<AuthJob, AuthResponse>::Done(Err(e)),
    }
}

pub fn after_check(user: UserRow, checked: Result<bool, AppError>, secret: String) -> (step: Step<
    AuthJob,
    AuthResponse,
>)
    ensures
        goes_on_after_check(user, checked, secret, step),
{
    match checked {
        Ok(true) => Step::Await {
            effect: Effect::FindOrg { org_id: user.org_id },
            job: AuthJob::Entering {
                user: UserOut { id: user.id, name: user.name, email: user.email },
                secret,
            },
        },
        Ok(false) => Step::Done(Err(AppError::unauthorized("invalid email or password"))),
        Err(e) => Step::Done(Err(e)),
    }
}

/// The admin was found: the step that follows is that of the password's check.
pub open spec fn login_turn(
    user: UserRow,
    password: Seq<char>,
    secret: String,
    step: Step<AuthJob, AuthResponse>,
) -> bool {
    match auth::hash_fault(user.password_hash@) {
        Some(fault) => flow::refused(step, Status::InternalServerError, fault),
        None => goes_on_after_check(
            user,
            Ok(auth::password_fits(password, user.password_hash@)),
            secret,
            step,
        ),
    }
}

impl Job for AuthJob {
    type Out = AuthResponse;

    open spec fn awaits(&self, reply: Reply) -> bool {
        reply is Failed || match self {
            AuthJob::AddingOrg { .. } => reply is Changed,
            AuthJob::AddingUser { .. } => reply is Changed,
            AuthJob::Registered { .. } => reply is Org,
            AuthJob::Checking { .. } => reply is UserRow,
            AuthJob::Entering { .. } => reply is Org,
            AuthJob::Recalling { .. } => reply is Org,
            AuthJob::Recognising { .. } => reply is User,
        }
    }

    open spec fn turns_left(&self) -> nat {
        match self {
            AuthJob::AddingOrg { .. } => 3,
            AuthJob::AddingUser { .. } => 2,
            AuthJob::Registered { .. } => 1,
            AuthJob::Checking { .. } => 2,
            AuthJob::Entering { .. } => 1,
            AuthJob::Recalling { .. } => 2,
            AuthJob::Recognising { .. } => 1,
        }
    }

    open spec fn turn(&self, reply: Reply, step: Step<AuthJob, AuthResponse>) -> bool {
        match reply {
            Reply::Failed(failure) => match self {
                AuthJob::AddingOrg { .. } => not_registered(step, failure),
                AuthJob::AddingUser { .. } => not_registered(step, failure),
                AuthJob::Registered { .. } => not_registered(step, failure),
                AuthJob::Checking { .. } => not_let_in(step),
                _ => flow::fails_with(step, failure),
            },
            _ => match self {
                AuthJob::AddingOrg { row, secret } => {
                    &&& step matches Step::Await {
                        effect: Effect::InsertUser { user: added },
                        job: AuthJob::AddingUser { org_id, user: shown, secret: kept },
                    }
                    &&& added == *row
                    &&& org_id == row.org_id
                    &&& shown@ == shown_user(row@)
                    &&& kept == *secret
                },
                AuthJob::AddingUser { org_id, user, secret } => step == Step::<
                    AuthJob,
                    AuthResponse,
                >::Await {
                    effect: Effect::FindOrg { org_id: *org_id },
                    job: AuthJob::Registered { user: *user, secret: *secret },
                },
                AuthJob::Registered { user, secret } => lets_in(
                    step,
                    reply->Org_0,
                    *user,
                    secret@,
                ),
                AuthJob::Checking { password, secret } => login_turn(
                    reply->UserRow_0,
                    password@,
                    *secret,
                    step,
                ),
                AuthJob::Entering { user, secret } => lets_in(step, reply->Org_0, *user, secret@),
                AuthJob::Recalling { user_id, secret } => step == Step::<
                    AuthJob,
                    AuthResponse,
                >::Await {
                    effect: Effect::FindUser { user_id: *user_id },
                    job: AuthJob::Recognising { org: reply->Org_0, secret: *secret },
                },
                AuthJob::Recognising { org, secret } => lets_in(
                    step,
                    *org,
                    reply->User_0,
                    secret@,
                ),
            },
        }
    }

    fn resume(self, reply: Reply) -> (step: Step<AuthJob, AuthResponse>) {
        match reply {
            Reply::Failed(failure) => match self {
                AuthJob::AddingOrg { .. } => registration_error(&failure),
                AuthJob::AddingUser { .. } => registration_error(&failure),
                AuthJob::Registered { .. } => registration_error(&failure),
                AuthJob::Checking { .. } => Step::Done(
                    Err(AppError::unauthorized("invalid email or password")),
                ),
                _ => Step::Done(Err(AppError::from_store(&failure))),
            },
            Reply::Changed => match self {
                AuthJob::AddingOrg { row, secret } => {
                    let shown = UserOut {
                        id: row.id.clone(),
                        name: row.name.clone(),
                        email: row.email.clone(),
                    };
                    let org_id = row.org_id.clone();
                    Step::Await {
                        effect: Effect::InsertUser { user: row },
                        job: AuthJob::AddingUser { org_id, user: shown, secret },
                    }
                },
                AuthJob::AddingUser { org_id, user, secret } => Step::Await {
                    effect: Effect::FindOrg { org_id },
                    job: AuthJob::Registered { user, secret },
                },
                _ => vstd::pervasive::unreached(),
            },
            Reply::Org(org) => match self {
                AuthJob::Registered { user, secret } => let_in(org, user, secret.as_str()),
                AuthJob::Entering { user, secret } => let_in(org, user, secret.as_str()),
                AuthJob::Recalling { user_id, secret } => Step::Await {
                    effect: Effect::FindUser { user_id },
                    job: AuthJob::Recognising { org, secret },
                },
                _ => vstd::pervasive::unreached(),
            },
            Reply::UserRow(user) => match self {
                AuthJob::Checking { password, secret } => {
                    let checked = auth::verify_password(
                        password.as_str(),
                        user.password_hash.as_str(),
                    );
                    after_check(user, checked, secret)
                },
                _ => vstd::pervasive::unreached(),
            },
            Reply::User(user) => match self {
                AuthJob::Recognising { org, secret } => let_in(org, user, secret.as_str()),
                _ => vstd::pervasive::unreached(),
            },
            _ => vstd::pervasive::unreached(),
        }
    }

    proof fn goes_on_ready(&self, reply: Reply, step: Step<AuthJob, AuthResponse>) {
    }
}

/// The organisation that a registration adds.
pub open spec fn new_org(body: RegisterBody, org_id: Seq<char>) -> OrgView {
    OrgView {
        id: org_id,
        name: body.org_name@,
        tagline: Seq::empty(),
        logo_initial: initial_of(body.org_name@),
        theme: orgs::default_theme_view(),
    }
}

/// The admin that a registration adds.
pub open spec fn new_user(
    body: RegisterBody,
    org_id: Seq<char>,
    user_id: Seq<char>,
    password_hash: Seq<char>,
    now: i64,
) -> UserRowView {
    UserRowView {
        id: user_id,
        org_id,
        name: body.name@,
        email: email_key(body.email@),
        password_hash,
        created_at: now,
    }
}

pub open spec fn register_asks(
    body: RegisterBody,
    org_id: Seq<char>,
    user_id: Seq<char>,
    password_hash: Seq<char>,
    now: i64,
    secret: String,
    step: Step<AuthJob, AuthResponse>,
) -> bool {
    &&& step matches Step::Await {
        effect: Effect::InsertOrg { org, created_at },
        job: AuthJob::AddingOrg { row, secret: kept },
    }
    &&& org@ == new_org(body, org_id)
    &&& created_at == now
    &&& row@ == new_user(body, org_id, user_id, password_hash, now)
    &&& kept == secret
}

/// The first step of a registration that has all it takes: the ids and the hash
/// of the password.
pub fn register_as(
    body: RegisterBody,
    org_id: String,
    user_id: String,
    password_hash: String,
    now: i64,
    secret: String,
) -> (step: Step<AuthJob, AuthResponse>)
    ensures
        register_asks(body, org_id@, user_id@, password_hash@, now, secret, step),
        flow::ready(step),
{
    let org = OrgOut {
        id: org_id.clone(),
        name: body.org_name.clone(),
        tagline: String::new(),
        logo_initial: logo_initial(body.org_name.as_str()),
        theme: orgs::default_theme(),
    };
    let row = UserRow {
        id: user_id,
        org_id,
        name: body.name,
        email: normal_email(body.email.as_str()),
        password_hash,
        created_at: now,
    };
    Step::Await {
        effect: Effect::InsertOrg { org, created_at: now },
        job: AuthJob::AddingOrg { row, secret },
    }
}

/// The registration goes on with ids of its own and a hash of the password.
pub open spec fn register_starts(
    body: RegisterBody,
    org_id: Seq<char>,
    user_id: Seq<char>,
    password_hash: Seq<char>,
    now: i64,
    secret: String,
    step: Step<AuthJob, AuthResponse>,
) -> bool {
    &&& ids::is_random_uuid(org_id)
    &&& ids::is_random_uuid(user_id)
    &&& auth::hash_fault(password_hash) is None
    &&& auth::password_fits(body.password@, password_hash)
    &&& register_asks(body, org_id, user_id, password_hash, now, secret, step)
}

pub open spec fn register_begins(
    body: RegisterBody,
    now: i64,
    secret: String,
    step: Step<AuthJob, AuthResponse>,
) -> bool {
    if !can_register(body) {
        flow::refused(
            step,
            Status::BadRequest,
            "orgName and email are required, and password must be at least 8 characters"@,
        )
    } else if !auth::can_be_hashed(body.password@) {
        &&& step matches Step::Done(Err(e))
        &&& e.status == Status::InternalServerError
        &&& "password hashing error: "@.is_prefix_of(e.message@)
    } else {
        exists|org_id: Seq<char>, user_id: Seq<char>, password_hash: Seq<char>| #[trigger]
            register_starts(body, org_id, user_id, password_hash, now, secret, step)
    }
}

/// A new organisation with its first admin.
pub fn register(body: RegisterBody, now: i64, secret: String) -> (step: Step<
    AuthJob,
    AuthResponse,
>)
    ensures
        register_begins(body, now, secret, step),
        flow::ready(step),
{
    if !text::has_ink(body.org_name.as_str()) || !text::has_ink(body.email.as_str())
        || body.password.as_str().as_bytes().len() < MIN_PASSWORD_BYTES {
        return Step::Done(
            Err(
                AppError::bad_request(
                    "orgName and email are required, and password must be at least 8 characters",
                ),
            ),
        );
    }
    match auth::hash_password(body.password.as_str()) {
        Ok(password_hash) => {
            let org_id = ids::new_id();
            let user_id = ids::new_id();
            let ghost made = (org_id@, user_id@, password_hash@);
            let step = register_as(body, org_id, user_id, password_hash, now, secret);
            assert(register_starts(body, made.0, made.1, made.2, now, secret, step));
            step
        },
        Err(e) => Step::Done(Err(e)),
    }
}

pub open spec fn login_asks(
    body: LoginBody,
    secret: String,
    step: Step<AuthJob, AuthResponse>,
) -> bool {
    &&& step matches Step::Await { effect: Effect::FindUserByEmail { email }, job }
    &&& email@ == email_key(body.email@)
    &&& job == AuthJob::Checking { password: body.password, secret }
}

/// An admin logs in with address and password.
pub fn login(body: LoginBody, secret: String) -> (step: Step<AuthJob, AuthResponse>)
    ensures
        login_asks(body, secret, step),
        flow::ready(step),
{
    Step::Await {
        effect: Effect::FindUserByEmail { email: normal_email(body.email.as_str()) },
        job: AuthJob::Checking { password: body.password, secret },
    }
}

/// Who made the request. There are no credentials to sign with anew, so the token
/// is issued for what the one in the request says.
pub fn me(auth: AuthUser, secret: String) -> (step: Step<AuthJob, AuthResponse>)
    ensures
        step == (Step::<AuthJob, AuthResponse>::Await {
            effect: Effect::FindOrg { org_id: auth.org_id },
            job: AuthJob::Recalling { user_id: auth.user_id, secret },
        }),
        flow::ready(step),
{
    Step::Await {
        effect: Effect::FindOrg { org_id: auth.org_id },
        job: AuthJob::Recalling { user_id: auth.user_id, secret },
    }
}

} // verus!
