//! What registering and logging in come to, and what tokens stand for.

use vstd::prelude::*;

use crate::accounts;
use crate::accounts::AuthJob;
use crate::auth;
use crate::auth::{AuthUser, Claims};
use crate::error::{AppError, Status};
use crate::flow::{Effect, Step};
use crate::records::{AuthResponse, LoginBody, RegisterBody};
use crate::soundness;
use crate::store;
use crate::store::{Db, OrgRecord};

verus! {

/// A registration that went through added the organisation and its admin, and
/// nothing else; the address was free. It is answered with both, and with a token
/// for the admin.
pub proof fn law_register(
    body: RegisterBody,
    org_id: Seq<char>,
    user_id: Seq<char>,
    password_hash: Seq<char>,
    now: i64,
    secret: String,
    step: Step<AuthJob, AuthResponse>,
    before: Db,
    answer: AuthResponse,
    after: Db,
    turns: nat,
)
    requires
        accounts::register_asks(body, org_id, user_id, password_hash, now, secret, step),
        store::run(step, before, Ok::<AuthResponse, AppError>(answer), after, turns),
    ensures
        answer.org@ == accounts::new_org(body, org_id),
        answer.user@ == accounts::shown_user(
            accounts::new_user(body, org_id, user_id, password_hash, now),
        ),
        auth::is_token_for(user_id, org_id, secret@, answer.token@),
        !before.has_email(accounts::email_key(body.email@)),
        !before.orgs.contains_key(org_id),
        !before.users.contains_key(user_id),
        after == (Db {
            orgs: before.orgs.insert(
                org_id,
                OrgRecord { org: accounts::new_org(body, org_id), created_at: now },
            ),
            users: before.users.insert(
                user_id,
                accounts::new_user(body, org_id, user_id, password_hash, now),
            ),
            ..before
        }),
{
    let out = Ok::<AuthResponse, AppError>(answer);
    let (r1, mid1, s2) = soundness::lemma_one_turn(step->effect, step->job, before, out, after, turns);
    let (r2, mid2, s3) = soundness::lemma_one_turn(
        s2->effect,
        s2->job,
        mid1,
        out,
        after,
        (turns - 1) as nat,
    );
    let (r3, mid3, s4) = soundness::lemma_one_turn(
        s3->effect,
        s3->job,
        mid2,
        out,
        after,
        (turns - 2) as nat,
    );
}

/// Who logs in has the address and the password of an admin. Nothing changes, and
/// the answer is about this admin and the organisation the admin belongs to.
pub proof fn law_login_takes_the_password(
    body: LoginBody,
    secret: String,
    step: Step<AuthJob, AuthResponse>,
    before: Db,
    answer: AuthResponse,
    after: Db,
    turns: nat,
)
    requires
        accounts::login_asks(body, secret, step),
        store::run(step, before, Ok::<AuthResponse, AppError>(answer), after, turns),
    ensures
        after == before,
        ({
            let user = before.users[answer.user.id@];
            &&& before.users.contains_key(answer.user.id@)
            &&& user.email == accounts::email_key(body.email@)
            &&& auth::hash_fault(user.password_hash) is None
            &&& auth::password_fits(body.password@, user.password_hash)
            &&& answer.user@ == accounts::shown_user(user)
            &&& before.orgs.contains_key(user.org_id)
            &&& answer.org@ == before.orgs[user.org_id].org
            &&& auth::is_token_for(answer.user.id@, answer.org.id@, secret@, answer.token@)
        }),
{
    let out = Ok::<AuthResponse, AppError>(answer);
    let (r1, mid1, s2) = soundness::lemma_one_turn(step->effect, step->job, before, out, after, turns);
    let (r2, mid2, s3) = soundness::lemma_one_turn(
        s2->effect,
        s2->job,
        mid1,
        out,
        after,
        (turns - 1) as nat,
    );
}

/// Whoever has registered can log in with the same password and address, in
/// whatever case and with whatever white space around it, and gets the same
/// organisation and the same admin, provided that the store does not fail.
pub proof fn law_registered_can_log_in(
    body: RegisterBody,
    org_id: Seq<char>,
    user_id: Seq<char>,
    password_hash: Seq<char>,
    now: i64,
    secret: String,
    register: Step<AuthJob, AuthResponse>,
    before: Db,
    registered: AuthResponse,
    mid: Db,
    register_turns: nat,
    login_body: LoginBody,
    login: Step<AuthJob, AuthResponse>,
    out: Result<AuthResponse, AppError>,
    after: Db,
    login_turns: nat,
)
    requires
        soundness::sound(before),
        accounts::register_starts(body, org_id, user_id, password_hash, now, secret, register),
        store::run(
            register,
            before,
            Ok::<AuthResponse, AppError>(registered),
            mid,
            register_turns,
        ),
        accounts::login_asks(login_body, secret, login),
        accounts::email_key(login_body.email@) == accounts::email_key(body.email@),
        login_body.password@ == body.password@,
        store::steady_run(login, mid, out, after, login_turns),
    ensures
        after == mid,
        out matches Ok(answer) && {
            &&& answer.org@ == registered.org@
            &&& answer.user@ == registered.user@
            &&& auth::is_token_for(user_id, org_id, secret@, answer.token@)
        },
{
    law_register(
        body,
        org_id,
        user_id,
        password_hash,
        now,
        secret,
        register,
        before,
        registered,
        mid,
        register_turns,
    );
    assert(mid.users.contains_key(user_id));
    assert(mid.has_email(accounts::email_key(body.email@)));
    let (r1, mid1, s2) = soundness::lemma_one_steady_turn(
        login->effect,
        login->job,
        mid,
        out,
        after,
        login_turns,
    );
    let found = r1->UserRow_0;
    assert(found.id@ == user_id) by {
        if found.id@ != user_id {
            assert(before.users.contains_key(found.id@));
        }
    }
    let (r2, mid2, s3) = soundness::lemma_one_steady_turn(
        s2->effect,
        s2->job,
        mid1,
        out,
        after,
        (login_turns - 1) as nat,
    );
}

/// Without the password of the admin with that address, nobody is let in: the
/// answer is 401, the same as for an address that nobody has.
pub proof fn law_wrong_password_is_refused(
    body: LoginBody,
    secret: String,
    step: Step<AuthJob, AuthResponse>,
    before: Db,
    out: Result<AuthResponse, AppError>,
    after: Db,
    turns: nat,
)
    requires
        accounts::login_asks(body, secret, step),
        forall|id: Seq<char>| #[trigger]
            before.users.contains_key(id) && before.users[id].email == accounts::email_key(
                body.email@,
            ) ==> auth::hash_fault(before.users[id].password_hash) is None && !auth::password_fits(
                body.password@,
                before.users[id].password_hash,
            ),
        store::run(step, before, out, after, turns),
    ensures
        after == before,
        out matches Err(e) && e.says(Status::Unauthorized, "invalid email or password"@),
{
    let (r1, mid1, s2) = soundness::lemma_one_turn(step->effect, step->job, before, out, after, turns);
}

/// Who asks who one is gets the organisation and the admin that the token speaks
/// of, as they are kept, and a fresh token for both. Nothing changes.
pub proof fn law_me(
    user: AuthUser,
    secret: String,
    before: Db,
    answer: AuthResponse,
    after: Db,
    turns: nat,
)
    requires
        soundness::sound(before),
        store::run(
            Step::<AuthJob, AuthResponse>::Await {
                effect: Effect::FindOrg { org_id: user.org_id },
                job: AuthJob::Recalling { user_id: user.user_id, secret },
            },
            before,
            Ok::<AuthResponse, AppError>(answer),
            after,
            turns,
        ),
    ensures
        after == before,
        before.orgs.contains_key(user.org_id@),
        answer.org@ == before.orgs[user.org_id@].org,
        before.users.contains_key(user.user_id@),
        answer.user@ == accounts::shown_user(before.users[user.user_id@]),
        auth::is_token_for(user.user_id@, user.org_id@, secret@, answer.token@),
{
    let out = Ok::<AuthResponse, AppError>(answer);
    let (r1, mid1, s2) = soundness::lemma_one_turn(
        Effect::FindOrg { org_id: user.org_id },
        AuthJob::Recalling { user_id: user.user_id, secret },
        before,
        out,
        after,
        turns,
    );
    let (r2, mid2, s3) = soundness::lemma_one_turn(
        s2->effect,
        s2->job,
        mid1,
        out,
        after,
        (turns - 1) as nat,
    );
}

/// A password fits the hash that was made of it, and no password is an error with
/// such a hash.
pub proof fn law_hashed_password_is_accepted(
    password: Seq<char>,
    hash: Seq<char>,
    tried: Seq<char>,
    r: Result<bool, AppError>,
)
    requires
        auth::is_hash_of(hash, password),
        auth::password_answer(tried, hash, r),
    ensures
        r is Ok,
        tried == password ==> r == Ok::<bool, AppError>(true),
{
}

/// A token speaks for the admin and the organisation that it was issued for: where
/// it is accepted, its claims name these two and no others.
pub proof fn law_token_names_its_admin(
    user_id: Seq<char>,
    org_id: Seq<char>,
    secret: Seq<char>,
    token: Seq<char>,
    second: u64,
    claims: Claims,
)
    requires
        auth::is_token_for(user_id, org_id, secret, token),
        auth::tells(auth::token_outcome(token, secret, second), Ok(claims)),
    ensures
        claims.sub@ == user_id,
        claims.org_id@ == org_id,
{
}

/// An admin who comes with a token is the one that it was issued to.
pub proof fn law_admin_is_whom_the_token_names(
    user_id: Seq<char>,
    org_id: Seq<char>,
    secret: Seq<char>,
    token: Seq<char>,
    second: u64,
    user: AuthUser,
)
    requires
        auth::is_token_for(user_id, org_id, secret, token),
        auth::admits(auth::token_outcome(token, secret, second), Ok(user)),
    ensures
        user.user_id@ == user_id,
        user.org_id@ == org_id,
{
}

/// A token is accepted for the week that follows the second in which it was
/// issued, and says what it was issued for. The clock has to have passed the first
/// minute of the epoch.
pub proof fn law_token_is_good_for_a_week(
    now_ms: i64,
    user_id: Seq<char>,
    org_id: Seq<char>,
    secret: Seq<char>,
    token: Seq<char>,
    second: u64,
    r: Result<Claims, AppError>,
    admin: Result<AuthUser, AppError>,
)
    requires
        auth::token_issued_at(now_ms, user_id, org_id, secret, token),
        auth::LEEWAY_S <= second <= now_ms as int / 1000 + 604_800,
        auth::tells(auth::token_outcome(token, secret, second), r),
        auth::admits(auth::token_outcome(token, secret, second), admin),
    ensures
        r matches Ok(claims) && claims.sub@ == user_id && claims.org_id@ == org_id && claims.exp
            == now_ms as int / 1000 + 604_800,
        admin matches Ok(user) && user.user_id@ == user_id && user.org_id@ == org_id,
{
    assert(auth::token_fault(token, secret, second) is None);
}

/// A token is refused with 401 once it has expired, and the leeway is over.
pub proof fn law_token_expires(
    now_ms: i64,
    user_id: Seq<char>,
    org_id: Seq<char>,
    secret: Seq<char>,
    token: Seq<char>,
    second: u64,
    r: Result<Claims, AppError>,
)
    requires
        auth::token_issued_at(now_ms, user_id, org_id, secret, token),
        0 <= now_ms,
        second > now_ms as int / 1000 + 604_800 + auth::LEEWAY_S,
        auth::tells(auth::token_outcome(token, secret, second), r),
    ensures
        r matches Err(e) && e.says(
            Status::Unauthorized,
            "invalid token: "@ + "ExpiredSignature"@,
        ),
{
    assert(auth::token_fault(token, secret, second) == Some("ExpiredSignature"@));
}

} // verus!
