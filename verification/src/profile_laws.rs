//! What becomes of the profile of an organisation and of its admins: field by
//! field, from the request to the answer and to the store.

use vstd::prelude::*;

use crate::account_laws;
use crate::accounts;
use crate::accounts::AuthJob;
use crate::auth;
use crate::auth::AuthUser;
use crate::error::{AppError, Status};
use crate::flow::{Effect, Step};
use crate::laws;
use crate::orgs;
use crate::orgs::OrgJob;
use crate::records::{AuthResponse, LoginBody, OrgOut, RegisterBody, UpdateOrgBody, UserRow};
use crate::soundness;
use crate::store;
use crate::store::Db;
use crate::text;

verus! {

// ---------------------------------------------------------------------------
// Registering
// ---------------------------------------------------------------------------

/// Registering is refused with 400, at once, where the name of the organisation or
/// the address is blank or the password has fewer than 8 bytes; and else it goes
/// on, as long as the password is not too long to be hashed.
pub proof fn law_registering_takes_name_address_and_password(
    body: RegisterBody,
    now: i64,
    secret: String,
    step: Step<AuthJob, AuthResponse>,
)
    requires
        accounts::register_begins(body, now, secret, step),
    ensures
        ({
            let bytes = vstd::utf8::encode_utf8(body.password@).len();
            let lacking = text::trimmed(body.org_name@).len() == 0 || text::trimmed(
                body.email@,
            ).len() == 0 || bytes < 8;
            &&& lacking ==> (step matches Step::Done(Err(e)) && e.status == Status::BadRequest
                && e.message@
                == "orgName and email are required, and password must be at least 8 characters"@)
            &&& !lacking && bytes <= 0xFFFF_FFFF ==> step is Await
            &&& !lacking && bytes > 0xFFFF_FFFF ==> (step matches Step::Done(Err(e)) && e.status
                == Status::InternalServerError)
        }),
{
    text::lemma_blank_trims_to_nothing(body.org_name@);
    text::lemma_blank_trims_to_nothing(body.email@);
}

/// A registration that went through: the admin has the name of the request and its
/// address, trimmed and in lower case, and the password of the request; the
/// organisation has the name of the request, no tagline, the first letter of its
/// name in upper case, and the colours that all start with. The answer shows both
/// as they are kept, and nothing else is added.
pub proof fn law_registering_keeps_what_was_sent(
    body: RegisterBody,
    now: i64,
    secret: String,
    step: Step<AuthJob, AuthResponse>,
    before: Db,
    answer: AuthResponse,
    after: Db,
    turns: nat,
)
    requires
        accounts::register_begins(body, now, secret, step),
        store::run(step, before, Ok::<AuthResponse, AppError>(answer), after, turns),
    ensures
        answer.user.name@ == body.name@,
        answer.user.email@ == text::lowercased(text::trimmed(body.email@)),
        answer.org.name@ == body.org_name@,
        answer.org.tagline@.len() == 0,
        body.org_name@.len() > 0,
        answer.org.logo_initial@ == text::uppercased(body.org_name@[0]),
        answer.org.theme.primary@ == "#1F4D3E"@,
        answer.org.theme.primary_dark@ == "#123328"@,
        answer.org.theme.accent@ == "#C9A15F"@,
        answer.org.theme.accent_soft@ == "#F3E9D2"@,
        answer.org.theme.background@ == "#FBF8F2"@,
        answer.org.theme.surface@ == "#FFFFFF"@,
        answer.org.theme.text_primary@ == "#20241F"@,
        answer.org.theme.text_secondary@ == "#71786D"@,
        answer.org.theme.border@ == "#E9E4D6"@,
        auth::is_token_for(answer.user.id@, answer.org.id@, secret@, answer.token@),
        !before.users.contains_key(answer.user.id@),
        after.users.contains_key(answer.user.id@),
        ({
            let user = after.users[answer.user.id@];
            &&& user.id == answer.user.id@
            &&& user.org_id == answer.org.id@
            &&& user.name == body.name@
            &&& user.email == text::lowercased(text::trimmed(body.email@))
            &&& user.created_at == now
            &&& auth::hash_fault(user.password_hash) is None
            &&& auth::password_fits(body.password@, user.password_hash)
        }),
        after.users == before.users.insert(answer.user.id@, after.users[answer.user.id@]),
        !before.orgs.contains_key(answer.org.id@),
        after.orgs.contains_key(answer.org.id@),
        ({
            let org = after.orgs[answer.org.id@].org;
            &&& org.id == answer.org.id@
            &&& org.name == body.org_name@
            &&& org.tagline.len() == 0
            &&& org.logo_initial == text::uppercased(body.org_name@[0])
            &&& org.theme.primary == "#1F4D3E"@
            &&& org.theme.primary_dark == "#123328"@
            &&& org.theme.accent == "#C9A15F"@
            &&& org.theme.accent_soft == "#F3E9D2"@
            &&& org.theme.background == "#FBF8F2"@
            &&& org.theme.surface == "#FFFFFF"@
            &&& org.theme.text_primary == "#20241F"@
            &&& org.theme.text_secondary == "#71786D"@
            &&& org.theme.border == "#E9E4D6"@
            &&& after.orgs[answer.org.id@].created_at == now
        }),
        after.orgs == before.orgs.insert(answer.org.id@, after.orgs[answer.org.id@]),
        after.tables == before.tables,
        after.menu == before.menu,
        after.orders == before.orders,
        after.order_items == before.order_items,
{
    text::lemma_blank_trims_to_nothing(body.org_name@);
    let (org_id, user_id, password_hash) = choose|
        org_id: Seq<char>,
        user_id: Seq<char>,
        password_hash: Seq<char>,
    | #[trigger]
        accounts::register_starts(body, org_id, user_id, password_hash, now, secret, step);
    account_laws::law_register(
        body,
        org_id,
        user_id,
        password_hash,
        now,
        secret,
        step,
        before,
        answer,
        after,
        turns,
    );
    assert(answer.org@.theme == answer.org.theme@);
}

// ---------------------------------------------------------------------------
// Logging in
// ---------------------------------------------------------------------------

/// Whoever logs in has the address of an admin, whatever its case and the white
/// space around it, and a password that fits; the answer is about that admin and
/// the organisation of that admin, as they are kept. Nothing changes.
pub proof fn law_login_shows_the_admin(
    body: LoginBody,
    secret: String,
    step: Step<AuthJob, AuthResponse>,
    before: Db,
    answer: AuthResponse,
    after: Db,
    turns: nat,
)
    requires
        soundness::sound(before),
        accounts::login_asks(body, secret, step),
        store::run(step, before, Ok::<AuthResponse, AppError>(answer), after, turns),
    ensures
        after == before,
        before.users.contains_key(answer.user.id@),
        ({
            let user = before.users[answer.user.id@];
            let org = before.orgs[user.org_id].org;
            &&& user.email == text::lowercased(text::trimmed(body.email@))
            &&& auth::hash_fault(user.password_hash) is None
            &&& auth::password_fits(body.password@, user.password_hash)
            &&& answer.user.name@ == user.name
            &&& answer.user.email@ == user.email
            &&& before.orgs.contains_key(user.org_id)
            &&& answer.org.id@ == user.org_id
            &&& answer.org.name@ == org.name
            &&& answer.org.tagline@ == org.tagline
            &&& answer.org.logo_initial@ == org.logo_initial
            &&& answer.org.theme@ == org.theme
            &&& auth::is_token_for(answer.user.id@, user.org_id, secret@, answer.token@)
        }),
{
    account_laws::law_login_takes_the_password(body, secret, step, before, answer, after, turns);
    assert(answer.org@.theme == answer.org.theme@);
}

/// An admin with that address whose password fits is let in, as that admin,
/// provided that the store does not fail.
pub proof fn law_the_right_password_lets_in(
    body: LoginBody,
    secret: String,
    step: Step<AuthJob, AuthResponse>,
    user_id: Seq<char>,
    before: Db,
    out: Result<AuthResponse, AppError>,
    after: Db,
    turns: nat,
)
    requires
        soundness::sound(before),
        before.users.contains_key(user_id),
        before.users[user_id].email == text::lowercased(text::trimmed(body.email@)),
        auth::hash_fault(before.users[user_id].password_hash) is None,
        auth::password_fits(body.password@, before.users[user_id].password_hash),
        accounts::login_asks(body, secret, step),
        store::steady_run(step, before, out, after, turns),
    ensures
        after == before,
        out matches Ok(answer) && answer.user.id@ == user_id && answer.user.name@
            == before.users[user_id].name && answer.user.email@ == before.users[user_id].email
            && answer.org.id@ == before.users[user_id].org_id,
{
    assert(before.has_email(text::lowercased(text::trimmed(body.email@))));
    let (r1, mid1, s2) = soundness::lemma_one_steady_turn(
        step->effect,
        step->job,
        before,
        out,
        after,
        turns,
    );
    assert(before.users.contains_key(r1->UserRow_0.id@));
    let (r2, mid2, s3) = soundness::lemma_one_steady_turn(
        s2->effect,
        s2->job,
        mid1,
        out,
        after,
        (turns - 1) as nat,
    );
}

/// Without an admin of that address whose password fits, nobody is let in, and the
/// answer is always the same: 401.
pub proof fn law_nobody_else_is_let_in(
    body: LoginBody,
    secret: String,
    step: Step<AuthJob, AuthResponse>,
    before: Db,
    out: Result<AuthResponse, AppError>,
    after: Db,
    turns: nat,
)
    requires
        forall|id: Seq<char>| #[trigger]
            before.users.contains_key(id) && before.users[id].email == text::lowercased(
                text::trimmed(body.email@),
            ) ==> auth::hash_fault(before.users[id].password_hash) is None && !auth::password_fits(
                body.password@,
                before.users[id].password_hash,
            ),
        accounts::login_asks(body, secret, step),
        store::run(step, before, out, after, turns),
    ensures
        after == before,
        out matches Err(e) && e.status == Status::Unauthorized && e.message@
            == "invalid email or password"@,
{
    account_laws::law_wrong_password_is_refused(body, secret, step, before, out, after, turns);
}

/// A password that cannot be checked is the fault of the service, and answered with
/// 500 in the words of the one who could not check it.
pub proof fn law_an_unreadable_hash_is_an_error(
    body: LoginBody,
    secret: String,
    step: Step<AuthJob, AuthResponse>,
    user_id: Seq<char>,
    before: Db,
    out: Result<AuthResponse, AppError>,
    after: Db,
    turns: nat,
)
    requires
        soundness::sound(before),
        before.users.contains_key(user_id),
        before.users[user_id].email == text::lowercased(text::trimmed(body.email@)),
        auth::hash_fault(before.users[user_id].password_hash) is Some,
        accounts::login_asks(body, secret, step),
        store::steady_run(step, before, out, after, turns),
    ensures
        after == before,
        out matches Err(e) && e.status == Status::InternalServerError && Some(e.message@)
            == auth::hash_fault(before.users[user_id].password_hash),
{
    assert(before.has_email(text::lowercased(text::trimmed(body.email@))));
    let (r1, mid1, s2) = soundness::lemma_one_steady_turn(
        step->effect,
        step->job,
        before,
        out,
        after,
        turns,
    );
    assert(before.users.contains_key(r1->UserRow_0.id@));
}

/// Who asks who one is gets the admin and the organisation of the token, field by
/// field as they are kept.
pub proof fn law_me_shows_the_admin(
    user: AuthUser,
    secret: String,
    before: Db,
    answer: AuthResponse,
    after: Db,
    turns: nat,
)
    requires
        soundness::sound(before),
        store::run(
            Step::<AuthJob, AuthResponse>::Await {
                effect: Effect::FindOrg { org_id: user.org_id },
                job: AuthJob::Recalling { user_id: user.user_id, secret },
            },
            before,
            Ok::<AuthResponse, AppError>(answer),
            after,
            turns,
        ),
    ensures
        after == before,
        before.users.contains_key(user.user_id@),
        answer.user.id@ == user.user_id@,
        answer.user.name@ == before.users[user.user_id@].name,
        answer.user.email@ == before.users[user.user_id@].email,
        before.orgs.contains_key(user.org_id@),
        answer.org.id@ == user.org_id@,
        answer.org.name@ == before.orgs[user.org_id@].org.name,
        answer.org.tagline@ == before.orgs[user.org_id@].org.tagline,
        answer.org.logo_initial@ == before.orgs[user.org_id@].org.logo_initial,
        answer.org.theme@ == before.orgs[user.org_id@].org.theme,
        auth::is_token_for(user.user_id@, user.org_id@, secret@, answer.token@),
{
    account_laws::law_me(user, secret, before, answer, after, turns);
    assert(answer.org@.theme == answer.org.theme@);
}

// ---------------------------------------------------------------------------
// Changing an organisation
// ---------------------------------------------------------------------------

/// A change of an organisation sets just what the request gives, and leaves the
/// rest as it was in the store: name, tagline, initial, and the theme with all its
/// colours. The answer shows the organisation as it is kept afterwards.
pub proof fn law_change_keeps_what_is_not_given(
    auth: AuthUser,
    org_id: String,
    body: UpdateOrgBody,
    step: Step<OrgJob, OrgOut>,
    before: Db,
    answer: OrgOut,
    after: Db,
    turns: nat,
)
    requires
        soundness::sound(before),
        orgs::update_org_asks(auth, org_id, body, step),
        store::run(step, before, Ok::<OrgOut, AppError>(answer), after, turns),
    ensures
        before.orgs.contains_key(org_id@),
        after.orgs.contains_key(org_id@),
        ({
            let was = before.orgs[org_id@].org;
            let is = after.orgs[org_id@].org;
            &&& is.id == org_id@
            &&& body.name is None ==> is.name == was.name
            &&& body.name matches Some(name) ==> is.name == name@
            &&& body.tagline is None ==> is.tagline == was.tagline
            &&& body.tagline matches Some(tagline) ==> is.tagline == tagline@
            &&& body.logo_initial is None ==> is.logo_initial == was.logo_initial
            &&& body.logo_initial matches Some(initial) ==> is.logo_initial == initial@
            &&& body.theme is None ==> is.theme == was.theme
            &&& body.theme matches Some(theme) ==> {
                &&& is.theme.primary == theme.primary@
                &&& is.theme.primary_dark == theme.primary_dark@
                &&& is.theme.accent == theme.accent@
                &&& is.theme.accent_soft == theme.accent_soft@
                &&& is.theme.background == theme.background@
                &&& is.theme.surface == theme.surface@
                &&& is.theme.text_primary == theme.text_primary@
                &&& is.theme.text_secondary == theme.text_secondary@
                &&& is.theme.border == theme.border@
            }
            &&& after.orgs[org_id@].created_at == before.orgs[org_id@].created_at
            &&& answer.id@ == org_id@
            &&& answer.name@ == is.name
            &&& answer.tagline@ == is.tagline
            &&& answer.logo_initial@ == is.logo_initial
            &&& answer.theme.primary@ == is.theme.primary
            &&& answer.theme.primary_dark@ == is.theme.primary_dark
            &&& answer.theme.accent@ == is.theme.accent
            &&& answer.theme.accent_soft@ == is.theme.accent_soft
            &&& answer.theme.background@ == is.theme.background
            &&& answer.theme.surface@ == is.theme.surface
            &&& answer.theme.text_primary@ == is.theme.text_primary
            &&& answer.theme.text_secondary@ == is.theme.text_secondary
            &&& answer.theme.border@ == is.theme.border
        }),
        forall|id: Seq<char>|
            id != org_id@ ==> (#[trigger] after.orgs.contains_key(id) == before.orgs.contains_key(id)
                && after.orgs[id] == before.orgs[id]),
        after.users == before.users,
        after.tables == before.tables,
        after.menu == before.menu,
        after.orders == before.orders,
        after.order_items == before.order_items,
{
    laws::law_update_org(auth, org_id, body, step, before, answer, after, turns);
    assert(answer@.theme == answer.theme@);
}

/// An organisation that is asked for is shown field by field as it is kept.
pub proof fn law_org_is_shown_as_kept(
    org_id: String,
    before: Db,
    answer: OrgOut,
    after: Db,
    turns: nat,
)
    requires
        soundness::sound(before),
        store::run(
            Step::<OrgJob, OrgOut>::Await {
                effect: Effect::FindOrg { org_id },
                job: OrgJob::Showing,
            },
            before,
            Ok::<OrgOut, AppError>(answer),
            after,
            turns,
        ),
    ensures
        after == before,
        before.orgs.contains_key(org_id@),
        answer.id@ == org_id@,
        answer.name@ == before.orgs[org_id@].org.name,
        answer.tagline@ == before.orgs[org_id@].org.tagline,
        answer.logo_initial@ == before.orgs[org_id@].org.logo_initial,
        answer.theme@ == before.orgs[org_id@].org.theme,
{
    let (r1, mid1, s2) = soundness::lemma_one_turn(
        Effect::FindOrg { org_id },
        OrgJob::Showing,
        before,
        Ok::<OrgOut, AppError>(answer),
        after,
        turns,
    );
    assert(answer@.theme == answer.theme@);
}

/// What a check of the password came to decides: with the right one, the
/// organisation of the admin is asked for; with a wrong one, 401 is answered; and an
/// error of the check is passed on as it is.
pub proof fn law_check_decides(
    user: UserRow,
    checked: Result<bool, AppError>,
    secret: String,
    step: Step<AuthJob, AuthResponse>,
)
    requires
        accounts::goes_on_after_check(user, checked, secret, step),
    ensures
        checked == Ok::<bool, AppError>(true) ==> (step matches Step::Await {
            effect: Effect::FindOrg { org_id },
            job: AuthJob::Entering { user: shown, secret: kept },
        } && org_id@ == user.org_id@ && shown.id@ == user.id@ && shown.name@ == user.name@
            && shown.email@ == user.email@ && kept@ == secret@),
        checked == Ok::<bool, AppError>(false) ==> (step matches Step::Done(Err(e)) && e.status
            == Status::Unauthorized && e.message@ == "invalid email or password"@),
        checked is Err ==> step is Done && step->Done_0 is Err && step->Done_0->Err_0
            == checked->Err_0,
{
}

// ---------------------------------------------------------------------------
// Names and addresses
// ---------------------------------------------------------------------------

/// An address is kept and looked for trimmed and in lower case; what stands for an
/// organisation is the first letter of its name in upper case, or R.
pub proof fn law_addresses_and_initials(email: Seq<char>, name: Seq<char>)
    ensures
        accounts::email_key(email) == text::lowercased(text::trimmed(email)),
        name.len() > 0 ==> accounts::initial_of(name) == text::uppercased(name[0]),
        name.len() == 0 ==> accounts::initial_of(name) == text::uppercased('R'),
{
}

} // verus!
