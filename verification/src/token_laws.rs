//! What tokens and passwords come to: what is issued, what is read from it, and what
//! is answered where it cannot be.

use vstd::prelude::*;

use crate::auth;
use crate::auth::{AuthUser, BodyView, Claims};
use crate::error::{AppError, Status};
use crate::text;

verus! {

/// A token that was issued is accepted until a week after the second of its issue,
/// and a minute longer, and says whom it was issued to, for which organisation, and
/// when it expires; after that it is refused with 401. The clock has to have passed
/// the first minute of the epoch.
pub proof fn law_issued_token_is_good_for_a_week_and_a_minute(
    now_ms: i64,
    user_id: Seq<char>,
    org_id: Seq<char>,
    secret: Seq<char>,
    token: Seq<char>,
    second: u64,
    r: Result<Claims, AppError>,
    admin: Result<AuthUser, AppError>,
)
    requires
        0 <= now_ms,
        60 <= second,
        auth::token_issued_at(now_ms, user_id, org_id, secret, token),
        auth::tells(auth::token_outcome(token, secret, second), r),
        auth::admits(auth::token_outcome(token, secret, second), admin),
    ensures
        second <= now_ms as int / 1000 + 604_860 ==> {
            &&& r is Ok
            &&& r->Ok_0.sub@ == user_id
            &&& r->Ok_0.org_id@ == org_id
            &&& r->Ok_0.exp == now_ms as int / 1000 + 604_800
            &&& admin is Ok
            &&& admin->Ok_0.user_id@ == user_id
            &&& admin->Ok_0.org_id@ == org_id
        },
        second > now_ms as int / 1000 + 604_860 ==> {
            &&& r is Err
            &&& r->Err_0.status == Status::Unauthorized
            &&& r->Err_0.message@ == "invalid token: "@ + "ExpiredSignature"@
            &&& admin is Err
            &&& admin->Err_0.status == Status::Unauthorized
            &&& admin->Err_0.message@ == "invalid token: "@ + "ExpiredSignature"@
        },
{
    if second <= now_ms as int / 1000 + 604_860 {
        assert(auth::token_fault(token, secret, second) is None);
    } else {
        assert(auth::token_fault(token, secret, second) == Some("ExpiredSignature"@));
    }
}

/// The claims of a token are accepted exactly where all three are there and of
/// their types, and then they are what the token says; else the answer is 401 and
/// names what is wrong.
pub proof fn law_claims_have_to_be_there(body: BodyView, r: Result<Claims, AppError>)
    requires
        auth::tells(auth::claims_in(body), r),
    ensures
        r is Ok <==> (body.sub is Ok && body.sub->Ok_0 is Some && body.org_id is Ok
            && body.org_id->Ok_0 is Some && body.exp is Ok && body.exp->Ok_0 is Some),
        r matches Ok(claims) ==> {
            &&& body.sub->Ok_0 == Some(claims.sub@)
            &&& body.org_id->Ok_0 == Some(claims.org_id@)
            &&& body.exp->Ok_0 == Some(claims.exp)
        },
        r matches Err(e) ==> e.status == Status::Unauthorized,
        body.sub matches Err(words) ==> (r matches Err(e) && e.message@ == "invalid token: "@ + (
        "JSON error: "@ + words)),
        body.sub is Ok ==> (body.org_id matches Err(words) ==> (r matches Err(e) && e.message@
            == "invalid token: "@ + ("JSON error: "@ + words))),
        body.sub is Ok && body.org_id is Ok ==> (body.exp matches Err(words) ==> (r matches Err(e)
            && e.message@ == "invalid token: "@ + ("JSON error: "@ + words))),
        body.sub is Ok && body.org_id is Ok && body.exp is Ok ==> {
            &&& body.sub->Ok_0 is None ==> (r matches Err(e) && e.message@ == "invalid token: "@ + (
            "JSON error: "@ + "missing field `sub`"@))
            &&& body.sub->Ok_0 is Some && body.org_id->Ok_0 is None ==> (r matches Err(e)
                && e.message@ == "invalid token: "@ + ("JSON error: "@ + "missing field `org_id`"@))
            &&& body.sub->Ok_0 is Some && body.org_id->Ok_0 is Some && body.exp->Ok_0 is None ==> (
            r matches Err(e) && e.message@ == "invalid token: "@ + ("JSON error: "@
                + "missing field `exp`"@))
        },
{
}

/// What is read from a token are its own members, each as the member that it is.
pub proof fn law_claims_are_the_members_of_the_token(token: Seq<char>, secret: Seq<char>)
    ensures
        auth::token_members(token, secret) matches Err(words) ==> auth::token_body(token, secret)
            == Err::<BodyView, Seq<char>>(words),
        auth::token_members(token, secret) matches Ok(raw) ==> {
            let body = auth::token_body(token, secret)->Ok_0;
            &&& auth::token_body(token, secret) is Ok
            &&& raw.sub is None ==> body.sub == Ok::<Option<Seq<char>>, Seq<char>>(None)
            &&& raw.org_id is None ==> body.org_id == Ok::<Option<Seq<char>>, Seq<char>>(None)
            &&& raw.exp is None ==> body.exp == Ok::<Option<i64>, Seq<char>>(None)
            &&& raw.sub matches Some(text) ==> (crate::json::json_string(text) matches Ok(s)
                ==> body.sub == Ok::<Option<Seq<char>>, Seq<char>>(Some(s)))
            &&& raw.sub matches Some(text) ==> (crate::json::json_string(text) matches Err(w)
                ==> body.sub == Err::<Option<Seq<char>>, Seq<char>>(w))
            &&& raw.org_id matches Some(text) ==> (crate::json::json_string(text) matches Ok(s)
                ==> body.org_id == Ok::<Option<Seq<char>>, Seq<char>>(Some(s)))
            &&& raw.org_id matches Some(text) ==> (crate::json::json_string(text) matches Err(w)
                ==> body.org_id == Err::<Option<Seq<char>>, Seq<char>>(w))
            &&& raw.exp matches Some(text) ==> (crate::json::json_number(text) matches Ok(n)
                ==> body.exp == Ok::<Option<i64>, Seq<char>>(Some(n)))
            &&& raw.exp matches Some(text) ==> (crate::json::json_number(text) matches Err(w)
                ==> body.exp == Err::<Option<i64>, Seq<char>>(w))
        },
{
}

/// What a token comes to is decided in sequence: by what cannot be read of it, by
/// its claims, and by the clock.
pub proof fn law_claims_are_looked_at_before_the_clock(
    token: Seq<char>,
    secret: Seq<char>,
    second: u64,
    other_second: u64,
)
    ensures
        auth::token_body(token, secret) matches Err(words) ==> auth::token_outcome(
            token,
            secret,
            second,
        ) == Err::<auth::ClaimsView, Seq<char>>(words),
        auth::token_body(token, secret) matches Ok(body) ==> auth::claims_in(body) is Err
            ==> auth::token_outcome(token, secret, second) == auth::claims_in(body)
            && auth::token_outcome(token, secret, other_second) == auth::claims_in(body),
        auth::token_body(token, secret) matches Ok(body) ==> auth::claims_in(body) is Ok ==> (
        auth::token_outcome(token, secret, second) is Ok <==> auth::token_fault(
            token,
            secret,
            second,
        ) is None) && (auth::token_outcome(token, secret, second) matches Ok(claims) ==> claims
            == auth::claims_in(body)->Ok_0) && (auth::token_outcome(
            token,
            secret,
            second,
        ) matches Err(words) ==> auth::token_fault(token, secret, second) == Some(words)),
{
}

/// A header that holds a token behind `Bearer ` names the admin that the token
/// names, or is refused with 401 in the words with which the token is; every other
/// header is refused with 401, and so is a request without one.
pub proof fn law_header_names_the_admin_of_its_token(
    header: &str,
    token: Seq<char>,
    secret: Seq<char>,
    r: Result<AuthUser, AppError>,
    without: Result<AuthUser, AppError>,
)
    requires
        auth::authenticates(Some(header), secret, r),
        auth::authenticates(None, secret, without),
    ensures
        header@ == "Bearer "@ + token ==> exists|second: u64|
            match #[trigger] auth::token_outcome(token, secret, second) {
                Ok(claims) => r is Ok && r->Ok_0.user_id@ == claims.sub && r->Ok_0.org_id@
                    == claims.org_id,
                Err(words) => r is Err && r->Err_0.status == Status::Unauthorized
                    && r->Err_0.message@ == "invalid token: "@ + words,
            },
        !"Bearer "@.is_prefix_of(header@) ==> r is Err && r->Err_0.status == Status::Unauthorized
            && r->Err_0.message@ == "expected 'Bearer <token>'"@,
        without is Err,
        without->Err_0.status == Status::Unauthorized,
        without->Err_0.message@ == "missing Authorization header"@,
{
    if header@ == "Bearer "@ + token {
        text::lemma_prefix_of_join("Bearer "@);
        assert("Bearer "@.is_prefix_of("Bearer "@ + token));
        assert(header@.skip("Bearer "@.len() as int) =~= token);
        let second = choose|second: u64|
            auth::admits(#[trigger] auth::token_outcome(token, secret, second), r);
        assert(auth::admits(auth::token_outcome(token, secret, second), r));
    }
}

/// A password is told from the hash alone: it fits or it does not, and only a hash
/// that cannot be read is an error, answered with 500 in the words for that.
pub proof fn law_password_is_told_from_the_hash(
    password: Seq<char>,
    hash: Seq<char>,
    r: Result<bool, AppError>,
)
    requires
        auth::password_answer(password, hash, r),
    ensures
        auth::hash_fault(hash) is None ==> r is Ok && (r->Ok_0 <==> auth::password_fits(
            password,
            hash,
        )),
        auth::hash_fault(hash) matches Some(words) ==> (r matches Err(e) && e.status
            == Status::InternalServerError && e.message@ == words),
{
}

} // verus!
