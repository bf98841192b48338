//! What the single steps of a registration, a log in and a log out do.

use crate::errors::{lists, prints, AppError, Failure};
use crate::models::{
    AuthSession, AuthUser, AuthUserRecord, GoogleAuthRequest, UserCreate, UserLogin, UserPatch,
    UserRole,
};
use crate::names::lemma_names;
use crate::register::{
    normalize_email, register, RegisterCaptcha, RegisterCreate, RegisterLogin, RegisterName,
    RegisterPassword, RegisterRollback, RegisterStep, RegisterUpdate,
};
use crate::sign_in::{
    defaulted_app, defaulted_user, ensure_auth_defaults, google_auth, login, logout, me, me_found,
    Defaults, Logout, LogoutStep, SignIn, SignInStep, SignInUpdate,
};
use crate::text::{lowercased, trimmed};
use crate::text_laws::{is_blank, law_cookie_headers, law_trim_takes_white_space, sets};
use crate::user_laws::{
    is_failure_of, is_registered_app, is_registered_user, is_session_body, lemma_failure_of,
    lemma_session_body, lemma_session_user, shows_to_session, writes_both,
};
use crate::value::{str_view, string_view, Json, Value};
use validator::ValidationErrors;
use vstd::prelude::*;

verus! {

/// An email address is kept without white space at its ends and in lower case.
pub proof fn law_normalize_email(email: &str, key: String)
    requires
        call_ensures(normalize_email, (email,), key),
    ensures
        key@ == lowercased(trimmed(email@)),
{
}

/// A registration begins with its password, or ends with what is wrong with its fields.
pub proof fn law_register(
    payload: UserCreate,
    fields: Result<(), ValidationErrors>,
    recaptcha_enabled: bool,
    step: RegisterStep,
)
    requires
        call_ensures(register, (payload, fields, recaptcha_enabled), step),
    ensures
        fields is Ok ==> {
            &&& step matches RegisterStep::CheckPassword(next, password)
            &&& password@ == payload.password@
            &&& next.payload == payload
            &&& next.recaptcha_enabled == recaptcha_enabled
        },
        fields matches Err(errors) ==> {
            &&& step matches RegisterStep::Done(Err(AppError::BadRequest(message)))
            &&& lists(errors, message@)
        },
{
}

/// A request that is in order goes on with its name; one for another role than a customer's is
/// refused.
pub open spec fn goes_on(payload: UserCreate, step: RegisterStep) -> bool {
    &&& payload.role is None || payload.role == Some(UserRole::Customer) ==> {
        &&& step matches RegisterStep::SanitizeName(next, name)
        &&& next.email@ == lowercased(trimmed(payload.email@))
        &&& next.password@ == payload.password@
        &&& next.role@ == "customer"@
        &&& payload.full_name matches Some(given) ==> (name.text matches Some(text) && text@
            == given@)
        &&& payload.full_name is None ==> name.text is None
        &&& name.limit == 120
    }
    &&& payload.role == Some(UserRole::BusinessOwner) || payload.role == Some(UserRole::Admin)
        ==> {
        &&& step matches RegisterStep::Done(Err(error))
        &&& error@ == Failure::Forbidden("This role cannot be self-registered"@)
    }
}

/// A strong password is followed by the verification of the token, where there is one to verify
/// and tokens are verified at all; a weak one ends the registration.
pub proof fn law_register_password(
    state: RegisterPassword,
    strength: Result<(), AppError>,
    step: RegisterStep,
)
    requires
        call_ensures(RegisterPassword::resume, (state, strength), step),
    ensures
        strength matches Err(error) ==> step == RegisterStep::Done(Err(error)),
        strength is Ok && !state.recaptcha_enabled ==> goes_on(state.payload, step),
        strength is Ok && state.recaptcha_enabled ==> (match state.payload.recaptcha_token {
            Some(token) => if is_blank(token@) || trimmed(token@) == "recaptcha-not-configured"@ {
                &&& step matches RegisterStep::Done(Err(error))
                &&& error@ == Failure::BadRequest("reCAPTCHA token required"@)
            } else {
                &&& step matches RegisterStep::VerifyCaptcha(next, asked)
                &&& asked@ == trimmed(token@)
                &&& next.payload == state.payload
            },
            None => {
                &&& step matches RegisterStep::Done(Err(error))
                &&& error@ == Failure::BadRequest("reCAPTCHA token required"@)
            },
        }),
{
    if let Some(token) = state.payload.recaptcha_token {
        law_trim_takes_white_space(token@);
    }
}

/// A verified token lets the registration go on, and a refused one ends it with the reason.
pub proof fn law_register_captcha(
    state: RegisterCaptcha,
    verified: Result<(), anyhow::Error>,
    step: RegisterStep,
)
    requires
        call_ensures(RegisterCaptcha::resume, (state, verified), step),
    ensures
        verified is Ok ==> goes_on(state.payload, step),
        verified matches Err(error) ==> {
            &&& step matches RegisterStep::Done(Err(AppError::BadRequest(message)))
            &&& prints(error, message@)
        },
{
}

/// The user to be created has the email address, the password, the role and the clean name.
pub proof fn law_register_name(
    state: RegisterName,
    full_name: Option<String>,
    step: RegisterStep,
    key: Seq<char>,
)
    requires
        call_ensures(RegisterName::resume, (state, full_name), step),
    ensures
        step matches RegisterStep::CreateUser(next, user) && {
            let app = user.app_metadata@;
            let metadata = user.user_metadata@;
            &&& next.email@ == state.email@ && next.password@ == state.password@
            &&& next.role@ == state.role@ && next.full_name == full_name
            &&& user.email@ == state.email@ && user.password@ == state.password@
            &&& app.get("role"@) == Some(Json::String(state.role@))
            &&& app.get("subscription_tier"@) == Some(Json::String("FREE"@))
            &&& key != "role"@ && key != "subscription_tier"@ ==> app.get(key) is None
            &&& full_name matches Some(name) ==> metadata.get("full_name"@) == Some(
                Json::String(name@),
            ) && metadata.get("name"@) == Some(Json::String(name@))
            &&& full_name is None ==> metadata.get("full_name"@) == Some(Json::Null)
                && metadata.get("name"@) == Some(Json::Null)
            &&& metadata.get("profile_picture"@) == Some(Json::Null)
            &&& metadata.get("auth_provider"@) == Some(Json::String("email"@))
            &&& key != "full_name"@ && key != "name"@ && key != "profile_picture"@ && key
                != "auth_provider"@ ==> metadata.get(key) is None
        },
{
    lemma_names();
}

/// The user that was created is given the metadata of its registration, without losing any other;
/// one that could not be created ends the registration.
pub proof fn law_register_create(
    state: RegisterCreate,
    created: Result<AuthUserRecord, anyhow::Error>,
    step: RegisterStep,
)
    requires
        call_ensures(RegisterCreate::resume, (state, created), step),
    ensures
        created matches Ok(user) ==> {
            &&& step matches RegisterStep::UpdateUser(next, patch)
            &&& next.id@ == user.id@
            &&& next.email@ == state.email@ && next.password@ == state.password@
            &&& patch.id@ == user.id@
            &&& exists|app: Json, metadata: Json|
                {
                    &&& #[trigger] writes_both(patch.body@, app, metadata)
                    &&& is_registered_app(app, user.app_metadata@, state.role@)
                    &&& is_registered_user(
                        metadata,
                        user.user_metadata@,
                        string_view(state.full_name),
                    )
                }
        },
        created matches Err(error) ==> {
            &&& step matches RegisterStep::Done(Err(failure))
            &&& is_failure_of(error, failure@)
        },
{
    lemma_names();
    match created {
        Ok(user) => {
            let body = step->UpdateUser_1.body@;
            let app = body.get("app_metadata"@)->0;
            let metadata = body.get("user_metadata"@)->0;
            assert(writes_both(body, app, metadata));
            assert(is_registered_app(app, user.app_metadata@, state.role@));
            assert(is_registered_user(
                metadata,
                user.user_metadata@,
                string_view(state.full_name),
            ));
        },
        Err(error) => {
            lemma_failure_of(error, step->Done_0->Err_0@);
        },
    }
}

/// A user with its metadata logs in as it registered; one without is deleted.
pub proof fn law_register_update(
    state: RegisterUpdate,
    updated: Result<AuthUserRecord, anyhow::Error>,
    step: RegisterStep,
)
    requires
        call_ensures(RegisterUpdate::resume, (state, updated), step),
    ensures
        updated matches Ok(user) ==> {
            &&& step matches RegisterStep::LogIn(next, credentials)
            &&& next.user == user
            &&& credentials.email@ == state.email@
            &&& credentials.password@ == state.password@
        },
        updated matches Err(error) ==> {
            &&& step matches RegisterStep::DeleteUser(next, id)
            &&& id@ == state.id@
            &&& is_failure_of(error, next.error@)
        },
{
    if let Err(error) = updated {
        lemma_failure_of(error, step->DeleteUser_0.error@);
    }
}

/// A registration that was taken back ends with the error that led there, however the deletion
/// went.
pub proof fn law_register_rollback(
    state: RegisterRollback,
    one: Result<(), anyhow::Error>,
    other: Result<(), anyhow::Error>,
    first: RegisterStep,
    second: RegisterStep,
)
    requires
        call_ensures(RegisterRollback::resume, (state, one), first),
        call_ensures(RegisterRollback::resume, (state, other), second),
    ensures
        first == second,
        first == RegisterStep::Done(Err(state.error)),
{
}

/// A registration ends with the cookies of its session and the user that was registered.
pub proof fn law_register_login(
    state: RegisterLogin,
    session: Result<AuthSession, anyhow::Error>,
    step: RegisterStep,
)
    requires
        call_ensures(RegisterLogin::resume, (state, session), step),
    ensures
        session matches Ok(session) ==> {
            &&& step matches RegisterStep::Done(Ok(response))
            &&& response.status == 201
            &&& sets(response.headers, session.cookies@)
            &&& is_session_body(response.body@, state.user)
        },
        session matches Err(error) ==> {
            &&& step matches RegisterStep::Done(Err(failure))
            &&& is_failure_of(error, failure@)
        },
{
    match session {
        Ok(session) => {
            lemma_session_body(state.user);
            law_cookie_headers(step->Done_0->Ok_0.headers, session.cookies@);
        },
        Err(error) => {
            lemma_failure_of(error, step->Done_0->Err_0@);
        },
    }
}

/// The app metadata after a log in: a role and a tier that were text stay, a missing one is the
/// default, and every other member is what it was.
pub open spec fn is_completed_app(
    after: Json,
    before: Json,
    default_role: Option<Seq<char>>,
) -> bool {
    &&& before.text_at("role"@) is Some ==> after.get("role"@) == before.get("role"@)
    &&& before.text_at("role"@) is None ==> {
        &&& default_role matches Some(role) ==> after.get("role"@) == Some(Json::String(role))
        &&& default_role is None ==> after.get("role"@) == Some(Json::String("customer"@))
    }
    &&& before.text_at("subscription_tier"@) is Some ==> after.get("subscription_tier"@)
        == before.get("subscription_tier"@)
    &&& before.text_at("subscription_tier"@) is None ==> after.get("subscription_tier"@) == Some(
        Json::String("FREE"@),
    )
    &&& forall|key: Seq<char>|
        key != "role"@ && key != "subscription_tier"@ ==> #[trigger] after.get(key) == before.get(
            key,
        )
}

/// The user metadata after a log in: the way it was done, where that is told, and every other
/// member as it was.
pub open spec fn is_completed_user(after: Json, before: Json, provider: Option<Seq<char>>) -> bool {
    &&& provider matches Some(provider) ==> after.get("auth_provider"@) == Some(
        Json::String(provider),
    )
    &&& provider is None ==> after.get("auth_provider"@) == before.get("auth_provider"@)
    &&& forall|key: Seq<char>|
        key != "auth_provider"@ ==> #[trigger] after.get(key) == before.get(key)
}

/// A user has a role and a tier, and is known by the way it logged in, where that is told.
pub open spec fn lacks_nothing(user: AuthUserRecord, provider: Option<Seq<char>>) -> bool {
    &&& user.app_metadata@.text_at("role"@) is Some
    &&& user.app_metadata@.text_at("subscription_tier"@) is Some
    &&& provider is Some ==> user.user_metadata@.text_at("auth_provider"@) == provider
}

/// A change brings a user what it lacks, and touches nothing else of it.
pub open spec fn completes(
    patch: UserPatch,
    user: AuthUserRecord,
    default_role: Option<Seq<char>>,
    provider: Option<Seq<char>>,
) -> bool {
    &&& patch.id@ == user.id@
    &&& exists|app: Json, metadata: Json|
        {
            &&& #[trigger] writes_both(patch.body@, app, metadata)
            &&& is_completed_app(app, user.app_metadata@, default_role)
            &&& is_completed_user(metadata, user.user_metadata@, provider)
        }
}

/// The metadata that are written at a log in bring what is lacking.
proof fn lemma_completes(
    patch: UserPatch,
    user: AuthUserRecord,
    default_role: Option<Seq<char>>,
    provider: Option<Seq<char>>,
)
    requires
        patch.id@ == user@.id,
        patch.body@ == crate::auth::both_metadata(
            defaulted_app(user@.app_metadata, default_role),
            defaulted_user(user@.user_metadata, provider),
        ),
    ensures
        completes(patch, user, default_role, provider),
{
    lemma_names();
    let app = defaulted_app(user@.app_metadata, default_role);
    let metadata = defaulted_user(user@.user_metadata, provider);
    assert(writes_both(patch.body@, app, metadata));
    assert(is_completed_app(app, user.app_metadata@, default_role));
    assert(is_completed_user(metadata, user.user_metadata@, provider));
}

/// A user that lacks nothing is not changed at a log in; any other one gets what it lacks, and
/// keeps every other member of its metadata.
pub proof fn law_auth_defaults(
    user: AuthUserRecord,
    default_role: Option<&str>,
    provider: Option<&str>,
    defaults: Defaults,
)
    requires
        call_ensures(ensure_auth_defaults, (user, default_role, provider), defaults),
    ensures
        lacks_nothing(user, str_view(provider)) ==> defaults == Defaults::Unchanged(user),
        !lacks_nothing(user, str_view(provider)) ==> {
            &&& defaults matches Defaults::Update(patch)
            &&& completes(patch, user, str_view(default_role), str_view(provider))
        },
{
    if let Defaults::Update(patch) = defaults {
        if !lacks_nothing(user, str_view(provider)) {
            lemma_completes(patch, user, str_view(default_role), str_view(provider));
        }
    }
}

/// A log in with a password uses the email address as it is kept and the password as it is given,
/// or ends with what is wrong with its fields.
pub proof fn law_login(
    payload: UserLogin,
    fields: Result<(), ValidationErrors>,
    step: SignInStep,
)
    requires
        call_ensures(login, (payload, fields), step),
    ensures
        fields is Ok ==> {
            &&& step matches SignInStep::LogIn(next, credentials)
            &&& credentials.email@ == lowercased(trimmed(payload.email@))
            &&& credentials.password@ == payload.password@
            &&& next.default_role is None
            &&& next.provider matches Some(provider)
            &&& provider@ == "email"@
        },
        fields matches Err(errors) ==> {
            &&& step matches SignInStep::Done(Err(AppError::BadRequest(message)))
            &&& lists(errors, message@)
        },
{
}

/// A log in through Google uses the credential without white space at its ends; a blank one is
/// refused.
pub proof fn law_google_auth(payload: GoogleAuthRequest, step: SignInStep)
    requires
        call_ensures(google_auth, (payload,), step),
    ensures
        is_blank(payload.credential@) ==> {
            &&& step matches SignInStep::Done(Err(error))
            &&& error@ == Failure::BadRequest("Google credential required"@)
        },
        !is_blank(payload.credential@) ==> {
            &&& step matches SignInStep::LogInWithToken(next, token)
            &&& token.provider@ == "google"@
            &&& token.credential@ == trimmed(payload.credential@)
            &&& next.default_role matches Some(role)
            &&& role@ == "customer"@
            &&& next.provider matches Some(provider)
            &&& provider@ == "google"@
        },
{
    law_trim_takes_white_space(payload.credential@);
}

/// A log in is answered with the cookies of its session and the user.
pub open spec fn is_signed_in(
    step: SignInStep,
    cookies: Seq<String>,
    user: AuthUserRecord,
) -> bool {
    &&& step matches SignInStep::Done(Ok(response))
    &&& response.status == 200
    &&& sets(response.headers, cookies)
    &&& is_session_body(response.body@, user)
}

/// A session of a user that lacks nothing is answered at once; any other user is changed first, and
/// keeps what the change does not bring.
pub proof fn law_sign_in(
    state: SignIn,
    session: Result<AuthSession, anyhow::Error>,
    step: SignInStep,
)
    requires
        call_ensures(SignIn::resume, (state, session), step),
    ensures
        session matches Ok(session) ==> {
            &&& lacks_nothing(session.user, str_view(state.provider)) ==> is_signed_in(
                step,
                session.cookies@,
                session.user,
            )
            &&& !lacks_nothing(session.user, str_view(state.provider)) ==> {
                &&& step matches SignInStep::UpdateUser(next, patch)
                &&& next.cookies@ == session.cookies@
                &&& completes(
                    patch,
                    session.user,
                    str_view(state.default_role),
                    str_view(state.provider),
                )
            }
        },
        session matches Err(error) ==> {
            &&& step matches SignInStep::Done(Err(failure))
            &&& is_failure_of(error, failure@)
        },
{
    match session {
        Ok(session) => {
            if lacks_nothing(session.user, str_view(state.provider)) {
                lemma_session_body(session.user);
                law_cookie_headers(step->Done_0->Ok_0.headers, session.cookies@);
            } else {
                lemma_completes(
                    step->UpdateUser_1,
                    session.user,
                    str_view(state.default_role),
                    str_view(state.provider),
                );
            }
        },
        Err(error) => {
            lemma_failure_of(error, step->Done_0->Err_0@);
        },
    }
}

/// A changed user is shown as it is then, with the cookies of the session that was opened.
pub proof fn law_sign_in_update(
    state: SignInUpdate,
    updated: Result<AuthUserRecord, anyhow::Error>,
    step: SignInStep,
)
    requires
        call_ensures(SignInUpdate::resume, (state, updated), step),
    ensures
        updated matches Ok(user) ==> is_signed_in(step, state.cookies@, user),
        updated matches Err(error) ==> {
            &&& step matches SignInStep::Done(Err(failure))
            &&& is_failure_of(error, failure@)
        },
{
    match updated {
        Ok(user) => {
            lemma_session_body(user);
            law_cookie_headers(step->Done_0->Ok_0.headers, state.cookies@);
        },
        Err(error) => {
            lemma_failure_of(error, step->Done_0->Err_0@);
        },
    }
}

/// An answer ends a session: it sets the cookies that do so, and says that it is over.
pub open spec fn ends_session(response: crate::models::Response, cookies: Seq<String>) -> bool {
    &&& response.status == 200
    &&& sets(response.headers, cookies)
    &&& response.body@.get("message"@) == Some(Json::String("Logged out successfully"@))
    &&& forall|key: Seq<char>| key != "message"@ ==> #[trigger] response.body@.get(key) is None
}

/// A log out revokes the token that the request carries, and ends the session whether or not there
/// is one and whether or not it could be revoked.
pub proof fn law_logout(
    token: Option<String>,
    cookies: Vec<String>,
    step: LogoutStep,
    revoked: Result<(), anyhow::Error>,
    response: crate::models::Response,
)
    requires
        call_ensures(logout, (token, cookies), step),
        token is Some ==> call_ensures(Logout::resume, (step->Revoke_0, revoked), response),
    ensures
        token matches Some(token) ==> {
            &&& step matches LogoutStep::Revoke(_, asked)
            &&& asked@ == token@
            &&& ends_session(response, cookies@)
        },
        token is None ==> {
            &&& step matches LogoutStep::Done(response)
            &&& ends_session(response, cookies@)
        },
{
    if token is Some {
        law_cookie_headers(response.headers, cookies@);
    } else {
        law_cookie_headers(step->Done_0.headers, cookies@);
    }
}

/// A session asks about its own user, and is shown it.
pub proof fn law_me(
    auth_user: AuthUser,
    id: String,
    found: Result<AuthUserRecord, anyhow::Error>,
    body: Result<Value, AppError>,
)
    requires
        call_ensures(me, (&auth_user,), id),
        call_ensures(me_found, (found,), body),
    ensures
        id@ == auth_user.id@,
        found matches Ok(user) ==> {
            &&& body matches Ok(body)
            &&& shows_to_session(body@, user)
        },
        found matches Err(error) ==> {
            &&& body matches Err(failure)
            &&& is_failure_of(error, failure@)
        },
{
    match found {
        Ok(user) => {
            lemma_session_user(user);
        },
        Err(error) => {
            lemma_failure_of(error, body->Err_0@);
        },
    }
}

} // verus!
