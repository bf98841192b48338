//! Log in and log out, and the user behind a session, as sequences of steps.

use crate::auth::{
    auth_failure_of, auth_response, auth_response_json, both_metadata, clear_session_headers,
    map_supabase_auth_error, metadata_patch, public_user, public_user_json,
};
use crate::errors::{lists, AppError, Failure};
use crate::headers::{cookie_headers, set_cookie_headers};
use crate::metadata::{changed, merge_metadata, merged, metadata_str, overlaid, with_member};
use crate::models::{
    AuthSession, AuthUser, AuthUserRecord, Credentials, GoogleAuthRequest, IdToken, Response,
    ResponseView, UserLogin, UserPatch,
};
use crate::profile::{or_else, text_or};
use crate::register::{email_key, normalize_email};
use crate::text::{same, trim, trimmed};
use crate::value::{str_view, Json, Object, Value};
use validator::ValidationErrors;
use vstd::prelude::*;

verus! {

/// The app metadata of a user with what every user has: a role and a subscription tier.
pub open spec fn defaulted_app(metadata: Json, default_role: Option<Seq<char>>) -> Json {
    let with_role = if metadata.text_at("role"@) is None {
        with_member(metadata, "role"@, Json::String(text_or(default_role, "customer"@)))
    } else {
        metadata
    };
    if with_role.text_at("subscription_tier"@) is None {
        with_member(with_role, "subscription_tier"@, Json::String("FREE"@))
    } else {
        with_role
    }
}

/// The user metadata of a user with the way it logged in, where that is told.
pub open spec fn defaulted_user(metadata: Json, provider: Option<Seq<char>>) -> Json {
    match provider {
        Some(provider) => if metadata.text_at("auth_provider"@) == Some(provider) {
            metadata
        } else {
            with_member(metadata, "auth_provider"@, Json::String(provider))
        },
        None => metadata,
    }
}

/// A user has what every user has, and the way it logged in is the one it is known by.
pub open spec fn complete(
    app_metadata: Json,
    user_metadata: Json,
    provider: Option<Seq<char>>,
) -> bool {
    &&& app_metadata.text_at("role"@) is Some
    &&& app_metadata.text_at("subscription_tier"@) is Some
    &&& provider matches Some(provider) ==> user_metadata.text_at("auth_provider"@) == Some(
        provider,
    )
}

/// Whether a user is to be changed.
#[derive(Debug)]
pub enum Defaults {
    /// The user has everything.
    Unchanged(AuthUserRecord),
    /// The user lacks something, and this change brings it.
    Update(UserPatch),
}

/// To merge one member in is to put it there.
proof fn lemma_merge_one(metadata: Json, key: Seq<char>, value: Json)
    requires
        !(value is Null),
    ensures
        merged(metadata, Json::Object(Map::empty().insert(key, value))) == with_member(
            metadata,
            key,
            value,
        ),
{
    let changes = Map::<Seq<char>, Json>::empty().insert(key, value);
    assert forall|k: Seq<char>| #[trigger] changed(changes, k) <==> k == key by {}
    assert(overlaid(metadata.members(), changes) =~= metadata.members().insert(key, value));
}

/// Puts a text under a key.
fn merge_text(metadata: &mut Value, key: &str, text: &str)
    ensures
        final(metadata)@ == with_member(old(metadata)@, key@, Json::String(text@)),
{
    proof {
        lemma_merge_one(metadata@, key@, Json::String(text@));
    }
    merge_metadata(metadata, Value::Object(Object::new().insert(key, Value::text(text))));
}

/// What a user lacks: a role, a subscription tier, and the way it logged in.
pub fn ensure_auth_defaults(
    user: AuthUserRecord,
    default_role: Option<&str>,
    auth_provider: Option<&str>,
) -> (defaults: Defaults)
    ensures
        if complete(user@.app_metadata, user@.user_metadata, str_view(auth_provider)) {
            defaults == Defaults::Unchanged(user)
        } else {
            &&& defaults matches Defaults::Update(patch)
            &&& patch.id@ == user@.id
            &&& patch.body@ == both_metadata(
                defaulted_app(user@.app_metadata, str_view(default_role)),
                defaulted_user(user@.user_metadata, str_view(auth_provider)),
            )
        },
{
    let mut app_metadata = user.app_metadata.clone();
    let mut user_metadata = user.user_metadata.clone();
    let mut changed = false;

    if metadata_str(&app_metadata, "role").is_none() {
        merge_text(&mut app_metadata, "role", or_else(default_role, "customer"));
        changed = true;
    }
    if metadata_str(&app_metadata, "subscription_tier").is_none() {
        merge_text(&mut app_metadata, "subscription_tier", "FREE");
        changed = true;
    }
    if let Some(provider) = auth_provider {
        let known = match metadata_str(&user_metadata, "auth_provider") {
            Some(known) => same(known, provider),
            None => false,
        };
        if !known {
            merge_text(&mut user_metadata, "auth_provider", provider);
            changed = true;
        }
    }
    if changed {
        Defaults::Update(metadata_patch(user.id.as_str(), app_metadata, user_metadata))
    } else {
        Defaults::Unchanged(user)
    }
}

/// What is to be done next in a log in.
#[derive(Debug)]
pub enum SignInStep {
    /// Open a session with a password.
    LogIn(SignIn, Credentials),
    /// Open a session with a token of another service.
    LogInWithToken(SignIn, IdToken),
    /// Change the user.
    UpdateUser(SignInUpdate, UserPatch),
    /// Answer.
    Done(Result<Response, AppError>),
}

/// A log in whose session is being opened.
#[derive(Debug)]
pub struct SignIn {
    pub default_role: Option<&'static str>,
    pub provider: Option<&'static str>,
}

/// A log in whose user is being given what it lacks.
#[derive(Debug)]
pub struct SignInUpdate {
    pub cookies: Vec<String>,
}

/// Begins a log in with a password, with the outcome of the checks on its fields.
pub fn login(payload: UserLogin, fields: Result<(), ValidationErrors>) -> (step: SignInStep)
    ensures
        match fields {
            Ok(()) => {
                &&& step matches SignInStep::LogIn(next, credentials)
                &&& next.default_role is None
                &&& str_view(next.provider) == Some("email"@)
                &&& credentials.email@ == email_key(payload.email@)
                &&& credentials.password == payload.password
            },
            Err(errors) => {
                &&& step matches SignInStep::Done(Err(AppError::BadRequest(message)))
                &&& lists(errors, message@)
            },
        },
{
    match fields {
        Ok(()) => SignInStep::LogIn(
            SignIn { default_role: None, provider: Some("email") },
            Credentials {
                email: normalize_email(payload.email.as_str()),
                password: payload.password,
            },
        ),
        Err(errors) => SignInStep::Done(Err(AppError::BadRequest(errors.to_string()))),
    }
}

/// Begins a log in with a credential from Google.
pub fn google_auth(payload: GoogleAuthRequest) -> (step: SignInStep)
    ensures
        if trimmed(payload.credential@).len() == 0 {
            &&& step matches SignInStep::Done(Err(error))
            &&& error@ == Failure::BadRequest("Google credential required"@)
        } else {
            &&& step matches SignInStep::LogInWithToken(next, token)
            &&& str_view(next.default_role) == Some("customer"@)
            &&& str_view(next.provider) == Some("google"@)
            &&& token.provider@ == "google"@
            &&& token.credential@ == trimmed(payload.credential@)
        },
{
    let credential = trim(payload.credential.as_str());
    if credential.is_empty() {
        return SignInStep::Done(
            Err(AppError::BadRequest("Google credential required".to_owned())),
        );
    }
    SignInStep::LogInWithToken(
        SignIn { default_role: Some("customer"), provider: Some("google") },
        IdToken { provider: "google", credential: credential.to_owned() },
    )
}

/// The answer to a log in: the cookies of its session, and its user.
pub open spec fn signed_in(step: SignInStep, cookies: Seq<String>, user: AuthUserRecord) -> bool {
    &&& step matches SignInStep::Done(Ok(response))
    &&& response@ == (ResponseView {
        status: 200,
        headers: cookie_headers(cookies),
        body: auth_response(user@),
    })
}

fn sign_in_response(cookies: &Vec<String>, user: &AuthUserRecord) -> (step: SignInStep)
    ensures
        signed_in(step, cookies@, *user),
{
    SignInStep::Done(
        Ok(
            Response {
                status: 200,
                headers: set_cookie_headers(cookies),
                body: auth_response_json(user),
            },
        ),
    )
}

impl SignIn {
    /// The step that follows on an outcome.
    pub open spec fn leads_to(
        self,
        session: Result<AuthSession, anyhow::Error>,
        step: SignInStep,
    ) -> bool {
        match session {
            Ok(session) => if complete(
                session.user@.app_metadata,
                session.user@.user_metadata,
                str_view(self.provider),
            ) {
                signed_in(step, session.cookies@, session.user)
            } else {
                &&& step matches SignInStep::UpdateUser(next, patch)
                &&& next.cookies == session.cookies
                &&& patch.id@ == session.user@.id
                &&& patch.body@ == both_metadata(
                    defaulted_app(session.user@.app_metadata, str_view(self.default_role)),
                    defaulted_user(session.user@.user_metadata, str_view(self.provider)),
                )
            },
            Err(error) => {
                &&& step matches SignInStep::Done(Err(failure))
                &&& auth_failure_of(error, failure@)
            },
        }
    }

    /// Goes on with the session.
    pub fn resume(self, session: Result<AuthSession, anyhow::Error>) -> (step: SignInStep)
        ensures
            self.leads_to(session, step),
    {
        match session {
            Ok(session) => match ensure_auth_defaults(
                session.user,
                self.default_role,
                self.provider,
            ) {
                Defaults::Unchanged(user) => sign_in_response(&session.cookies, &user),
                Defaults::Update(patch) => SignInStep::UpdateUser(
                    SignInUpdate { cookies: session.cookies },
                    patch,
                ),
            },
            Err(error) => SignInStep::Done(Err(map_supabase_auth_error(error))),
        }
    }
}

impl SignInUpdate {
    /// The step that follows on an outcome.
    pub open spec fn leads_to(
        self,
        updated: Result<AuthUserRecord, anyhow::Error>,
        step: SignInStep,
    ) -> bool {
        match updated {
            Ok(user) => signed_in(step, self.cookies@, user),
            Err(error) => {
                &&& step matches SignInStep::Done(Err(failure))
                &&& auth_failure_of(error, failure@)
            },
        }
    }

    /// Ends with the changed user.
    pub fn resume(self, updated: Result<AuthUserRecord, anyhow::Error>) -> (step: SignInStep)
        ensures
            self.leads_to(updated, step),
    {
        match updated {
            Ok(user) => sign_in_response(&self.cookies, &user),
            Err(error) => SignInStep::Done(Err(map_supabase_auth_error(error))),
        }
    }
}

/// What is to be done next in a log out.
#[derive(Debug)]
pub enum LogoutStep {
    /// Revoke the token.
    Revoke(Logout, String),
    /// Answer.
    Done(Response),
}

/// A log out whose token is being revoked.
#[derive(Debug)]
pub struct Logout {
    pub cookies: Vec<String>,
}

/// The answer to a log out: the cookies that end the session, and a message.
pub open spec fn logged_out(cookies: Seq<String>) -> ResponseView {
    ResponseView {
        status: 200,
        headers: cookie_headers(cookies),
        body: Json::Object(map!["message"@ => Json::String("Logged out successfully"@)]),
    }
}

fn logout_response(cookies: &Vec<String>) -> (response: Response)
    ensures
        response@ == logged_out(cookies@),
{
    Response {
        status: 200,
        headers: clear_session_headers(cookies),
        body: Value::Object(
            Object::new().insert("message", Value::text("Logged out successfully")),
        ),
    }
}

/// Begins a log out, with the token that the request carries and the cookies that end a session.
pub fn logout(access_token: Option<String>, cookies: Vec<String>) -> (step: LogoutStep)
    ensures
        match access_token {
            Some(token) => step == LogoutStep::Revoke(Logout { cookies }, token),
            None => {
                &&& step matches LogoutStep::Done(response)
                &&& response@ == logged_out(cookies@)
            },
        },
{
    match access_token {
        Some(token) => LogoutStep::Revoke(Logout { cookies }, token),
        None => LogoutStep::Done(logout_response(&cookies)),
    }
}

impl Logout {
    /// Ends the session here, whether or not its token could be revoked.
    pub fn resume(self, revoked: Result<(), anyhow::Error>) -> (response: Response)
        ensures
            response@ == logged_out(self.cookies@),
    {
        let _ = revoked;
        logout_response(&self.cookies)
    }
}

/// The id of the user that a session asks about.
pub fn me(auth_user: &AuthUser) -> (id: String)
    ensures
        id@ == auth_user.id@,
{
    auth_user.id.clone()
}

/// Ends the question of a session about its user.
pub fn me_found(user: Result<AuthUserRecord, anyhow::Error>) -> (body: Result<Value, AppError>)
    ensures
        match user {
            Ok(user) => {
                &&& body matches Ok(body)
                &&& body@ == public_user(user@)
            },
            Err(error) => {
                &&& body matches Err(failure)
                &&& auth_failure_of(error, failure@)
            },
        },
{
    match user {
        Ok(user) => Ok(public_user_json(&user)),
        Err(error) => Err(map_supabase_auth_error(error)),
    }
}

} // verus!
