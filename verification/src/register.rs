//! Registration, as a sequence of steps.
//!
//! [`register`] begins it. Each step but the last names something to be done outside and holds
//! what goes on from there: `resume` takes the outcome and gives the next step.

use crate::auth::{
    auth_failure_of, auth_response, auth_response_json, both_metadata, map_supabase_auth_error,
    registered_app, registered_user, registration_app_metadata, registration_role,
    registration_user_metadata, role_for, session_headers, update_registration_metadata,
};
use crate::errors::{lists, prints, AppError, Failure};
use crate::headers::cookie_headers;
use crate::metadata::merged;
use crate::models::{
    AuthSession, AuthUserRecord, Credentials, NewUser, Response, ResponseView, TextRequest,
    UserCreate, UserPatch,
};
use crate::text::{borrowed, lowercased, same, to_lowercase, trim, trimmed};
use crate::value::string_view;
use validator::ValidationErrors;
use vstd::prelude::*;

verus! {

/// The longest name that is kept.
pub const FULL_NAME_LIMIT: usize = 120;

/// What is to be done next in a registration.
#[derive(Debug)]
pub enum RegisterStep {
    /// Judge how strong the password is.
    CheckPassword(RegisterPassword, String),
    /// Have the reCAPTCHA service verify the token.
    VerifyCaptcha(RegisterCaptcha, String),
    /// Clean the name that was given.
    SanitizeName(RegisterName, TextRequest),
    /// Create the user.
    CreateUser(RegisterCreate, NewUser),
    /// Change the user.
    UpdateUser(RegisterUpdate, UserPatch),
    /// Delete the user with this id.
    DeleteUser(RegisterRollback, String),
    /// Open a session.
    LogIn(RegisterLogin, Credentials),
    /// Answer.
    Done(Result<Response, AppError>),
}

/// A registration whose password is being judged.
#[derive(Debug)]
pub struct RegisterPassword {
    pub payload: UserCreate,
    pub recaptcha_enabled: bool,
}

/// A registration whose token is being verified.
#[derive(Debug)]
pub struct RegisterCaptcha {
    pub payload: UserCreate,
}

/// A registration whose name is being cleaned.
#[derive(Debug)]
pub struct RegisterName {
    pub email: String,
    pub password: String,
    pub role: &'static str,
}

/// A registration whose user is being created.
#[derive(Debug)]
pub struct RegisterCreate {
    pub email: String,
    pub password: String,
    pub role: &'static str,
    pub full_name: Option<String>,
}

/// A registration whose user is being given its metadata.
#[derive(Debug)]
pub struct RegisterUpdate {
    pub id: String,
    pub email: String,
    pub password: String,
}

/// A registration that failed, and whose user is being deleted again.
#[derive(Debug)]
pub struct RegisterRollback {
    pub error: AppError,
}

/// A registration whose user is complete, and for which a session is being opened.
#[derive(Debug)]
pub struct RegisterLogin {
    pub user: AuthUserRecord,
}

/// The token to be verified: the one given, without white space at its ends; none where that
/// leaves nothing, or the word that stands for a service that is not set up.
pub open spec fn captcha_token(given: Option<Seq<char>>) -> Option<Seq<char>> {
    match given {
        Some(token) => if trimmed(token).len() == 0 || trimmed(token)
            == "recaptcha-not-configured"@ {
            None
        } else {
            Some(trimmed(token))
        },
        None => None,
    }
}

/// The form in which an email address is kept.
pub open spec fn email_key(email: Seq<char>) -> Seq<char> {
    lowercased(trimmed(email))
}

/// The form in which an email address is kept.
pub fn normalize_email(email: &str) -> (key: String)
    ensures
        key@ == email_key(email@),
{
    to_lowercase(trim(email))
}

/// The step that follows when nothing speaks against the request itself any more.
pub open spec fn accepted(payload: UserCreate, step: RegisterStep) -> bool {
    match role_for(payload.role) {
        Ok(role) => {
            &&& step matches RegisterStep::SanitizeName(next, name)
            &&& next.email@ == email_key(payload.email@)
            &&& next.password@ == payload.password@
            &&& next.role@ == role
            &&& string_view(name.text) == string_view(payload.full_name)
            &&& name.limit == FULL_NAME_LIMIT
        },
        Err(failure) => {
            &&& step matches RegisterStep::Done(Err(error))
            &&& error@ == failure
        },
    }
}

fn accept(payload: UserCreate) -> (step: RegisterStep)
    ensures
        accepted(payload, step),
{
    let email = normalize_email(payload.email.as_str());
    match registration_role(payload.role.as_ref()) {
        Ok(role) => RegisterStep::SanitizeName(
            RegisterName { email, password: payload.password, role },
            TextRequest { text: payload.full_name, limit: FULL_NAME_LIMIT },
        ),
        Err(error) => RegisterStep::Done(Err(error)),
    }
}

/// The step that a registration begins with.
pub open spec fn begins(
    payload: UserCreate,
    fields: Result<(), ValidationErrors>,
    recaptcha_enabled: bool,
    step: RegisterStep,
) -> bool {
    match fields {
        Ok(()) => {
            &&& step matches RegisterStep::CheckPassword(next, password)
            &&& next.payload == payload
            &&& next.recaptcha_enabled == recaptcha_enabled
            &&& password@ == payload.password@
        },
        Err(errors) => {
            &&& step matches RegisterStep::Done(Err(AppError::BadRequest(message)))
            &&& lists(errors, message@)
        },
    }
}

/// Begins a registration, with the outcome of the checks on its fields.
pub fn register(
    payload: UserCreate,
    fields: Result<(), ValidationErrors>,
    recaptcha_enabled: bool,
) -> (step: RegisterStep)
    ensures
        begins(payload, fields, recaptcha_enabled, step),
{
    match fields {
        Ok(()) => {
            let password = payload.password.clone();
            RegisterStep::CheckPassword(RegisterPassword { payload, recaptcha_enabled }, password)
        },
        Err(errors) => RegisterStep::Done(Err(AppError::BadRequest(errors.to_string()))),
    }
}

impl RegisterPassword {
    /// The step that follows on an outcome.
    pub open spec fn leads_to(self, strength: Result<(), AppError>, step: RegisterStep) -> bool {
        match strength {
            Err(error) => step == RegisterStep::Done(Err(error)),
            Ok(()) => if self.recaptcha_enabled {
                match captcha_token(string_view(self.payload.recaptcha_token)) {
                    Some(token) => {
                        &&& step matches RegisterStep::VerifyCaptcha(next, asked)
                        &&& next.payload == self.payload
                        &&& asked@ == token
                    },
                    None => {
                        &&& step matches RegisterStep::Done(Err(error))
                        &&& error@ == Failure::BadRequest("reCAPTCHA token required"@)
                    },
                }
            } else {
                accepted(self.payload, step)
            },
        }
    }

    /// Goes on with the judgement on the password.
    pub fn resume(self, strength: Result<(), AppError>) -> (step: RegisterStep)
        ensures
            self.leads_to(strength, step),
    {
        if let Err(error) = strength {
            return RegisterStep::Done(Err(error));
        }
        if !self.recaptcha_enabled {
            return accept(self.payload);
        }
        let token = match &self.payload.recaptcha_token {
            Some(token) => {
                let token = trim(token.as_str());
                if token.is_empty() || same(token, "recaptcha-not-configured") {
                    None
                } else {
                    Some(token.to_owned())
                }
            },
            None => None,
        };
        match token {
            Some(token) => RegisterStep::VerifyCaptcha(
                RegisterCaptcha { payload: self.payload },
                token,
            ),
            None => RegisterStep::Done(
                Err(AppError::BadRequest("reCAPTCHA token required".to_owned())),
            ),
        }
    }
}

impl RegisterCaptcha {
    /// The step that follows on an outcome.
    pub open spec fn leads_to(
        self,
        verified: Result<(), anyhow::Error>,
        step: RegisterStep,
    ) -> bool {
        match verified {
            Ok(()) => accepted(self.payload, step),
            Err(error) => {
                &&& step matches RegisterStep::Done(Err(AppError::BadRequest(message)))
                &&& prints(error, message@)
            },
        }
    }

    /// Goes on with what the reCAPTCHA service said.
    pub fn resume(self, verified: Result<(), anyhow::Error>) -> (step: RegisterStep)
        ensures
            self.leads_to(verified, step),
    {
        match verified {
            Ok(()) => accept(self.payload),
            Err(error) => RegisterStep::Done(Err(AppError::BadRequest(error.to_string()))),
        }
    }
}

impl RegisterName {
    /// The step that follows on an outcome.
    pub open spec fn leads_to(self, full_name: Option<String>, step: RegisterStep) -> bool {
        step matches RegisterStep::CreateUser(next, user) && {
            &&& next.email == self.email
            &&& next.password == self.password
            &&& next.role == self.role
            &&& next.full_name == full_name
            &&& user.email@ == self.email@
            &&& user.password@ == self.password@
            &&& user.user_metadata@ == registered_user(string_view(full_name))
            &&& user.app_metadata@ == registered_app(self.role@)
        }
    }

    /// Goes on with the clean name.
    pub fn resume(self, full_name: Option<String>) -> (step: RegisterStep)
        ensures
            self.leads_to(full_name, step),
    {
        let user = NewUser {
            email: self.email.clone(),
            password: self.password.clone(),
            user_metadata: registration_user_metadata(borrowed(&full_name)),
            app_metadata: registration_app_metadata(self.role),
        };
        RegisterStep::CreateUser(
            RegisterCreate {
                email: self.email,
                password: self.password,
                role: self.role,
                full_name,
            },
            user,
        )
    }
}

impl RegisterCreate {
    /// The step that follows on an outcome.
    pub open spec fn leads_to(
        self,
        created: Result<AuthUserRecord, anyhow::Error>,
        step: RegisterStep,
    ) -> bool {
        match created {
            Ok(user) => {
                &&& step matches RegisterStep::UpdateUser(next, patch)
                &&& next.id == user.id
                &&& next.email == self.email
                &&& next.password == self.password
                &&& patch.id@ == user.id@
                &&& patch.body@ == both_metadata(
                    merged(user@.app_metadata, registered_app(self.role@)),
                    merged(user@.user_metadata, registered_user(string_view(self.full_name))),
                )
            },
            Err(error) => {
                &&& step matches RegisterStep::Done(Err(failure))
                &&& auth_failure_of(error, failure@)
            },
        }
    }

    /// Goes on with the user that was created.
    pub fn resume(self, created: Result<AuthUserRecord, anyhow::Error>) -> (step: RegisterStep)
        ensures
            self.leads_to(created, step),
    {
        match created {
            Ok(user) => {
                let patch = update_registration_metadata(
                    &user,
                    self.role,
                    borrowed(&self.full_name),
                );
                RegisterStep::UpdateUser(
                    RegisterUpdate { id: user.id, email: self.email, password: self.password },
                    patch,
                )
            },
            Err(error) => RegisterStep::Done(Err(map_supabase_auth_error(error))),
        }
    }
}

impl RegisterUpdate {
    /// The step that follows on an outcome.
    pub open spec fn leads_to(
        self,
        updated: Result<AuthUserRecord, anyhow::Error>,
        step: RegisterStep,
    ) -> bool {
        match updated {
            Ok(user) => {
                &&& step matches RegisterStep::LogIn(next, credentials)
                &&& next.user == user
                &&& credentials.email@ == self.email@
                &&& credentials.password@ == self.password@
            },
            Err(error) => {
                &&& step matches RegisterStep::DeleteUser(next, id)
                &&& id@ == self.id@
                &&& auth_failure_of(error, next.error@)
            },
        }
    }

    /// Goes on with the user that has its metadata; without it the user is deleted again.
    pub fn resume(self, updated: Result<AuthUserRecord, anyhow::Error>) -> (step: RegisterStep)
        ensures
            self.leads_to(updated, step),
    {
        match updated {
            Ok(user) => RegisterStep::LogIn(
                RegisterLogin { user },
                Credentials { email: self.email, password: self.password },
            ),
            Err(error) => RegisterStep::DeleteUser(
                RegisterRollback { error: map_supabase_auth_error(error) },
                self.id,
            ),
        }
    }
}

impl RegisterRollback {
    /// The step that follows on an outcome.
    pub open spec fn leads_to(
        self,
        deleted: Result<(), anyhow::Error>,
        step: RegisterStep,
    ) -> bool {
        step == RegisterStep::Done(Err(self.error))
    }

    /// Ends with the error that led here, whether or not the user could be deleted.
    pub fn resume(self, deleted: Result<(), anyhow::Error>) -> (step: RegisterStep)
        ensures
            self.leads_to(deleted, step),
    {
        let _ = deleted;
        RegisterStep::Done(Err(self.error))
    }
}

impl RegisterLogin {
    /// The step that follows on an outcome.
    pub open spec fn leads_to(
        self,
        session: Result<AuthSession, anyhow::Error>,
        step: RegisterStep,
    ) -> bool {
        match session {
            Ok(session) => {
                &&& step matches RegisterStep::Done(Ok(response))
                &&& response@ == (ResponseView {
                    status: 201,
                    headers: cookie_headers(session.cookies@),
                    body: auth_response(self.user@),
                })
            },
            Err(error) => {
                &&& step matches RegisterStep::Done(Err(failure))
                &&& auth_failure_of(error, failure@)
            },
        }
    }

    /// Ends with the session.
    pub fn resume(self, session: Result<AuthSession, anyhow::Error>) -> (step: RegisterStep)
        ensures
            self.leads_to(session, step),
    {
        match session {
            Ok(session) => RegisterStep::Done(
                Ok(
                    Response {
                        status: 201,
                        headers: session_headers(&session),
                        body: auth_response_json(&self.user),
                    },
                ),
            ),
            Err(error) => RegisterStep::Done(Err(map_supabase_auth_error(error))),
        }
    }
}

} // verus!
