//! What holds of a registration from beginning to end.

use crate::auth::{
    auth_failure_of, auth_response, both_metadata, registered_app, registered_user, role_for,
};
use crate::errors::{lists, prints, AppError, Failure};
use crate::headers::cookie_headers;
use crate::metadata::merged;
use crate::models::{AuthSession, AuthUserRecord, ResponseView, UserCreate};
use crate::register::{begins, captcha_token, email_key, RegisterStep, FULL_NAME_LIMIT};
use crate::value::string_view;
use validator::ValidationErrors;
use vstd::prelude::*;

verus! {

/// What comes of everything that a registration has done outside.
pub struct RegisterOutcomes {
    pub fields: Result<(), ValidationErrors>,
    pub strength: Result<(), AppError>,
    pub verified: Result<(), anyhow::Error>,
    pub full_name: Option<String>,
    pub created: Result<AuthUserRecord, anyhow::Error>,
    pub updated: Result<AuthUserRecord, anyhow::Error>,
    pub deleted: Result<(), anyhow::Error>,
    pub session: Result<AuthSession, anyhow::Error>,
}

/// A registration: what is asked for, and what comes of everything that is done outside.
pub struct Registration {
    pub payload: UserCreate,
    pub recaptcha_enabled: bool,
    pub outcomes: RegisterOutcomes,
}

impl Registration {
    /// One step of the registration comes next after another.
    pub open spec fn follows(self, step: RegisterStep, next: RegisterStep) -> bool {
        match step {
            RegisterStep::CheckPassword(state, _) => state.leads_to(self.outcomes.strength, next),
            RegisterStep::VerifyCaptcha(state, _) => state.leads_to(self.outcomes.verified, next),
            RegisterStep::SanitizeName(state, _) => state.leads_to(self.outcomes.full_name, next),
            RegisterStep::CreateUser(state, _) => state.leads_to(self.outcomes.created, next),
            RegisterStep::UpdateUser(state, _) => state.leads_to(self.outcomes.updated, next),
            RegisterStep::DeleteUser(state, _) => state.leads_to(self.outcomes.deleted, next),
            RegisterStep::LogIn(state, _) => state.leads_to(self.outcomes.session, next),
            RegisterStep::Done(_) => false,
        }
    }

    /// These are the steps of the registration, up to one of them.
    pub open spec fn takes(self, steps: Seq<RegisterStep>) -> bool {
        &&& steps.len() > 0
        &&& begins(self.payload, self.outcomes.fields, self.recaptcha_enabled, steps[0])
        &&& forall|i: int|
            #![trigger steps[i]]
            0 < i < steps.len() ==> self.follows(steps[i - 1], steps[i])
    }

    /// Nothing speaks against the request: its fields and its password are in order, the token
    /// is verified where one is needed, and it asks for no other role than a customer's.
    pub open spec fn is_in_order(self) -> bool {
        &&& self.outcomes.fields is Ok
        &&& self.outcomes.strength is Ok
        &&& self.recaptcha_enabled ==> {
            &&& captcha_token(string_view(self.payload.recaptcha_token)) is Some
            &&& self.outcomes.verified is Ok
        }
        &&& role_for(self.payload.role) == Ok::<Seq<char>, Failure>("customer"@)
    }

    /// What has been done, and what has come of it, by the time a step is taken.
    pub open spec fn accounts_for(self, step: RegisterStep) -> bool {
        let email = email_key(self.payload.email@);
        let password = self.payload.password@;
        let full_name = string_view(self.outcomes.full_name);
        match step {
            RegisterStep::CheckPassword(state, asked) => {
                &&& self.outcomes.fields is Ok
                &&& state.payload == self.payload
                &&& state.recaptcha_enabled == self.recaptcha_enabled
                &&& asked@ == password
            },
            RegisterStep::VerifyCaptcha(state, token) => {
                &&& self.outcomes.fields is Ok
                &&& self.outcomes.strength is Ok
                &&& self.recaptcha_enabled
                &&& state.payload == self.payload
                &&& captcha_token(string_view(self.payload.recaptcha_token)) == Some(token@)
            },
            RegisterStep::SanitizeName(state, name) => {
                &&& self.is_in_order()
                &&& state.email@ == email && state.password@ == password
                &&& state.role@ == "customer"@
                &&& string_view(name.text) == string_view(self.payload.full_name)
                &&& name.limit == FULL_NAME_LIMIT
            },
            RegisterStep::CreateUser(state, user) => {
                &&& self.is_in_order()
                &&& state.email@ == email && state.password@ == password
                &&& state.role@ == "customer"@
                &&& state.full_name == self.outcomes.full_name
                &&& user.email@ == email && user.password@ == password
                &&& user.app_metadata@ == registered_app("customer"@)
                &&& user.user_metadata@ == registered_user(full_name)
            },
            RegisterStep::UpdateUser(state, patch) => {
                &&& self.is_in_order()
                &&& state.email@ == email && state.password@ == password
                &&& self.outcomes.created matches Ok(user)
                &&& state.id@ == user.id@
                &&& patch.id@ == user.id@
                &&& patch.body@ == both_metadata(
                    merged(user@.app_metadata, registered_app("customer"@)),
                    merged(user@.user_metadata, registered_user(full_name)),
                )
            },
            RegisterStep::DeleteUser(state, id) => {
                &&& self.is_in_order()
                &&& self.outcomes.created matches Ok(user)
                &&& id@ == user.id@
                &&& self.outcomes.updated matches Err(error)
                &&& auth_failure_of(error, state.error@)
            },
            RegisterStep::LogIn(state, credentials) => {
                &&& self.is_in_order()
                &&& self.outcomes.created is Ok
                &&& self.outcomes.updated == Ok::<AuthUserRecord, anyhow::Error>(state.user)
                &&& credentials.email@ == email && credentials.password@ == password
            },
            RegisterStep::Done(Ok(response)) => {
                &&& self.is_in_order()
                &&& self.outcomes.created is Ok
                &&& self.outcomes.updated matches Ok(user)
                &&& self.outcomes.session matches Ok(session)
                &&& response@ == (ResponseView {
                    status: 201,
                    headers: cookie_headers(session.cookies@),
                    body: auth_response(user@),
                })
            },
            RegisterStep::Done(Err(error)) => self.fails_with(error@),
        }
    }

    /// The registration fails, and this is why: the first check that fails names the failure.
    pub open spec fn fails_with(self, failure: Failure) -> bool {
        let token = captcha_token(string_view(self.payload.recaptcha_token));
        if self.outcomes.fields is Err {
            &&& failure matches Failure::BadRequest(message)
            &&& lists(self.outcomes.fields->Err_0, message)
        } else if self.outcomes.strength is Err {
            failure == self.outcomes.strength->Err_0@
        } else if self.recaptcha_enabled && token is None {
            failure == Failure::BadRequest("reCAPTCHA token required"@)
        } else if self.recaptcha_enabled && self.outcomes.verified is Err {
            &&& failure matches Failure::BadRequest(message)
            &&& prints(self.outcomes.verified->Err_0, message)
        } else if role_for(self.payload.role) is Err {
            failure == role_for(self.payload.role)->Err_0
        } else if self.outcomes.created is Err {
            auth_failure_of(self.outcomes.created->Err_0, failure)
        } else if self.outcomes.updated is Err {
            auth_failure_of(self.outcomes.updated->Err_0, failure)
        } else {
            &&& self.outcomes.session is Err
            &&& auth_failure_of(self.outcomes.session->Err_0, failure)
        }
    }
}

/// Every step of a registration is taken only when all that has to come before it has, and in
/// its order.
///
/// So no user is created before the request is found in order; the user is created as a customer
/// on the free tier; no session is opened before the metadata of the user is in place; a user
/// that could not be given its metadata is the one that is deleted; the answer shows the user
/// with its metadata; and a failure is the one of the first check that fails.
pub proof fn law_registration(registration: Registration, steps: Seq<RegisterStep>, at: int)
    requires
        registration.takes(steps),
        0 <= at < steps.len(),
    ensures
        registration.accounts_for(steps[at]),
    decreases at,
{
    if at > 0 {
        law_registration(registration, steps, at - 1);
        assert(registration.follows(steps[at - 1], steps[at]));
    }
}

/// How many steps come before a step at most.
pub open spec fn place_in_registration(step: RegisterStep) -> int {
    match step {
        RegisterStep::CheckPassword(_, _) => 0,
        RegisterStep::VerifyCaptcha(_, _) => 1,
        RegisterStep::SanitizeName(_, _) => 2,
        RegisterStep::CreateUser(_, _) => 3,
        RegisterStep::UpdateUser(_, _) => 4,
        RegisterStep::DeleteUser(_, _) => 5,
        RegisterStep::LogIn(_, _) => 5,
        RegisterStep::Done(_) => 6,
    }
}

/// A registration comes to its end after six steps at most.
pub proof fn law_registration_ends(registration: Registration, steps: Seq<RegisterStep>, at: int)
    requires
        registration.takes(steps),
        0 <= at < steps.len(),
    ensures
        at <= place_in_registration(steps[at]) <= 6,
    decreases at,
{
    if at > 0 {
        law_registration_ends(registration, steps, at - 1);
        assert(registration.follows(steps[at - 1], steps[at]));
    }
}

/// A registration that is in order, and for which nothing fails outside, does not fail, and no user
/// is deleted.
pub proof fn law_registration_succeeds(
    registration: Registration,
    steps: Seq<RegisterStep>,
    at: int,
)
    requires
        registration.takes(steps),
        registration.is_in_order(),
        registration.outcomes.created is Ok,
        registration.outcomes.updated is Ok,
        registration.outcomes.session is Ok,
        0 <= at < steps.len(),
    ensures
        !(steps[at] matches RegisterStep::Done(Err(_))),
        !(steps[at] is DeleteUser),
{
    law_registration(registration, steps, at);
}

/// When the metadata of a created user cannot be written, the next step deletes that user, and
/// the one after it ends with what the error means, whatever comes of the deletion.
pub proof fn law_rollback(registration: Registration, steps: Seq<RegisterStep>, at: int)
    requires
        registration.takes(steps),
        0 <= at < steps.len() - 2,
        steps[at] is UpdateUser,
        registration.outcomes.updated is Err,
    ensures
        registration.outcomes.created matches Ok(user) && {
            &&& steps[at + 1] matches RegisterStep::DeleteUser(_, id)
            &&& id@ == user.id@
            &&& steps[at + 2] matches RegisterStep::Done(Err(error))
            &&& auth_failure_of(registration.outcomes.updated->Err_0, error@)
        },
{
    law_registration(registration, steps, at);
    assert(registration.follows(steps[at], steps[at + 1]));
    assert(registration.follows(steps[at + 1], steps[at + 2]));
}

} // verus!
