//! What holds of a log in, and of the changes that a user makes of itself, from beginning to end.

use crate::account::{asked_name, user_metadata_only, EditView, PasswordStep, UpdateMeStep};
use crate::auth::{auth_failure_of, auth_response};
use crate::errors::{AppError, Failure};
use crate::headers::cookie_headers;
use crate::models::{AuthSession, AuthUser, AuthUserRecord, ResponseView};
use crate::sign_in::{complete, SignIn, SignInStep};
use crate::users::shown_user;
use crate::value::{str_view, string_view, Json, Value};
use vstd::prelude::*;

verus! {

/// A log in from where its session is being opened: how it is done, and what comes of everything
/// that is done outside.
pub struct LogInRun {
    pub sign_in: SignIn,
    pub session: Result<AuthSession, anyhow::Error>,
    pub updated: Result<AuthUserRecord, anyhow::Error>,
}

impl LogInRun {
    /// The user of the session has what every user has.
    pub open spec fn is_complete(self, session: AuthSession) -> bool {
        complete(
            session.user@.app_metadata,
            session.user@.user_metadata,
            str_view(self.sign_in.provider),
        )
    }

    /// The two last steps of the log in, of which there is just one where nothing is to be
    /// changed.
    pub open spec fn ends(self, step: SignInStep, last: SignInStep) -> bool {
        &&& self.sign_in.leads_to(self.session, step)
        &&& match step {
            SignInStep::UpdateUser(state, _) => state.leads_to(self.updated, last),
            _ => last == step,
        }
    }
}

/// A log in ends with success just when its session is opened and its user lacks nothing, or could
/// be given what it lacks; the answer has the cookies of the session, and shows the user as it is
/// then.
pub proof fn law_log_in(run: LogInRun, step: SignInStep, last: SignInStep)
    requires
        run.ends(step, last),
    ensures
        match run.session {
            Ok(session) => {
                let user = if run.is_complete(session) {
                    Ok(session.user)
                } else {
                    run.updated
                };
                match user {
                    Ok(user) => {
                        &&& last matches SignInStep::Done(Ok(response))
                        &&& response@ == (ResponseView {
                            status: 200,
                            headers: cookie_headers(session.cookies@),
                            body: auth_response(user@),
                        })
                    },
                    Err(error) => {
                        &&& last matches SignInStep::Done(Err(failure))
                        &&& auth_failure_of(error, failure@)
                    },
                }
            },
            Err(error) => {
                &&& last matches SignInStep::Done(Err(failure))
                &&& auth_failure_of(error, failure@)
            },
        },
{
}

/// A change of a password: what is asked for, by whom, and what comes of everything that is done
/// outside.
pub struct PasswordChange {
    pub user: AuthUser,
    pub payload: Value,
    pub strength: Result<(), AppError>,
    pub session: Result<(), anyhow::Error>,
    pub updated: Result<(), anyhow::Error>,
}

impl PasswordChange {
    /// One step comes next after another.
    pub open spec fn follows(self, step: PasswordStep, next: PasswordStep) -> bool {
        match step {
            PasswordStep::CheckPassword(state, _) => state.leads_to(self.strength, next),
            PasswordStep::LogIn(state, _) => state.leads_to(self.session, next),
            PasswordStep::UpdateUser(state, _) => state.leads_to(self.updated, next),
            PasswordStep::Done(_) => false,
        }
    }

    /// These are the steps, up to one of them.
    pub open spec fn takes(self, steps: Seq<PasswordStep>) -> bool {
        &&& steps.len() > 0
        &&& crate::account::begins(self.user, self.payload@, steps[0])
        &&& forall|i: int|
            #![trigger steps[i]]
            0 < i < steps.len() ==> self.follows(steps[i - 1], steps[i])
    }

    /// What has been done, and what has come of it, by the time a step is taken.
    pub open spec fn accounts_for(self, step: PasswordStep) -> bool {
        let current = self.payload@.text_at("current_password"@);
        let wanted = self.payload@.text_at("new_password"@);
        match step {
            PasswordStep::CheckPassword(state, password) => {
                &&& state.id@ == self.user.id@ && state.email@ == self.user.email@
                &&& current == Some(state.current@)
                &&& wanted == Some(state.wanted@)
                &&& wanted == Some(password@)
            },
            PasswordStep::LogIn(state, credentials) => {
                &&& self.strength is Ok
                &&& state.id@ == self.user.id@
                &&& credentials.email@ == self.user.email@
                &&& current == Some(credentials.password@)
                &&& wanted == Some(state.wanted@)
            },
            PasswordStep::UpdateUser(_, patch) => {
                &&& self.strength is Ok
                &&& self.session is Ok
                &&& current is Some
                &&& wanted matches Some(wanted)
                &&& patch.id@ == self.user.id@
                &&& patch.body@ == Json::Object(map!["password"@ => Json::String(wanted)])
            },
            PasswordStep::Done(Ok(body)) => {
                &&& current is Some && wanted is Some
                &&& self.strength is Ok && self.session is Ok && self.updated is Ok
                &&& body@ == Json::Object(
                    map!["message"@ => Json::String("Password changed successfully"@)],
                )
            },
            PasswordStep::Done(Err(error)) => self.fails_with(error),
        }
    }

    /// The change is refused, and this is why: the first check that fails names the failure.
    pub open spec fn fails_with(self, error: AppError) -> bool {
        if self.payload@.text_at("current_password"@) is None {
            error@ == Failure::BadRequest("current_password required"@)
        } else if self.payload@.text_at("new_password"@) is None {
            error@ == Failure::BadRequest("new_password required"@)
        } else if self.strength is Err {
            error == self.strength->Err_0
        } else if self.session is Err {
            error@ == Failure::Unauthorized("Invalid current password"@)
        } else {
            self.updated matches Err(cause) && error == AppError::Other(cause)
        }
    }
}

/// Every step of changing a password is taken only when all that has to come before it has: a
/// password is written only when it is strong, the user is the one who asks, and the password so
/// far opened a session. A failure is the one of the first check that fails.
pub proof fn law_password_change(change: PasswordChange, steps: Seq<PasswordStep>, at: int)
    requires
        change.takes(steps),
        0 <= at < steps.len(),
    ensures
        change.accounts_for(steps[at]),
    decreases at,
{
    if at > 0 {
        law_password_change(change, steps, at - 1);
        assert(change.follows(steps[at - 1], steps[at]));
    }
}

/// How many steps come before a step at most.
pub open spec fn place_in_password_change(step: PasswordStep) -> int {
    match step {
        PasswordStep::CheckPassword(_, _) => 0,
        PasswordStep::LogIn(_, _) => 1,
        PasswordStep::UpdateUser(_, _) => 2,
        PasswordStep::Done(_) => 3,
    }
}

/// A change of a password comes to its end after three steps at most.
pub proof fn law_password_change_ends(change: PasswordChange, steps: Seq<PasswordStep>, at: int)
    requires
        change.takes(steps),
        0 <= at < steps.len(),
    ensures
        at <= place_in_password_change(steps[at]) <= 3,
    decreases at,
{
    if at > 0 {
        law_password_change_ends(change, steps, at - 1);
        assert(change.follows(steps[at - 1], steps[at]));
    }
}

/// A change of a profile from where its user is looked up: what is asked for, by whom, and what
/// comes of everything that is done outside.
pub struct ProfileChange {
    pub id: String,
    pub payload: Value,
    pub current: Result<AuthUserRecord, anyhow::Error>,
    pub name: String,
    pub picture: Result<Option<String>, AppError>,
    pub about: Option<String>,
    pub updated: Result<AuthUserRecord, anyhow::Error>,
}

impl ProfileChange {
    /// One step comes next after another.
    pub open spec fn follows(self, step: UpdateMeStep, next: UpdateMeStep) -> bool {
        match step {
            UpdateMeStep::GetUser(state, _) => state.leads_to(self.current, next),
            UpdateMeStep::SanitizeName(state, _) => state.leads_to(self.name, next),
            UpdateMeStep::NormalizeUrl(state, _) => state.leads_to(self.picture, next),
            UpdateMeStep::SanitizeAbout(state, _) => state.leads_to(self.about, next),
            UpdateMeStep::UpdateUser(state, _) => state.leads_to(self.updated, next),
            UpdateMeStep::Done(_) => false,
        }
    }

    /// These are the steps, up to one of them.
    pub open spec fn takes(self, steps: Seq<UpdateMeStep>) -> bool {
        &&& steps.len() > 0
        &&& steps[0] matches UpdateMeStep::GetUser(first, _)
        &&& first.id@ == self.id@
        &&& first.payload@ == self.payload@
        &&& forall|i: int|
            #![trigger steps[i]]
            0 < i < steps.len() ==> self.follows(steps[i - 1], steps[i])
    }

    /// The edit as it begins.
    pub open spec fn unchanged(self) -> EditView {
        EditView {
            id: self.id@,
            payload: self.payload@,
            metadata: self.current->Ok_0@.user_metadata,
        }
    }

    /// The edit once the name is done.
    pub open spec fn named(self) -> EditView {
        if asked_name(self.payload@) is Some {
            self.unchanged().with_text("full_name"@, self.name@).with_text("name"@, self.name@)
        } else {
            self.unchanged()
        }
    }

    /// The edit once the picture is done.
    pub open spec fn pictured(self) -> EditView {
        match self.picture {
            Ok(Some(url)) => if self.payload@.text_at("profile_picture"@) is Some {
                self.named().with_text("profile_picture"@, url@)
            } else {
                self.named()
            },
            _ => self.named(),
        }
    }

    /// The edit once the text about oneself is done.
    pub open spec fn edited(self) -> EditView {
        match self.about {
            Some(about) => if self.payload@.text_at("about_me"@) is Some {
                self.pictured().with_text("about_me"@, about@)
            } else {
                self.pictured()
            },
            None => self.pictured(),
        }
    }

    /// The picture that is asked for, if any, has an address that can be kept.
    pub open spec fn has_sound_picture(self) -> bool {
        self.payload@.text_at("profile_picture"@) is Some ==> self.picture is Ok
    }

    /// What has been done, and what has come of it, by the time a step is taken.
    pub open spec fn accounts_for(self, step: UpdateMeStep) -> bool {
        match step {
            UpdateMeStep::GetUser(state, _) => {
                state.id@ == self.id@ && state.payload@ == self.payload@
            },
            UpdateMeStep::SanitizeName(state, request) => {
                &&& self.current is Ok
                &&& asked_name(self.payload@) is Some
                &&& string_view(request.text) == asked_name(self.payload@)
                &&& state.edit@ == self.unchanged()
            },
            UpdateMeStep::NormalizeUrl(state, request) => {
                &&& self.current is Ok
                &&& self.payload@.text_at("profile_picture"@) == Some(request.url@)
                &&& state.edit@ == self.named()
            },
            UpdateMeStep::SanitizeAbout(state, request) => {
                &&& self.current is Ok
                &&& self.has_sound_picture()
                &&& self.payload@.text_at("about_me"@) is Some
                &&& string_view(request.text) == self.payload@.text_at("about_me"@)
                &&& state.edit@ == self.pictured()
            },
            UpdateMeStep::UpdateUser(_, patch) => {
                &&& self.current is Ok
                &&& self.has_sound_picture()
                &&& patch.id@ == self.id@
                &&& patch.body@ == user_metadata_only(self.edited().metadata)
            },
            UpdateMeStep::Done(Ok(body)) => {
                &&& self.current is Ok
                &&& self.has_sound_picture()
                &&& self.updated matches Ok(user)
                &&& body@ == shown_user(user@, true)
            },
            UpdateMeStep::Done(Err(error)) => self.fails_with(error),
        }
    }

    /// The change fails, and this is why: what fails first names the failure.
    pub open spec fn fails_with(self, error: AppError) -> bool {
        if self.current is Err {
            error == AppError::Other(self.current->Err_0)
        } else if !self.has_sound_picture() {
            error == self.picture->Err_0
        } else {
            self.updated matches Err(cause) && error == AppError::Other(cause)
        }
    }
}

/// Every step of changing a profile goes on from what came before it, and what is written in the
/// end is the metadata of the user with just those members changed that were asked for.
pub proof fn law_profile_change(change: ProfileChange, steps: Seq<UpdateMeStep>, at: int)
    requires
        change.takes(steps),
        0 <= at < steps.len(),
    ensures
        change.accounts_for(steps[at]),
    decreases at,
{
    if at > 0 {
        law_profile_change(change, steps, at - 1);
        assert(change.follows(steps[at - 1], steps[at]));
    }
}

/// How many steps come before a step at most.
pub open spec fn place_in_profile_change(step: UpdateMeStep) -> int {
    match step {
        UpdateMeStep::GetUser(_, _) => 0,
        UpdateMeStep::SanitizeName(_, _) => 1,
        UpdateMeStep::NormalizeUrl(_, _) => 2,
        UpdateMeStep::SanitizeAbout(_, _) => 3,
        UpdateMeStep::UpdateUser(_, _) => 4,
        UpdateMeStep::Done(_) => 5,
    }
}

/// A change of a profile comes to its end after five steps at most.
pub proof fn law_profile_change_ends(change: ProfileChange, steps: Seq<UpdateMeStep>, at: int)
    requires
        change.takes(steps),
        0 <= at < steps.len(),
    ensures
        at <= place_in_profile_change(steps[at]) <= 5,
    decreases at,
{
    if at > 0 {
        law_profile_change_ends(change, steps, at - 1);
        assert(change.follows(steps[at - 1], steps[at]));
    }
}

/// A change of a profile touches no member of the user metadata but the name, the picture and the
/// text about oneself.
pub proof fn law_profile_change_keeps_the_rest(change: ProfileChange, key: Seq<char>)
    requires
        key != "full_name"@,
        key != "name"@,
        key != "profile_picture"@,
        key != "about_me"@,
    ensures
        change.edited().metadata.get(key) == change.unchanged().metadata.get(key),
{
}

} // verus!
