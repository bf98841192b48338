//! What a user changes of itself, as sequences of steps.

use crate::errors::{AppError, Failure};
use crate::metadata::{metadata_str, set_metadata, with_member};
use crate::models::{AuthUser, AuthUserRecord, Credentials, TextRequest, UrlRequest, UserPatch};
use crate::text::owned;
use crate::users::{show_user, user_shown};
use crate::value::{string_view, Json, Object, Value};
use vstd::prelude::*;

verus! {

/// The longest name that is kept.
pub const NAME_LIMIT: usize = 120;

/// The longest address of a picture that is kept.
pub const PICTURE_LIMIT: usize = 500;

/// The longest text about oneself that is kept.
pub const ABOUT_LIMIT: usize = 500;

/// What is to be done next when a user changes its profile.
#[derive(Debug)]
pub enum UpdateMeStep {
    /// Look up the user with this id.
    GetUser(UpdateMe, String),
    /// Clean the name.
    SanitizeName(UpdateMeName, TextRequest),
    /// Bring the address of the picture into its normal form.
    NormalizeUrl(UpdateMePicture, UrlRequest),
    /// Clean the text about oneself.
    SanitizeAbout(UpdateMeAbout, TextRequest),
    /// Change the user.
    UpdateUser(UpdateMeSave, UserPatch),
    /// Answer.
    Done(Result<Value, AppError>),
}

/// A change of a profile whose user is being looked up.
#[derive(Debug)]
pub struct UpdateMe {
    pub id: String,
    pub payload: Value,
}

/// A change of a profile under way: whose it is, what was asked for, and the user metadata as
/// far as it is done.
#[derive(Debug)]
pub struct ProfileEdit {
    pub id: String,
    pub payload: Value,
    pub metadata: Value,
}

/// A change of a profile whose name is being cleaned.
#[derive(Debug)]
pub struct UpdateMeName {
    pub edit: ProfileEdit,
}

/// A change of a profile whose picture's address is being brought into its normal form.
#[derive(Debug)]
pub struct UpdateMePicture {
    pub edit: ProfileEdit,
}

/// A change of a profile whose text about oneself is being cleaned.
#[derive(Debug)]
pub struct UpdateMeAbout {
    pub edit: ProfileEdit,
}

/// A change of a profile that is being written.
#[derive(Debug)]
pub struct UpdateMeSave;

/// What a [`ProfileEdit`] holds.
pub struct EditView {
    pub id: Seq<char>,
    pub payload: Json,
    pub metadata: Json,
}

impl View for ProfileEdit {
    type V = EditView;

    open spec fn view(&self) -> EditView {
        EditView { id: self.id@, payload: self.payload@, metadata: self.metadata@ }
    }
}

impl EditView {
    /// The edit with a text put into the user metadata.
    pub open spec fn with_text(self, key: Seq<char>, text: Seq<char>) -> EditView {
        EditView { metadata: with_member(self.metadata, key, Json::String(text)), ..self }
    }
}

/// The name that is asked for: `name` if that is text, else `full_name`.
pub open spec fn asked_name(payload: Json) -> Option<Seq<char>> {
    match payload.text_at("name"@) {
        Some(name) => Some(name),
        None => payload.text_at("full_name"@),
    }
}

/// The step that begins with the name.
pub open spec fn name_next(edit: EditView, step: UpdateMeStep) -> bool {
    match asked_name(edit.payload) {
        Some(name) => {
            &&& step matches UpdateMeStep::SanitizeName(next, request)
            &&& next.edit@ == edit
            &&& string_view(request.text) == Some(name)
            &&& request.limit == NAME_LIMIT
        },
        None => picture_next(edit, step),
    }
}

/// The step that goes on with the picture.
pub open spec fn picture_next(edit: EditView, step: UpdateMeStep) -> bool {
    match edit.payload.text_at("profile_picture"@) {
        Some(url) => {
            &&& step matches UpdateMeStep::NormalizeUrl(next, request)
            &&& next.edit@ == edit
            &&& request.url@ == url
            &&& request.limit == PICTURE_LIMIT
            &&& !request.switch
        },
        None => about_next(edit, step),
    }
}

/// The step that goes on with the text about oneself.
pub open spec fn about_next(edit: EditView, step: UpdateMeStep) -> bool {
    match edit.payload.text_at("about_me"@) {
        Some(about) => {
            &&& step matches UpdateMeStep::SanitizeAbout(next, request)
            &&& next.edit@ == edit
            &&& string_view(request.text) == Some(about)
            &&& request.limit == ABOUT_LIMIT
        },
        None => save_next(edit, step),
    }
}

/// The step that writes the user metadata.
pub open spec fn save_next(edit: EditView, step: UpdateMeStep) -> bool {
    &&& step matches UpdateMeStep::UpdateUser(next, patch)
    &&& patch.id@ == edit.id
    &&& patch.body@ == user_metadata_only(edit.metadata)
}

/// The members that write the user metadata of a user.
pub open spec fn user_metadata_only(metadata: Json) -> Json {
    Json::Object(map!["user_metadata"@ => metadata])
}

fn user_metadata_patch(id: String, metadata: Value) -> (patch: UserPatch)
    ensures
        patch.id == id,
        patch.body@ == user_metadata_only(metadata@),
{
    UserPatch { id, body: Value::Object(Object::new().insert("user_metadata", metadata)) }
}

/// Begins a change of the profile of a user.
pub fn update_me(auth_user: &AuthUser, payload: Value) -> (step: UpdateMeStep)
    ensures
        step matches UpdateMeStep::GetUser(next, id) && {
            &&& next.id@ == auth_user.id@
            &&& next.payload == payload
            &&& id@ == auth_user.id@
        },
{
    UpdateMeStep::GetUser(
        UpdateMe { id: auth_user.id.clone(), payload },
        auth_user.id.clone(),
    )
}

impl UpdateMe {
    /// The step that follows on an outcome.
    pub open spec fn leads_to(
        self,
        current: Result<AuthUserRecord, anyhow::Error>,
        step: UpdateMeStep,
    ) -> bool {
        match current {
            Ok(user) => name_next(
                EditView {
                    id: self.id@,
                    payload: self.payload@,
                    metadata: user@.user_metadata,
                },
                step,
            ),
            Err(error) => step == UpdateMeStep::Done(Err(AppError::Other(error))),
        }
    }

    /// Goes on with the user as it is.
    pub fn resume(self, current: Result<AuthUserRecord, anyhow::Error>) -> (step: UpdateMeStep)
        ensures
            self.leads_to(current, step),
    {
        match current {
            Ok(user) => ProfileEdit {
                id: self.id,
                payload: self.payload,
                metadata: user.user_metadata,
            }.name_step(),
            Err(error) => UpdateMeStep::Done(Err(AppError::Other(error))),
        }
    }
}

impl ProfileEdit {
    fn name_step(self) -> (step: UpdateMeStep)
        ensures
            name_next(self@, step),
    {
        let name = match metadata_str(&self.payload, "name") {
            Some(name) => Some(name),
            None => metadata_str(&self.payload, "full_name"),
        };
        match owned(name) {
            Some(name) => UpdateMeStep::SanitizeName(
                UpdateMeName { edit: self },
                TextRequest { text: Some(name), limit: NAME_LIMIT },
            ),
            None => self.picture_step(),
        }
    }

    fn picture_step(self) -> (step: UpdateMeStep)
        ensures
            picture_next(self@, step),
    {
        match owned(metadata_str(&self.payload, "profile_picture")) {
            Some(url) => UpdateMeStep::NormalizeUrl(
                UpdateMePicture { edit: self },
                UrlRequest { url, limit: PICTURE_LIMIT, switch: false },
            ),
            None => self.about_step(),
        }
    }

    fn about_step(self) -> (step: UpdateMeStep)
        ensures
            about_next(self@, step),
    {
        match owned(metadata_str(&self.payload, "about_me")) {
            Some(about) => UpdateMeStep::SanitizeAbout(
                UpdateMeAbout { edit: self },
                TextRequest { text: Some(about), limit: ABOUT_LIMIT },
            ),
            None => self.save_step(),
        }
    }

    fn save_step(self) -> (step: UpdateMeStep)
        ensures
            save_next(self@, step),
    {
        UpdateMeStep::UpdateUser(UpdateMeSave, user_metadata_patch(self.id, self.metadata))
    }

    fn put(self, key: &str, text: String) -> (edit: ProfileEdit)
        ensures
            edit@ == self@.with_text(key@, text@),
    {
        let mut metadata = self.metadata;
        set_metadata(&mut metadata, key, Value::String(text));
        ProfileEdit { id: self.id, payload: self.payload, metadata }
    }
}

impl UpdateMeName {
    /// The step that follows on an outcome.
    pub open spec fn leads_to(self, cleaned: String, step: UpdateMeStep) -> bool {
        picture_next(
            self.edit@.with_text("full_name"@, cleaned@).with_text("name"@, cleaned@),
            step,
        )
    }

    /// Goes on with the clean name.
    pub fn resume(self, cleaned: String) -> (step: UpdateMeStep)
        ensures
            self.leads_to(cleaned, step),
    {
        self.edit.put("full_name", cleaned.clone()).put("name", cleaned).picture_step()
    }
}

impl UpdateMePicture {
    /// The step that follows on an outcome.
    pub open spec fn leads_to(
        self,
        url: Result<Option<String>, AppError>,
        step: UpdateMeStep,
    ) -> bool {
        match url {
            Ok(Some(url)) => about_next(
                self.edit@.with_text("profile_picture"@, url@),
                step,
            ),
            Ok(None) => about_next(self.edit@, step),
            Err(error) => step == UpdateMeStep::Done(Err(error)),
        }
    }

    /// Goes on with the address in its normal form.
    pub fn resume(self, url: Result<Option<String>, AppError>) -> (step: UpdateMeStep)
        ensures
            self.leads_to(url, step),
    {
        match url {
            Ok(Some(url)) => self.edit.put("profile_picture", url).about_step(),
            Ok(None) => self.edit.about_step(),
            Err(error) => UpdateMeStep::Done(Err(error)),
        }
    }
}

impl UpdateMeAbout {
    /// The step that follows on an outcome.
    pub open spec fn leads_to(self, cleaned: Option<String>, step: UpdateMeStep) -> bool {
        match cleaned {
            Some(cleaned) => save_next(self.edit@.with_text("about_me"@, cleaned@), step),
            None => save_next(self.edit@, step),
        }
    }

    /// Goes on with the clean text.
    pub fn resume(self, cleaned: Option<String>) -> (step: UpdateMeStep)
        ensures
            self.leads_to(cleaned, step),
    {
        match cleaned {
            Some(cleaned) => self.edit.put("about_me", cleaned).save_step(),
            None => self.edit.save_step(),
        }
    }
}

impl UpdateMeSave {
    /// The step that follows on an outcome.
    pub open spec fn leads_to(
        self,
        updated: Result<AuthUserRecord, anyhow::Error>,
        step: UpdateMeStep,
    ) -> bool {
        step matches UpdateMeStep::Done(body) && user_shown(updated, true, body)
    }

    /// Ends with the changed user.
    pub fn resume(self, updated: Result<AuthUserRecord, anyhow::Error>) -> (step: UpdateMeStep)
        ensures
            self.leads_to(updated, step),
    {
        UpdateMeStep::Done(show_user(updated, true))
    }
}

/// What is to be done next when a user changes its preferences.
#[derive(Debug)]
pub enum PreferencesStep {
    /// Look up the user with this id.
    GetUser(PreferencesLookup, String),
    /// Change the user.
    UpdateUser(PreferencesSave, UserPatch),
    /// Answer.
    Done(Result<Value, AppError>),
}

/// A change of preferences whose user is being looked up.
#[derive(Debug)]
pub struct PreferencesLookup {
    pub id: String,
    pub preferences: Value,
}

/// A change of preferences that is being written.
#[derive(Debug)]
pub struct PreferencesSave;

/// Begins a change of the preferences of a user, with the clean preferences.
pub fn update_preferences(auth_user: &AuthUser, preferences: Value) -> (step: PreferencesStep)
    ensures
        step matches PreferencesStep::GetUser(next, id) && {
            &&& next.id@ == auth_user.id@
            &&& next.preferences == preferences
            &&& id@ == auth_user.id@
        },
{
    PreferencesStep::GetUser(
        PreferencesLookup { id: auth_user.id.clone(), preferences },
        auth_user.id.clone(),
    )
}

impl PreferencesLookup {
    /// The step that follows on an outcome.
    pub open spec fn leads_to(
        self,
        current: Result<AuthUserRecord, anyhow::Error>,
        step: PreferencesStep,
    ) -> bool {
        match current {
            Ok(user) => {
                &&& step matches PreferencesStep::UpdateUser(next, patch)
                &&& patch.id == self.id
                &&& patch.body@ == user_metadata_only(
                    with_member(user@.user_metadata, "preferences"@, self.preferences@),
                )
            },
            Err(error) => step == PreferencesStep::Done(Err(AppError::Other(error))),
        }
    }

    /// Goes on with the user as it is.
    pub fn resume(self, current: Result<AuthUserRecord, anyhow::Error>) -> (step: PreferencesStep)
        ensures
            self.leads_to(current, step),
    {
        match current {
            Ok(user) => {
                let mut metadata = user.user_metadata;
                set_metadata(&mut metadata, "preferences", self.preferences);
                PreferencesStep::UpdateUser(
                    PreferencesSave,
                    user_metadata_patch(self.id, metadata),
                )
            },
            Err(error) => PreferencesStep::Done(Err(AppError::Other(error))),
        }
    }
}

impl PreferencesSave {
    /// The step that follows on an outcome.
    pub open spec fn leads_to(
        self,
        updated: Result<AuthUserRecord, anyhow::Error>,
        step: PreferencesStep,
    ) -> bool {
        step matches PreferencesStep::Done(body) && user_shown(updated, true, body)
    }

    /// Ends with the changed user.
    pub fn resume(self, updated: Result<AuthUserRecord, anyhow::Error>) -> (step: PreferencesStep)
        ensures
            self.leads_to(updated, step),
    {
        PreferencesStep::Done(show_user(updated, true))
    }
}

/// What is to be done next when a user changes its password.
#[derive(Debug)]
pub enum PasswordStep {
    /// Judge how strong the password is.
    CheckPassword(PasswordStrength, String),
    /// Open a session, to see that the password is the user's.
    LogIn(PasswordLogin, Credentials),
    /// Change the user.
    UpdateUser(PasswordSave, UserPatch),
    /// Answer.
    Done(Result<Value, AppError>),
}

/// A change of a password: whose it is, the password so far and the one to come.
#[derive(Debug)]
pub struct PasswordStrength {
    pub id: String,
    pub email: String,
    pub current: String,
    pub wanted: String,
}

/// A change of a password of which the one so far is being tried.
#[derive(Debug)]
pub struct PasswordLogin {
    pub id: String,
    pub wanted: String,
}

/// A change of a password that is being written.
#[derive(Debug)]
pub struct PasswordSave;

/// The step that a change of a password begins with.
pub open spec fn begins(user: AuthUser, payload: Json, step: PasswordStep) -> bool {
    match payload.text_at("current_password"@) {
        None => {
            &&& step matches PasswordStep::Done(Err(error))
            &&& error@ == Failure::BadRequest("current_password required"@)
        },
        Some(current) => match payload.text_at("new_password"@) {
            None => {
                &&& step matches PasswordStep::Done(Err(error))
                &&& error@ == Failure::BadRequest("new_password required"@)
            },
            Some(wanted) => {
                &&& step matches PasswordStep::CheckPassword(next, password)
                &&& next.id@ == user.id@
                &&& next.email@ == user.email@
                &&& next.current@ == current
                &&& next.wanted@ == wanted
                &&& password@ == wanted
            },
        },
    }
}

/// Begins a change of the password of a user.
pub fn change_password(auth_user: &AuthUser, payload: &Value) -> (step: PasswordStep)
    ensures
        begins(*auth_user, payload@, step),
{
    match metadata_str(payload, "current_password") {
        None => PasswordStep::Done(
            Err(AppError::BadRequest("current_password required".to_owned())),
        ),
        Some(current) => match metadata_str(payload, "new_password") {
            None => PasswordStep::Done(
                Err(AppError::BadRequest("new_password required".to_owned())),
            ),
            Some(wanted) => PasswordStep::CheckPassword(
                PasswordStrength {
                    id: auth_user.id.clone(),
                    email: auth_user.email.clone(),
                    current: current.to_owned(),
                    wanted: wanted.to_owned(),
                },
                wanted.to_owned(),
            ),
        },
    }
}

impl PasswordStrength {
    /// The step that follows on an outcome.
    pub open spec fn leads_to(self, strength: Result<(), AppError>, step: PasswordStep) -> bool {
        match strength {
            Ok(()) => step == PasswordStep::LogIn(
                PasswordLogin { id: self.id, wanted: self.wanted },
                Credentials { email: self.email, password: self.current },
            ),
            Err(error) => step == PasswordStep::Done(Err(error)),
        }
    }

    /// Goes on with the judgement on the password.
    pub fn resume(self, strength: Result<(), AppError>) -> (step: PasswordStep)
        ensures
            self.leads_to(strength, step),
    {
        match strength {
            Ok(()) => PasswordStep::LogIn(
                PasswordLogin { id: self.id, wanted: self.wanted },
                Credentials { email: self.email, password: self.current },
            ),
            Err(error) => PasswordStep::Done(Err(error)),
        }
    }
}

impl PasswordLogin {
    /// The step that follows on an outcome.
    pub open spec fn leads_to(
        self,
        session: Result<(), anyhow::Error>,
        step: PasswordStep,
    ) -> bool {
        match session {
            Ok(()) => {
                &&& step matches PasswordStep::UpdateUser(next, patch)
                &&& patch.id == self.id
                &&& patch.body@ == Json::Object(
                    map!["password"@ => Json::String(self.wanted@)],
                )
            },
            Err(_) => {
                &&& step matches PasswordStep::Done(Err(error))
                &&& error@ == Failure::Unauthorized("Invalid current password"@)
            },
        }
    }

    /// Goes on with whether the password so far is the user's.
    pub fn resume(self, session: Result<(), anyhow::Error>) -> (step: PasswordStep)
        ensures
            self.leads_to(session, step),
    {
        match session {
            Ok(()) => PasswordStep::UpdateUser(
                PasswordSave,
                UserPatch {
                    id: self.id,
                    body: Value::Object(
                        Object::new().insert("password", Value::String(self.wanted)),
                    ),
                },
            ),
            Err(_) => PasswordStep::Done(
                Err(AppError::Unauthorized("Invalid current password".to_owned())),
            ),
        }
    }
}

impl PasswordSave {
    /// The step that follows on an outcome.
    pub open spec fn leads_to(
        self,
        updated: Result<(), anyhow::Error>,
        step: PasswordStep,
    ) -> bool {
        match updated {
            Ok(()) => {
                &&& step matches PasswordStep::Done(Ok(body))
                &&& body@ == Json::Object(
                    map!["message"@ => Json::String("Password changed successfully"@)],
                )
            },
            Err(error) => step == PasswordStep::Done(Err(AppError::Other(error))),
        }
    }

    /// Ends with a message.
    pub fn resume(self, updated: Result<(), anyhow::Error>) -> (step: PasswordStep)
        ensures
            self.leads_to(updated, step),
    {
        match updated {
            Ok(()) => PasswordStep::Done(
                Ok(
                    Value::Object(
                        Object::new().insert(
                            "message",
                            Value::text("Password changed successfully"),
                        ),
                    ),
                ),
            ),
            Err(error) => PasswordStep::Done(Err(AppError::Other(error))),
        }
    }
}

} // verus!
