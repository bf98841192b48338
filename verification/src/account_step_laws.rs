//! What a user changes of itself, member by member.

use crate::account::{
    change_password, update_me, update_preferences, PasswordLogin, PasswordSave, PasswordStep,
    PasswordStrength, PreferencesLookup, PreferencesSave, PreferencesStep, ProfileEdit, UpdateMe,
    UpdateMeAbout, UpdateMeName, UpdateMePicture, UpdateMeSave, UpdateMeStep,
};
use crate::account_laws::{law_profile_change, ProfileChange};
use crate::errors::{AppError, Failure};
use crate::models::{AuthUser, AuthUserRecord, UserPatch};
use crate::names::lemma_names;
use crate::user_laws::{answers, lemma_answer};
use crate::value::{Json, Value};
use vstd::prelude::*;

verus! {

/// A change of a user writes its user metadata, and nothing else.
pub open spec fn writes_user_metadata(patch: UserPatch, id: Seq<char>, metadata: Json) -> bool {
    &&& patch.id@ == id
    &&& patch.body@.get("user_metadata"@) == Some(metadata)
    &&& forall|key: Seq<char>| key != "user_metadata"@ ==> #[trigger] patch.body@.get(key) is None
}

/// An edit is of the same user and request as before, and has come to these metadata.
pub open spec fn has_come_to(
    edit: ProfileEdit,
    id: Seq<char>,
    payload: Json,
    metadata: Json,
) -> bool {
    &&& edit.id@ == id
    &&& edit.payload@ == payload
    &&& edit.metadata@ == metadata
}

/// From these metadata on, the text about oneself comes next, if one is asked for; else the
/// metadata are written.
pub open spec fn about_comes(
    step: UpdateMeStep,
    id: Seq<char>,
    payload: Json,
    metadata: Json,
) -> bool {
    &&& payload.text_at("about_me"@) matches Some(about) ==> {
        &&& step matches UpdateMeStep::SanitizeAbout(next, request)
        &&& has_come_to(next.edit, id, payload, metadata)
        &&& request.text matches Some(text)
        &&& text@ == about
        &&& request.limit == 500
    }
    &&& payload.text_at("about_me"@) is None ==> {
        &&& step matches UpdateMeStep::UpdateUser(_, patch)
        &&& writes_user_metadata(patch, id, metadata)
    }
}

/// From these metadata on, the picture comes next, if one is asked for; else what comes after it.
pub open spec fn picture_comes(
    step: UpdateMeStep,
    id: Seq<char>,
    payload: Json,
    metadata: Json,
) -> bool {
    &&& payload.text_at("profile_picture"@) matches Some(url) ==> {
        &&& step matches UpdateMeStep::NormalizeUrl(next, request)
        &&& has_come_to(next.edit, id, payload, metadata)
        &&& request.url@ == url
        &&& request.limit == 500
        &&& !request.switch
    }
    &&& payload.text_at("profile_picture"@) is None ==> about_comes(step, id, payload, metadata)
}

/// A text is the next to be cleaned as a name.
pub open spec fn name_comes(
    step: UpdateMeStep,
    id: Seq<char>,
    payload: Json,
    metadata: Json,
    name: Seq<char>,
) -> bool {
    &&& step matches UpdateMeStep::SanitizeName(next, request)
    &&& has_come_to(next.edit, id, payload, metadata)
    &&& request.text matches Some(text)
    &&& text@ == name
    &&& request.limit == 120
}

/// `after` differs from `before` at just one key, which has this text.
pub open spec fn differs_at(after: Json, before: Json, key: Seq<char>, text: Seq<char>) -> bool {
    &&& after is Object
    &&& after.get(key) == Some(Json::String(text))
    &&& forall|other: Seq<char>|
        other != key ==> #[trigger] after.get(other) == before.get(other)
}

/// A user that changes its profile is looked up by its own id, and the request is kept.
pub proof fn law_update_me(auth_user: AuthUser, payload: Value, step: UpdateMeStep)
    requires
        call_ensures(update_me, (&auth_user, payload), step),
    ensures
        step matches UpdateMeStep::GetUser(next, id) && {
            &&& id@ == auth_user.id@
            &&& next.id@ == auth_user.id@
            &&& next.payload@ == payload@
        },
{
}

/// The text under `name` is what is cleaned, whatever is under `full_name`; where there is none,
/// the text under `full_name` is; and where there is none either, no name is.
pub proof fn law_name_asked_for(
    state: UpdateMe,
    current: Result<AuthUserRecord, anyhow::Error>,
    step: UpdateMeStep,
)
    requires
        call_ensures(UpdateMe::resume, (state, current), step),
    ensures
        current matches Ok(user) ==> {
            let short = state.payload@.text_at("name"@);
            let full = state.payload@.text_at("full_name"@);
            let metadata = user.user_metadata@;
            &&& short matches Some(name) ==> name_comes(
                step,
                state.id@,
                state.payload@,
                metadata,
                name,
            )
            &&& short is None ==> (full matches Some(name) ==> name_comes(
                step,
                state.id@,
                state.payload@,
                metadata,
                name,
            ))
            &&& short is None && full is None ==> picture_comes(
                step,
                state.id@,
                state.payload@,
                metadata,
            )
        },
        current matches Err(cause) ==> step == UpdateMeStep::Done(Err(AppError::Other(cause))),
{
}

/// The clean name is put under `full_name` and under `name`, and no other member changes.
pub proof fn law_name_put(state: UpdateMeName, cleaned: String, step: UpdateMeStep)
    requires
        call_ensures(UpdateMeName::resume, (state, cleaned), step),
    ensures
        exists|metadata: Json|
            {
                &&& #[trigger] picture_comes(step, state.edit.id@, state.edit.payload@, metadata)
                &&& metadata is Object
                &&& metadata.get("full_name"@) == Some(Json::String(cleaned@))
                &&& metadata.get("name"@) == Some(Json::String(cleaned@))
                &&& forall|key: Seq<char>|
                    key != "full_name"@ && key != "name"@ ==> #[trigger] metadata.get(key)
                        == state.edit.metadata@.get(key)
            },
{
    lemma_names();
    let metadata = state.edit@.with_text("full_name"@, cleaned@).with_text(
        "name"@,
        cleaned@,
    ).metadata;
    assert(picture_comes(step, state.edit.id@, state.edit.payload@, metadata));
}

/// The address of the picture, where there is one to keep, is put under `profile_picture`, and no
/// other member changes; one that cannot be kept ends the change.
pub proof fn law_picture_put(
    state: UpdateMePicture,
    url: Result<Option<String>, AppError>,
    step: UpdateMeStep,
)
    requires
        call_ensures(UpdateMePicture::resume, (state, url), step),
    ensures
        url matches Ok(Some(url)) ==> exists|metadata: Json|
            #[trigger] about_comes(step, state.edit.id@, state.edit.payload@, metadata)
                && differs_at(metadata, state.edit.metadata@, "profile_picture"@, url@),
        url matches Ok(None) ==> about_comes(
            step,
            state.edit.id@,
            state.edit.payload@,
            state.edit.metadata@,
        ),
        url matches Err(error) ==> step == UpdateMeStep::Done(Err(error)),
{
    if let Ok(Some(text)) = url {
        let metadata = state.edit@.with_text("profile_picture"@, text@).metadata;
        assert(about_comes(step, state.edit.id@, state.edit.payload@, metadata));
        assert(differs_at(metadata, state.edit.metadata@, "profile_picture"@, text@));
    }
}

/// The clean text about oneself, where something is left of it, is put under `about_me`, and no
/// other member changes.
pub proof fn law_about_put(state: UpdateMeAbout, cleaned: Option<String>, step: UpdateMeStep)
    requires
        call_ensures(UpdateMeAbout::resume, (state, cleaned), step),
    ensures
        step matches UpdateMeStep::UpdateUser(_, patch) && {
            &&& cleaned matches Some(about) ==> exists|metadata: Json|
                #[trigger] writes_user_metadata(patch, state.edit.id@, metadata) && differs_at(
                    metadata,
                    state.edit.metadata@,
                    "about_me"@,
                    about@,
                )
            &&& cleaned is None ==> writes_user_metadata(
                patch,
                state.edit.id@,
                state.edit.metadata@,
            )
        },
{
    if let Some(about) = cleaned {
        let metadata = state.edit@.with_text("about_me"@, about@).metadata;
        let patch = step->UpdateUser_1;
        assert(writes_user_metadata(patch, state.edit.id@, metadata));
        assert(differs_at(metadata, state.edit.metadata@, "about_me"@, about@));
    }
}

/// What a change of a profile writes in the end: under each key what was asked for there, cleaned,
/// and else what the user had.
pub proof fn law_profile_written(
    change: ProfileChange,
    steps: Seq<UpdateMeStep>,
    at: int,
    key: Seq<char>,
)
    requires
        change.takes(steps),
        0 <= at < steps.len(),
        steps[at] is UpdateUser,
    ensures
        ({
            let payload = change.payload@;
            let before = change.current->Ok_0@.user_metadata;
            let named = payload.text_at("name"@) is Some || payload.text_at("full_name"@) is Some;
            let patch = steps[at]->UpdateUser_1;
            &&& change.current is Ok
            &&& patch.id@ == change.id@
            &&& patch.body@.get("user_metadata"@) matches Some(written) && {
                &&& named ==> {
                    &&& written.get("full_name"@) == Some(Json::String(change.name@))
                    &&& written.get("name"@) == Some(Json::String(change.name@))
                }
                &&& !named ==> {
                    &&& written.get("full_name"@) == before.get("full_name"@)
                    &&& written.get("name"@) == before.get("name"@)
                }
                &&& payload.text_at("profile_picture"@) is Some ==> (change.picture matches Ok(
                    Some(url),
                ) ==> written.get("profile_picture"@) == Some(Json::String(url@)))
                &&& payload.text_at("profile_picture"@) is None || (change.picture matches Ok(
                    None,
                )) ==> written.get("profile_picture"@) == before.get("profile_picture"@)
                &&& payload.text_at("about_me"@) is Some ==> (change.about matches Some(about)
                    ==> written.get("about_me"@) == Some(Json::String(about@)))
                &&& payload.text_at("about_me"@) is None || change.about is None ==> written.get(
                    "about_me"@,
                ) == before.get("about_me"@)
                &&& key != "full_name"@ && key != "name"@ && key != "profile_picture"@ && key
                    != "about_me"@ ==> written.get(key) == before.get(key)
            }
        }),
{
    lemma_names();
    law_profile_change(change, steps, at);
}

/// A changed profile is shown to its user as it is then.
pub proof fn law_update_me_save(
    state: UpdateMeSave,
    updated: Result<AuthUserRecord, anyhow::Error>,
    step: UpdateMeStep,
)
    requires
        call_ensures(UpdateMeSave::resume, (state, updated), step),
    ensures
        step matches UpdateMeStep::Done(body) && answers(updated, true, body),
{
    lemma_answer(updated, true, step->Done_0);
}

/// Preferences are put in place of the ones before, of the user who asks, and no other member
/// changes; the changed user is shown.
pub proof fn law_preferences(
    auth_user: AuthUser,
    preferences: Value,
    first: PreferencesStep,
    current: Result<AuthUserRecord, anyhow::Error>,
    second: PreferencesStep,
    updated: Result<AuthUserRecord, anyhow::Error>,
    last: PreferencesStep,
)
    requires
        call_ensures(update_preferences, (&auth_user, preferences), first),
        call_ensures(PreferencesLookup::resume, (first->GetUser_0, current), second),
        current is Ok ==> call_ensures(
            PreferencesSave::resume,
            (second->UpdateUser_0, updated),
            last,
        ),
    ensures
        first matches PreferencesStep::GetUser(_, id) && id@ == auth_user.id@,
        current matches Ok(user) ==> {
            &&& second matches PreferencesStep::UpdateUser(_, patch)
            &&& exists|metadata: Json|
                {
                    &&& #[trigger] writes_user_metadata(patch, auth_user.id@, metadata)
                    &&& metadata.get("preferences"@) == Some(preferences@)
                    &&& forall|key: Seq<char>|
                        key != "preferences"@ ==> #[trigger] metadata.get(key)
                            == user.user_metadata@.get(key)
                }
            &&& last matches PreferencesStep::Done(body)
            &&& answers(updated, true, body)
        },
        current matches Err(cause) ==> second == PreferencesStep::Done(
            Err(AppError::Other(cause)),
        ),
{
    if let Ok(user) = current {
        let patch = second->UpdateUser_1;
        let metadata = patch.body@.get("user_metadata"@)->0;
        assert(writes_user_metadata(patch, auth_user.id@, metadata));
        lemma_answer(updated, true, last->Done_0);
    }
}

/// A change of a password is asked for with both passwords, and begins with the one to come.
pub proof fn law_change_password(auth_user: AuthUser, payload: Value, step: PasswordStep)
    requires
        call_ensures(change_password, (&auth_user, &payload), step),
    ensures
        ({
            let current = payload@.text_at("current_password"@);
            let wanted = payload@.text_at("new_password"@);
            &&& current is None ==> {
                &&& step matches PasswordStep::Done(Err(error))
                &&& error@ == Failure::BadRequest("current_password required"@)
            }
            &&& current is Some && wanted is None ==> {
                &&& step matches PasswordStep::Done(Err(error))
                &&& error@ == Failure::BadRequest("new_password required"@)
            }
            &&& current is Some && wanted is Some ==> {
                &&& step matches PasswordStep::CheckPassword(next, password)
                &&& password@ == wanted->0
                &&& next.id@ == auth_user.id@
                &&& next.email@ == auth_user.email@
                &&& next.current@ == current->0
                &&& next.wanted@ == wanted->0
            }
        }),
{
}

/// The password so far is tried before the one to come is written, and only that one is.
pub proof fn law_password_steps(
    state: PasswordStrength,
    strength: Result<(), AppError>,
    first: PasswordStep,
    session: Result<(), anyhow::Error>,
    second: PasswordStep,
    updated: Result<(), anyhow::Error>,
    last: PasswordStep,
)
    requires
        call_ensures(PasswordStrength::resume, (state, strength), first),
        strength is Ok ==> call_ensures(PasswordLogin::resume, (first->LogIn_0, session), second),
        strength is Ok && session is Ok ==> call_ensures(
            PasswordSave::resume,
            (second->UpdateUser_0, updated),
            last,
        ),
    ensures
        strength matches Err(error) ==> first == PasswordStep::Done(Err(error)),
        strength is Ok ==> {
            &&& first matches PasswordStep::LogIn(_, credentials)
            &&& credentials.email@ == state.email@
            &&& credentials.password@ == state.current@
        },
        strength is Ok && session is Err ==> {
            &&& second matches PasswordStep::Done(Err(error))
            &&& error@ == Failure::Unauthorized("Invalid current password"@)
        },
        strength is Ok && session is Ok ==> {
            &&& second matches PasswordStep::UpdateUser(_, patch)
            &&& patch.id@ == state.id@
            &&& patch.body@.get("password"@) == Some(Json::String(state.wanted@))
            &&& forall|key: Seq<char>|
                key != "password"@ ==> #[trigger] patch.body@.get(key) is None
            &&& updated is Ok ==> {
                &&& last matches PasswordStep::Done(Ok(body))
                &&& body@.get("message"@) == Some(Json::String("Password changed successfully"@))
                &&& forall|key: Seq<char>| key != "message"@ ==> #[trigger] body@.get(key) is None
            }
            &&& updated matches Err(cause) ==> last == PasswordStep::Done(
                Err(AppError::Other(cause)),
            )
        },
{
}

} // verus!
