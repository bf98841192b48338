//! What requests, the session and the backend hand in, and what is handed back.

use crate::headers::header_lines;
use crate::value::{string_view, Json, Value};
use axum::http::{HeaderMap, HeaderValue};
use vstd::prelude::*;

verus! {

/// A user as the authentication service keeps it.
#[derive(Debug)]
pub struct AuthUserRecord {
    pub id: String,
    pub email: Option<String>,
    pub user_metadata: Value,
    pub app_metadata: Value,
    pub created_at: Option<String>,
}

/// What an [`AuthUserRecord`] holds.
pub struct UserView {
    pub id: Seq<char>,
    pub email: Option<Seq<char>>,
    pub user_metadata: Json,
    pub app_metadata: Json,
    pub created_at: Option<Seq<char>>,
}

impl View for AuthUserRecord {
    type V = UserView;

    open spec fn view(&self) -> UserView {
        UserView {
            id: self.id@,
            email: string_view(self.email),
            user_metadata: self.user_metadata@,
            app_metadata: self.app_metadata@,
            created_at: string_view(self.created_at),
        }
    }
}

/// Who makes a request.
#[derive(Debug)]
pub struct AuthUser {
    pub id: String,
    pub email: String,
    pub name: String,
    pub role: String,
}

/// A session that the authentication service opened: its user, and the cookies that carry it.
#[derive(Debug)]
pub struct AuthSession {
    pub user: AuthUserRecord,
    pub cookies: Vec<String>,
}

/// What a user can be.
#[derive(Clone, Copy, Debug, PartialEq, Eq, Structural)]
pub enum UserRole {
    Customer,
    BusinessOwner,
    Admin,
}

/// A request to register.
#[derive(Debug)]
pub struct UserCreate {
    pub email: String,
    pub password: String,
    pub full_name: Option<String>,
    pub role: Option<UserRole>,
    pub recaptcha_token: Option<String>,
}

/// A request to log in with a password.
#[derive(Debug)]
pub struct UserLogin {
    pub email: String,
    pub password: String,
}

/// A request to log in with a credential from Google.
#[derive(Debug)]
pub struct GoogleAuthRequest {
    pub credential: String,
}

/// A user to be created.
#[derive(Debug)]
pub struct NewUser {
    pub email: String,
    pub password: String,
    pub user_metadata: Value,
    pub app_metadata: Value,
}

/// An email address and the password that goes with it.
#[derive(Debug)]
pub struct Credentials {
    pub email: String,
    pub password: String,
}

/// A token by which another service vouches for a user.
#[derive(Debug)]
pub struct IdToken {
    pub provider: &'static str,
    pub credential: String,
}

/// A change of a user: its id, and the members to be written.
#[derive(Debug)]
pub struct UserPatch {
    pub id: String,
    pub body: Value,
}

/// A text to be cleaned, and the number of characters that are kept at most.
#[derive(Debug)]
pub struct TextRequest {
    pub text: Option<String>,
    pub limit: usize,
}

/// The address of something on the web to be brought into its normal form, the number of
/// characters that it has at most, and the switch that goes with them.
#[derive(Debug)]
pub struct UrlRequest {
    pub url: String,
    pub limit: usize,
    pub switch: bool,
}

/// A text that is to be an id, and what it is called when it is none.
#[derive(Debug)]
pub struct IdCheck {
    pub id: String,
    pub label: &'static str,
}

/// An answer: its status, its headers and its JSON body.
#[derive(Debug)]
pub struct Response {
    pub status: u16,
    pub headers: HeaderMap<HeaderValue>,
    pub body: Value,
}

/// What a [`Response`] holds.
pub struct ResponseView {
    pub status: u16,
    pub headers: Map<Seq<char>, Seq<Seq<u8>>>,
    pub body: Json,
}

impl View for Response {
    type V = ResponseView;

    open spec fn view(&self) -> ResponseView {
        ResponseView {
            status: self.status,
            headers: header_lines(self.headers),
            body: self.body@,
        }
    }
}

} // verus!
