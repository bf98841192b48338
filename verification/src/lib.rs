pub mod account;
pub mod account_laws;
pub mod account_step_laws;
pub mod auth;
pub mod backend;
pub mod clock;
pub mod errors;
pub mod headers;
pub mod laws;
pub mod metadata;
pub mod models;
mod names;
pub mod profile;
pub mod rating;
pub mod register;
pub mod register_laws;
pub mod review_change;
pub mod review_laws;
pub mod review_list;
pub mod review_rating;
pub mod review_step_laws;
pub mod review_write;
pub mod reviews;
pub mod session_laws;
pub mod sign_in;
pub mod text;
pub mod text_laws;
pub mod user_laws;
pub mod users;
pub mod value;
pub mod value_laws;
