pub mod auth;
pub mod constants;
pub mod date;
pub mod errors;
pub mod form;
pub mod record;
pub mod sql;
pub mod text;
pub mod user;
