//! A bug tracker's rules: who may do what, how requests are checked, how
//! stored records change, and which reply each outcome gets.
//!
//! The database, the HTTP server and templates are driven by the application
//! around this library. It asks the library what to do with each result they
//! give. JSON web tokens are made and checked here, through jsonwebtoken.

pub mod text;
pub mod models;
pub mod reply;
pub mod ids;
pub mod clock;
pub mod password;
pub mod auth;
pub mod token;
pub mod bugs;
pub mod projects;
pub mod users;
