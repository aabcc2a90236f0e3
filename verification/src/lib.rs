//! Request handling rules of a small blog service: users register, log in,
//! are updated, listed and deleted; authors add posts, fetch them and attach
//! a thumbnail image. The database, the HTTP layer and the file system stay
//! outside; this crate decides what is written, what is answered and which
//! error a refused request gets.

pub mod error;
pub mod models;
pub mod ids;
pub mod text;
pub mod users;
pub mod auth;
pub mod posts;
pub mod guard;
pub mod thumbnail;
pub mod laws;
