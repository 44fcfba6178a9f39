//! Verified core of the IFoundThePhone web service: form checks, page and
//! redirect decisions of each route, password hashing and checking, session
//! authentication, and the text of the e-mails the service sends.

pub mod routes;
pub mod user;
