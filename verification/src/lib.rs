//! Verified core of a pooled SQL web service: status codes and response
//! envelopes, the SQL command builder, a named connection-pool registry with
//! scoped client guards, and the request-authorization interceptor.
pub mod status;
pub mod textfmt;
pub mod command;
pub mod pool;
pub mod users;
pub mod roles;
pub mod password;
pub mod settings;
pub mod jwt;
pub mod auth;
