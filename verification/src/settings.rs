//! Configuration carried through the service: server address, database
//! connection, token signing expectations, and the credential cookie.
//! Reading a configuration file is I/O and happens outside this crate.
use vstd::prelude::*;

verus! {

/// Where the HTTP server listens.
#[derive(Debug, Clone)]
pub struct ServerSetting {
    pub host: String,
    pub port: u16,
}

/// One database's connection string, pool size, and pool name.
#[derive(Debug, Clone)]
pub struct DatabaseConnectionInfo {
    pub conn_str: String,
    pub pool_size: u32,
    pub pool_name: String,
}

/// The databases the service talks to.
#[derive(Debug, Clone)]
pub struct DatabaseSetting {
    pub sql_server: DatabaseConnectionInfo,
}

/// Token signing secret and the issuer, audience and lifetime expected of
/// every credential.
#[derive(Debug, Clone)]
pub struct JwtSetting {
    pub secret_key: String,
    pub expiration_minutes: usize,
    pub issuer: String,
    pub audience: String,
}

/// The name of the cookie that carries the credential.
#[derive(Debug, Clone)]
pub struct CookieSetting {
    pub name: String,
}

/// The whole configuration.
#[derive(Debug, Clone)]
pub struct AppSetting {
    pub rust_log: String,
    pub server: ServerSetting,
    pub database: DatabaseSetting,
    pub jwt: JwtSetting,
    pub cookie: CookieSetting,
}

} // verus!
