use vstd::prelude::*;

verus! {

/// The port the server listens on.
pub const DEFAULT_PORT: u16 = 8000;

/// Process-wide settings, read once at startup and never changed.
#[derive(Debug, Clone)]
pub struct Config {
    pub database_url: String,
    pub jwt_secret: String,
    pub jwt_maxage: i64,
    pub port: u16,
}

impl Config {
    /// Settings from the database URL, the token signing secret and the token
    /// time to live in seconds, on the default port.
    pub fn from_parts(database_url: String, jwt_secret: String, jwt_maxage: i64) -> (r: Config)
        ensures
            r.database_url@ == database_url@,
            r.jwt_secret@ == jwt_secret@,
            r.jwt_maxage == jwt_maxage,
            r.port == DEFAULT_PORT,
    {
        Config { database_url, jwt_secret, jwt_maxage, port: DEFAULT_PORT }
    }
}

} // verus!
