//! The bot's configuration: credentials for the messaging backend and
//! the ticketing backend. Loading and saving the file it persists in
//! is left to the surrounding program; the values live here.
use vstd::prelude::*;

verus! {

/// An established messaging session: the access token and the account
/// it was issued for.
#[derive(Debug, Clone)]
pub struct SessionData {
    pub access_token: String,
    pub user_id: String,
    pub device_id: String,
}

/// The configuration value: servers, credentials, and the session
/// kept from the last successful login, if any.
#[derive(Debug, Clone)]
pub struct Config {
    pub matrix_server: String,
    pub matrix_login: String,
    pub matrix_password: String,
    pub matrix_session: Option<SessionData>,
    pub redmine_server: String,
    pub redmine_token: Option<String>,
}

impl Default for Config {
    /// The defaults written out fresh when no valid configuration
    /// file exists.
    fn default() -> (c: Self)
        ensures
            c.matrix_server@ == "https://matrix.org"@,
            c.matrix_login@ == "user"@,
            c.matrix_password@ == "password"@,
            c.matrix_session is None,
            c.redmine_server@ == "https://redmine-server.com"@,
            c.redmine_token is None,
    {
        Config {
            matrix_server: String::from_str("https://matrix.org"),
            matrix_login: String::from_str("user"),
            matrix_password: String::from_str("password"),
            matrix_session: None,
            redmine_server: String::from_str("https://redmine-server.com"),
            redmine_token: None,
        }
    }
}

} // verus!
