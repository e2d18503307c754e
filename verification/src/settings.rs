//! What the service is started with.

use crate::models::optional_text;
use vstd::prelude::*;

verus! {

/// The origin allowed by the cross-origin policy where none is configured.
pub const DEFAULT_FRONTEND_URL: &'static str = "http://localhost:5173";

/// The largest number of connections to the store that are open at once.
pub const MAX_CONNECTIONS: u32 = 5;

/// The address on which the service listens: every interface, port 3000.
pub const LISTEN_ADDRESS: &'static str = "0.0.0.0:3000";

/// Why the service cannot start.
#[derive(Debug, Clone, Copy, PartialEq, Eq, Structural)]
pub enum StartupError {
    /// The environment names no store to connect to.
    MissingDatabaseUrl,
}

impl StartupError {
    /// What the service says before it gives up.
    pub fn message(&self) -> (text: String)
        ensures
            text@ == "DATABASE_URL must be set"@,
    {
        String::from_str("DATABASE_URL must be set")
    }
}

/// The settings of a running service.
#[derive(Debug, PartialEq, Eq)]
pub struct Settings {
    /// The one origin that the cross-origin policy allows.
    pub frontend_url: String,
    /// Where the store is.
    pub database_url: String,
    pub max_connections: u32,
    pub listen_address: &'static str,
}

/// What a `Settings` holds.
pub struct SettingsView {
    pub frontend_url: Seq<char>,
    pub database_url: Seq<char>,
    pub max_connections: int,
    pub listen_address: Seq<char>,
}

impl View for Settings {
    type V = SettingsView;

    open spec fn view(&self) -> SettingsView {
        SettingsView {
            frontend_url: self.frontend_url@,
            database_url: self.database_url@,
            max_connections: self.max_connections as int,
            listen_address: self.listen_address@,
        }
    }
}

/// The settings that follow from the environment's `FRONTEND_URL` and
/// `DATABASE_URL`, each given where it is set.
pub open spec fn settings_from(
    frontend_url: Option<Seq<char>>,
    database_url: Option<Seq<char>>,
) -> Result<SettingsView, StartupError> {
    match database_url {
        None => Err(StartupError::MissingDatabaseUrl),
        Some(database_url) => Ok(
            SettingsView {
                frontend_url: match frontend_url {
                    Some(url) => url,
                    None => DEFAULT_FRONTEND_URL@,
                },
                database_url,
                max_connections: MAX_CONNECTIONS as int,
                listen_address: LISTEN_ADDRESS@,
            },
        ),
    }
}

impl Settings {
    /// Reads the settings from the values of `FRONTEND_URL` and
    /// `DATABASE_URL`. The first is optional and has a default; without the
    /// second the service cannot start.
    pub fn from_environment(frontend_url: Option<String>, database_url: Option<String>) -> (settings:
        Result<Settings, StartupError>)
        ensures
            match settings {
                Ok(settings) => Ok::<SettingsView, StartupError>(settings@),
                Err(error) => Err(error),
            } == settings_from(optional_text(frontend_url), optional_text(database_url)),
    {
        match database_url {
            None => Err(StartupError::MissingDatabaseUrl),
            Some(database_url) => {
                let frontend_url = match frontend_url {
                    Some(url) => url,
                    None => String::from_str(DEFAULT_FRONTEND_URL),
                };
                Ok(
                    Settings {
                        frontend_url,
                        database_url,
                        max_connections: MAX_CONNECTIONS,
                        listen_address: LISTEN_ADDRESS,
                    },
                )
            },
        }
    }
}

} // verus!
