//! Connection settings: what the command line gives overrides what the
//! configuration file gives, and a default fills what neither gives.

use vstd::prelude::*;

verus! {

/// Connection settings given on the command line (or through the
/// environment variables `DATABASE_URL` and `MAX_CONNECTIONS`).
#[derive(Debug)]
pub struct ConfigArgs {
    pub database_url: Option<String>,
    pub max_connections: Option<u32>,
}

/// Connection settings read from `config.toml`; a missing file reads as
/// both fields absent.
#[derive(Debug)]
pub struct FileConfig {
    pub database_url: Option<String>,
    pub max_connections: Option<u32>,
}

/// Why the settings could not be established.
#[derive(Debug)]
pub enum ConfigError {
    /// No database URL was given anywhere.
    MissingDatabaseUrl,
    /// The configuration file could not be read.
    Io { path: std::path::PathBuf, source: std::io::Error },
    /// The configuration file is not valid TOML for the settings.
    Parse { path: std::path::PathBuf, source: toml::de::Error },
}

/// The settings the application runs with.
#[derive(Debug)]
pub struct Config {
    pub database_url: String,
    pub max_connections: u32,
}

/// The pool size used when no setting gives one.
pub const DEFAULT_MAX_CONNECTIONS: u32 = 10;

/// The first of `primary` and `fallback` that is present.
pub open spec fn first_present<T>(primary: Option<T>, fallback: Option<T>) -> Option<T> {
    match primary {
        Some(v) => Some(v),
        None => fallback,
    }
}

/// The characters of an optional text.
pub open spec fn text_view(o: Option<String>) -> Option<Seq<char>> {
    match o {
        Some(s) => Some(s@),
        None => None,
    }
}

impl ConfigError {
    /// The message shown when no database URL was given.
    pub fn missing_url_message() -> (r: &'static str)
        ensures
            r@ == missing_url_message_spec(),
    {
        "DATABASE_URL is mandatory. Define via flag (--database-url), environment variable or at ~/.config/moneta/config.toml"
    }
}

/// The text of [`ConfigError::missing_url_message`].
pub open spec fn missing_url_message_spec() -> Seq<char> {
    "DATABASE_URL is mandatory. Define via flag (--database-url), environment variable or at ~/.config/moneta/config.toml"@
}

impl Config {
    /// Merges the command-line settings with those of the configuration
    /// file: each setting comes from the command line when given there,
    /// otherwise from the file; the pool size defaults to 10, and a missing
    /// database URL is an error.
    pub fn load(cli_args: ConfigArgs, file_config: FileConfig) -> (r: Result<Config, ConfigError>)
        ensures
            r is Err <==> first_present(cli_args.database_url, file_config.database_url) is None,
            r is Err ==> r->Err_0 is MissingDatabaseUrl,
            r matches Ok(c) ==> {
                &&& Some(c.database_url@) == text_view(
                    first_present(cli_args.database_url, file_config.database_url),
                )
                &&& c.max_connections == match first_present(
                    cli_args.max_connections,
                    file_config.max_connections,
                ) {
                    Some(n) => n,
                    None => DEFAULT_MAX_CONNECTIONS,
                }
            },
    {
        let database_url = match cli_args.database_url {
            Some(u) => u,
            None => match file_config.database_url {
                Some(u) => u,
                None => {
                    return Err(ConfigError::MissingDatabaseUrl);
                },
            },
        };
        let max_connections = match cli_args.max_connections {
            Some(n) => n,
            None => match file_config.max_connections {
                Some(n) => n,
                None => DEFAULT_MAX_CONNECTIONS,
            },
        };
        Ok(Config { database_url, max_connections })
    }
}

} // verus!
