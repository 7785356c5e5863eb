//! The helper's settings: where it keeps its files, when the breaker opens,
//! and the environments it can ask credentials for.

use vstd::prelude::*;
use vstd::string::*;
use crate::error::{ConfigError, Error};
use crate::text::{join_path, joined_path, same_text};

pub mod parser;

verus! {

/// One environment: the endpoint to ask, the role alias to ask for, and the
/// files of the client's certificate, its key, and the authority's
/// certificate.
#[derive(Clone, Debug, PartialEq, Eq)]
pub struct EnvironmentProfile {
    pub aws_iot_endpoint: String,
    pub role_alias: String,
    pub cert_path: String,
    pub key_path: String,
    pub ca_path: String,
}

/// An environment's settings as five texts.
pub struct ProfileView {
    pub aws_iot_endpoint: Seq<char>,
    pub role_alias: Seq<char>,
    pub cert_path: Seq<char>,
    pub key_path: Seq<char>,
    pub ca_path: Seq<char>,
}

impl View for EnvironmentProfile {
    type V = ProfileView;

    open spec fn view(&self) -> ProfileView {
        ProfileView {
            aws_iot_endpoint: self.aws_iot_endpoint@,
            role_alias: self.role_alias@,
            cert_path: self.cert_path@,
            key_path: self.key_path@,
            ca_path: self.ca_path@,
        }
    }
}

/// The environments by name, and the name of the one in use.
#[derive(Clone, Debug, PartialEq, Eq)]
pub struct EnvironmentConfig {
    pub current: String,
    pub profiles: Vec<(String, EnvironmentProfile)>,
}

/// All settings.
#[derive(Clone, Debug, PartialEq, Eq)]
pub struct Config {
    pub cache_dir: String,
    pub log_dir: String,
    pub env_config: EnvironmentConfig,
    /// Failures that open the circuit breaker.
    pub circuit_breaker_threshold: u32,
    /// Seconds that an open breaker refuses requests for.
    pub cool_down_seconds: u64,
    pub cache_enabled: bool,
    /// Seconds before their expiration at which cached credentials are
    /// fetched anew.
    pub cache_threshold_seconds: u64,
}

/// Where the environment called `name` first stands among `profiles` at or
/// after `from`; their number where none is called so.
pub open spec fn profile_index(
    profiles: Seq<(String, EnvironmentProfile)>,
    name: Seq<char>,
    from: int,
) -> int
    decreases profiles.len() - from,
{
    if from < 0 || from >= profiles.len() {
        profiles.len() as int
    } else if profiles[from].0@ == name {
        from
    } else {
        profile_index(profiles, name, from + 1)
    }
}

/// Whether no two environments share a name.
pub open spec fn distinct_names(profiles: Seq<(String, EnvironmentProfile)>) -> bool {
    forall|i: int, j: int|
        0 <= i < j < profiles.len() ==> (#[trigger] profiles[i]).0@ != (#[trigger] profiles[j]).0@
}

/// The directory of the cache where none is set.
pub fn default_cache_dir() -> (directory: String)
    ensures
        directory@ == "/var/cache/authencore"@,
{
    String::from_str("/var/cache/authencore")
}

/// The directory of the log where none is set.
pub fn default_log_dir() -> (directory: String)
    ensures
        directory@ == "/var/log/authencore"@,
{
    String::from_str("/var/log/authencore")
}

/// Whether credentials are cached where nothing is set: they are.
pub fn default_cache_enabled() -> (enabled: bool)
    ensures
        enabled,
{
    true
}

/// The seconds before expiration at which cached credentials are fetched
/// anew, where none are set: five minutes.
pub fn default_cache_threshold() -> (seconds: u64)
    ensures
        seconds == 300,
{
    300
}

/// The file of the cache where none is set.
pub fn default_cache_path() -> (path: String)
    ensures
        path@ == "/var/cache/authguard/credentials.json"@,
{
    String::from_str("/var/cache/authguard/credentials.json")
}

impl EnvironmentConfig {
    /// Whether no two environments share a name.
    pub open spec fn well_formed(self) -> bool {
        distinct_names(self.profiles@)
    }

    /// Whether no two environments share a name.
    pub fn has_distinct_names(&self) -> (distinct: bool)
        ensures
            distinct == self.well_formed(),
    {
        let count = self.profiles.len();
        let mut later: usize = 0;
        while later < count
            invariant
                later <= count,
                count == self.profiles.len(),
                forall|i: int, j: int|
                    0 <= i < j < later ==> (#[trigger] self.profiles@[i]).0@
                        != (#[trigger] self.profiles@[j]).0@,
            decreases count - later,
        {
            let mut earlier: usize = 0;
            while earlier < later
                invariant
                    earlier <= later < count,
                    count == self.profiles.len(),
                    forall|i: int|
                        0 <= i < earlier ==> (#[trigger] self.profiles@[i]).0@
                            != self.profiles@[later as int].0@,
                decreases later - earlier,
            {
                if same_text(self.profiles[earlier].0.as_str(), self.profiles[later].0.as_str()) {
                    assert(self.profiles@[earlier as int].0@ == self.profiles@[later as int].0@);
                    return false;
                }
                earlier += 1;
            }
            later += 1;
        }
        true
    }
}

impl Config {
    /// Where the settings are looked for first.
    pub fn default_path() -> (path: Result<String, Error>)
        ensures
            path matches Ok(text) && text@ == "/etc/authguard/authguard.conf"@,
    {
        Ok(String::from_str("/etc/authguard/authguard.conf"))
    }

    /// The file of settings to read, given which of the two usual files are
    /// there: the system's, `/etc/authencore/authencore.toml`, before the one
    /// in the working directory, `./authencore.toml`. With neither there is
    /// nothing to load.
    pub fn find_config_file(system_present: bool, local_present: bool) -> (found: Result<
        String,
        Error,
    >)
        ensures
            system_present ==> (found matches Ok(path) && path@
                == "/etc/authencore/authencore.toml"@),
            !system_present && local_present ==> (found matches Ok(path) && path@
                == "./authencore.toml"@),
            !system_present && !local_present ==> (found matches Err(
                Error::Config(ConfigError::LoadError(reason)),
            ) && reason@ == "No configuration file found in default locations"@),
    {
        if system_present {
            Ok(String::from_str("/etc/authencore/authencore.toml"))
        } else if local_present {
            Ok(String::from_str("./authencore.toml"))
        } else {
            Err(
                Error::Config(
                    ConfigError::LoadError(
                        String::from_str("No configuration file found in default locations"),
                    ),
                ),
            )
        }
    }

    /// Takes the settings as they were read from their file, or the reason
    /// why they could not be read. Settings in which two environments share
    /// a name are not accepted.
    pub fn load(document: Result<Config, String>) -> (outcome: Result<Config, Error>)
        ensures
            match document {
                Ok(settings) => if settings.env_config.well_formed() {
                    outcome == Ok::<Config, Error>(settings)
                } else {
                    outcome matches Err(Error::Config(ConfigError::LoadError(reason))) && reason@
                        == "Environment defined more than once"@
                },
                Err(reason) => outcome == Err::<Config, Error>(
                    Error::Config(ConfigError::LoadError(reason)),
                ),
            },
    {
        match document {
            Ok(settings) => {
                if settings.env_config.has_distinct_names() {
                    Ok(settings)
                } else {
                    Err(
                        Error::Config(
                            ConfigError::LoadError(
                                String::from_str("Environment defined more than once"),
                            ),
                        ),
                    )
                }
            },
            Err(reason) => Err(Error::Config(ConfigError::LoadError(reason))),
        }
    }

    /// The environment in use: the one called as `current` says. Where no
    /// environment is called so, the failure names what was looked for.
    pub fn active_profile(&self) -> (outcome: Result<&EnvironmentProfile, Error>)
        ensures
            match outcome {
                Ok(profile) => {
                    let at = profile_index(
                        self.env_config.profiles@,
                        self.env_config.current@,
                        0,
                    );
                    &&& 0 <= at < self.env_config.profiles.len()
                    &&& self.env_config.profiles@[at].0@ == self.env_config.current@
                    &&& *profile == self.env_config.profiles@[at].1
                },
                Err(failure) => {
                    &&& profile_index(self.env_config.profiles@, self.env_config.current@, 0)
                        == self.env_config.profiles.len()
                    &&& forall|i: int|
                        0 <= i < self.env_config.profiles.len() ==> (
                        #[trigger] self.env_config.profiles@[i]).0@ != self.env_config.current@
                    &&& failure matches Error::Config(ConfigError::MissingEnvironment(name))
                    &&& failure->Config_0->MissingEnvironment_0@ == self.env_config.current@
                },
            },
    {
        let count = self.env_config.profiles.len();
        let mut at: usize = 0;
        while at < count
            invariant
                at <= count,
                count == self.env_config.profiles.len(),
                profile_index(self.env_config.profiles@, self.env_config.current@, 0)
                    == profile_index(
                    self.env_config.profiles@,
                    self.env_config.current@,
                    at as int,
                ),
                forall|i: int|
                    0 <= i < at ==> (#[trigger] self.env_config.profiles@[i]).0@
                        != self.env_config.current@,
            decreases count - at,
        {
            if same_text(
                self.env_config.profiles[at].0.as_str(),
                self.env_config.current.as_str(),
            ) {
                return Ok(&self.env_config.profiles[at].1);
            }
            at += 1;
        }
        Err(Error::Config(ConfigError::MissingEnvironment(self.env_config.current.clone())))
    }

    /// Checks that the files of the environment in use are there, given for
    /// each of them whether it is: the client's certificate, then its key,
    /// then the authority's certificate. The first that is missing is
    /// reported, with its path and what it is.
    pub fn validate_paths(&self, cert_present: bool, key_present: bool, ca_present: bool) -> (outcome:
        Result<(), Error>)
        ensures
            profile_index(self.env_config.profiles@, self.env_config.current@, 0)
                == self.env_config.profiles.len() ==> (outcome matches Err(
                Error::Config(ConfigError::MissingEnvironment(name)),
            ) && name@ == self.env_config.current@),
            profile_index(self.env_config.profiles@, self.env_config.current@, 0)
                < self.env_config.profiles.len() ==> {
                let profile = self.env_config.profiles@[profile_index(
                    self.env_config.profiles@,
                    self.env_config.current@,
                    0,
                )].1;
                if !cert_present {
                    outcome matches Err(
                        Error::Config(ConfigError::FileNotFound { file, description }),
                    ) && file@ == profile.cert_path@ && description@ == "Client certificate"@
                } else if !key_present {
                    outcome matches Err(
                        Error::Config(ConfigError::FileNotFound { file, description }),
                    ) && file@ == profile.key_path@ && description@ == "Private key"@
                } else if !ca_present {
                    outcome matches Err(
                        Error::Config(ConfigError::FileNotFound { file, description }),
                    ) && file@ == profile.ca_path@ && description@ == "CA certificate"@
                } else {
                    outcome is Ok
                }
            },
    {
        let profile = match self.active_profile() {
            Ok(profile) => profile,
            Err(failure) => { return Err(failure); },
        };
        if !cert_present {
            Err(missing_file(profile.cert_path.as_str(), "Client certificate"))
        } else if !key_present {
            Err(missing_file(profile.key_path.as_str(), "Private key"))
        } else if !ca_present {
            Err(missing_file(profile.ca_path.as_str(), "CA certificate"))
        } else {
            Ok(())
        }
    }

    /// The file of the credential cache, in the cache directory.
    pub fn cache_file_path(&self) -> (path: String)
        ensures
            path@ == joined_path(self.cache_dir@, "creds_cache.json"@),
    {
        join_path(self.cache_dir.as_str(), "creds_cache.json")
    }
}

/// The failure for a file that is not there.
fn missing_file(file: &str, description: &str) -> (failure: Error)
    ensures
        failure matches Error::Config(ConfigError::FileNotFound { file: named, description: told })
            && named@ == file@ && told@ == description@,
{
    Error::Config(
        ConfigError::FileNotFound {
            file: String::from_str(file),
            description: String::from_str(description),
        },
    )
}

} // verus!
