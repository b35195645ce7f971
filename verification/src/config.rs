//! The settings that a user keeps between runs.

use vstd::prelude::*;
use vstd::string::*;

verus! {

/// The credentials of a user, as they are stored.
#[derive(Debug)]
pub struct BitpingConfig {
    pub id: String,
    pub name: String,
    pub email: String,
    pub token: String,
}

/// What is shown for diagnosis.
#[derive(Debug, Clone, Copy, PartialEq, Eq, Structural)]
pub struct BpingDiagnosticsConfig {
    pub show_ping_type: bool,
    pub log_level: i8,
}

/// The log level of a configuration that names none.
pub const DEFAULT_LOG_LEVEL: i8 = 3;

impl BpingDiagnosticsConfig {
    pub fn new(show_ping_type: bool, log_level: i8) -> (r: Self)
        ensures
            r.show_ping_type == show_ping_type,
            r.log_level == log_level,
    {
        BpingDiagnosticsConfig { show_ping_type, log_level }
    }
}

impl Default for BpingDiagnosticsConfig {
    /// The ping type is not shown, and the log level is 3.
    fn default() -> (r: Self)
        ensures
            r == (BpingDiagnosticsConfig { show_ping_type: false, log_level: DEFAULT_LOG_LEVEL }),
    {
        BpingDiagnosticsConfig::new(false, DEFAULT_LOG_LEVEL)
    }
}

/// The settings of a user.
#[derive(Debug)]
pub struct BpingConfiguration {
    /// The regions to ping from where none is given.
    pub default_regions: Vec<String>,
    pub show_emojis: bool,
    pub diagnostics: BpingDiagnosticsConfig,
}

impl BpingConfiguration {
    /// Whether these are the settings of a user who has set nothing: no
    /// default regions, no emojis, the default diagnostics.
    pub open spec fn is_default(self) -> bool {
        &&& self.default_regions@.len() == 0
        &&& !self.show_emojis
        &&& self.diagnostics == (BpingDiagnosticsConfig {
            show_ping_type: false,
            log_level: DEFAULT_LOG_LEVEL,
        })
    }
}

impl Default for BpingConfiguration {
    fn default() -> (r: Self)
        ensures
            r.is_default(),
    {
        BpingConfiguration {
            default_regions: Vec::new(),
            show_emojis: false,
            diagnostics: BpingDiagnosticsConfig::new(false, DEFAULT_LOG_LEVEL),
        }
    }
}

/// Why the settings could not be loaded, with the cause in words.
#[derive(Debug)]
pub enum ConfigErrors {
    CantReadFile(String),
    CantParseFile(String),
    CantCreateFile(String),
    Other(String),
}

impl ConfigErrors {
    /// The error in words.
    pub open spec fn message(self) -> Seq<char> {
        match self {
            ConfigErrors::CantReadFile(cause) => "Unable to read .bpingrc "@ + cause@,
            ConfigErrors::CantParseFile(cause) => cause@,
            ConfigErrors::CantCreateFile(cause) => "Unable to create .bpingrc "@ + cause@,
            ConfigErrors::Other(cause) => cause@,
        }
    }

    /// The error in words.
    pub fn to_string(&self) -> (r: String)
        ensures
            r@ == self.message(),
    {
        match self {
            ConfigErrors::CantReadFile(cause) => {
                let mut text = String::from_str("Unable to read .bpingrc ");
                text.append(cause.as_str());
                text
            },
            ConfigErrors::CantParseFile(cause) => cause.clone(),
            ConfigErrors::CantCreateFile(cause) => {
                let mut text = String::from_str("Unable to create .bpingrc ");
                text.append(cause.as_str());
                text
            },
            ConfigErrors::Other(cause) => cause.clone(),
        }
    }
}

/// The settings to run with: those that were loaded, or the default ones
/// where loading failed, whatever the cause.
pub fn get_configuration(loaded: Result<BpingConfiguration, ConfigErrors>) -> (r:
    BpingConfiguration)
    ensures
        match loaded {
            Ok(c) => r == c,
            Err(_) => r.is_default(),
        },
{
    match loaded {
        Ok(c) => c,
        Err(_) => BpingConfiguration::default(),
    }
}

} // verus!
