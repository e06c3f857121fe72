//! The errors of the library.

use vstd::prelude::*;
use vstd::string::StringExecFns;
use yaml_rust::ScanError;

verus! {

#[derive(Debug, PartialEq, Eq, Structural, Clone, Copy)]
pub enum CharacterListError {
    /// Characters list is empty. Cannot select any character here.
    Empty,
    /// No character found; check `autoselect - character_name` in the config file.
    NotFound,
}

#[derive(Debug, PartialEq, Eq, Structural, Clone, Copy)]
pub enum RealmListError {
    /// No realm found; check `autoselect - realm_name` in the config file.
    NotFound,
}

/// Errors of reading or writing a packet field.
#[derive(Debug, PartialEq, Eq, Structural, Clone, Copy)]
pub enum FieldError {
    /// The body ended before the field.
    CannotRead,
    /// A string field is not valid UTF-8.
    InvalidString,
    /// A field could not be written.
    CannotWrite,
}

/// Errors of reading the config file.
#[derive(Debug)]
pub enum ConfigError {
    /// Config File is not found
    NotFound,
    /// The text is not YAML that `yaml_rust` can scan.
    ScanError(ScanError),
}

/// The text the user is shown for a config error.
pub open spec fn config_error_text(e: ConfigError) -> Seq<char> {
    match e {
        ConfigError::NotFound => "Config File is not found"@,
        ConfigError::ScanError(_) => "Scan error"@,
    }
}

impl ConfigError {
    /// The text the user is shown for the error.
    pub fn message(&self) -> (text: String)
        ensures
            text@ == config_error_text(*self),
    {
        match self {
            ConfigError::NotFound => String::from_str("Config File is not found"),
            ConfigError::ScanError(_) => String::from_str("Scan error"),
        }
    }
}

} // verus!
