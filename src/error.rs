use vstd::prelude::*;

verus! {

/// Why an operation on the configuration file did not succeed.
#[derive(Clone, Copy, Debug, PartialEq, Eq, Structural)]
pub enum ConfigError {
    /// No per-user configuration directory could be determined.
    PathResolution,
    /// The directory that holds the file could not be created.
    CreateDir,
    /// The file could not be read (it is missing, or unreadable).
    Read,
    /// The file could not be written.
    Write,
    /// The file's text does not decode into the settings type.
    Deserialization,
    /// The settings value could not be encoded as text.
    Serialization,
}

/// The failures of a load that auto-recovery absorbs: the file could not be
/// read, or its content did not decode.
pub open spec fn is_recoverable(e: ConfigError) -> bool {
    e == ConfigError::Read || e == ConfigError::Deserialization
}

impl ConfigError {
    /// Whether auto-recovery absorbs this failure when it happens during a load.
    pub fn is_recoverable(&self) -> (r: bool)
        ensures
            r == is_recoverable(*self),
    {
        match self {
            ConfigError::Read | ConfigError::Deserialization => true,
            _ => false,
        }
    }
}

} // verus!
