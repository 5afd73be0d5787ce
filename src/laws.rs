use vstd::prelude::*;

use crate::error::ConfigError;
use crate::manager::{result_of_load, value_after_load};

verus! {

/// A load whose file decodes to the value that was saved installs exactly
/// that value and succeeds, whatever value was held before and whether
/// auto-recovery is on.
pub proof fn lemma_load_returns_saved<T>(current: T, saved: T, default: T, auto_recovery: bool)
    ensures
        value_after_load(current, Ok::<T, ConfigError>(saved), default, auto_recovery) == saved,
        result_of_load(Ok::<T, ConfigError>(saved), auto_recovery) == Ok::<(), ConfigError>(()),
{
}

/// With auto-recovery on, a load that finds no file to read sets the value
/// to the default and succeeds.
pub proof fn lemma_missing_file_gives_default<T>(current: T, default: T)
    ensures
        value_after_load(current, Err::<T, ConfigError>(ConfigError::Read), default, true)
            == default,
        result_of_load(Err::<T, ConfigError>(ConfigError::Read), true) == Ok::<(), ConfigError>(()),
{
}

/// A load of a file whose content does not decode: with auto-recovery on it
/// sets the value to the default and succeeds; with it off it reports the
/// decode failure and leaves the value as it was.
pub proof fn lemma_malformed_file<T>(current: T, default: T)
    ensures
        value_after_load(current, Err::<T, ConfigError>(ConfigError::Deserialization), default, true)
            == default,
        result_of_load(Err::<T, ConfigError>(ConfigError::Deserialization), true) == Ok::<
            (),
            ConfigError,
        >(()),
        value_after_load(
            current,
            Err::<T, ConfigError>(ConfigError::Deserialization),
            default,
            false,
        ) == current,
        result_of_load(Err::<T, ConfigError>(ConfigError::Deserialization), false) == Err::<
            (),
            ConfigError,
        >(ConfigError::Deserialization),
{
}

} // verus!
