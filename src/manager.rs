use vstd::prelude::*;
use vstd::string::StringExecFns;

use crate::error::{is_recoverable, ConfigError};
use crate::location::{config_dir_name_spec, config_file_name_spec, locate, ConfigLocation};

verus! {

/// The settings value that a load leaves behind, given what the load attempt
/// produced: the decoded value on success; on a failure that auto-recovery
/// absorbs, the default value; otherwise the value held before.
pub open spec fn value_after_load<T>(
    current: T,
    loaded: Result<T, ConfigError>,
    default: T,
    auto_recovery: bool,
) -> T {
    match loaded {
        Ok(v) => v,
        Err(e) => if auto_recovery && is_recoverable(e) {
            default
        } else {
            current
        },
    }
}

/// What a load reports: success, unless it failed with an error that
/// auto-recovery does not absorb, which is then passed on.
pub open spec fn result_of_load<T>(loaded: Result<T, ConfigError>, auto_recovery: bool) -> Result<
    (),
    ConfigError,
> {
    match loaded {
        Ok(_) => Ok(()),
        Err(e) => if auto_recovery && is_recoverable(e) {
            Ok(())
        } else {
            Err(e)
        },
    }
}

/// Binds a settings value to its configuration file
/// `com.<organization>.<app>/app_config.toml` under the per-user
/// configuration root.
///
/// With auto-recovery on (the default), a load that cannot read the file or
/// cannot decode it resets the value to its default instead of failing. With
/// auto-saving on (the default), the value is to be written back when the
/// manager is released, and the result of that write is discarded.
pub struct AppConfigManager<T> {
    data: T,
    organization_name: String,
    app_name: String,
    auto_recovery: bool,
    auto_saving: bool,
}

impl<T> AppConfigManager<T> {
    /// The settings value held.
    pub closed spec fn spec_data(&self) -> T {
        self.data
    }

    /// The organization name, the middle part of the directory name.
    pub closed spec fn spec_organization_name(&self) -> Seq<char> {
        self.organization_name@
    }

    /// The application name, the last part of the directory name.
    pub closed spec fn spec_app_name(&self) -> Seq<char> {
        self.app_name@
    }

    /// Whether a load absorbs read and decode failures.
    pub closed spec fn spec_auto_recovery(&self) -> bool {
        self.auto_recovery
    }

    /// Whether the value is written back when the manager is released.
    pub closed spec fn spec_auto_saving(&self) -> bool {
        self.auto_saving
    }

    /// A manager for `data`, with both auto-recovery and auto-saving on. It
    /// does not touch the file system.
    pub fn new(data: T, app_name: &str, organization_name: &str) -> (r: Self)
        ensures
            r.spec_data() == data,
            r.spec_app_name() == app_name@,
            r.spec_organization_name() == organization_name@,
            r.spec_auto_recovery(),
            r.spec_auto_saving(),
    {
        AppConfigManager {
            data,
            organization_name: String::from_str(organization_name),
            app_name: String::from_str(app_name),
            auto_recovery: true,
            auto_saving: true,
        }
    }

    /// Applies a finished load attempt to the settings value.
    ///
    /// `loaded` is what reading and decoding the file produced, `default` the
    /// settings type's default value. A decoded value replaces the one held.
    /// With auto-recovery on, a read or decode failure puts `default` in its
    /// place and the load succeeds. Any other failure, and every failure with
    /// auto-recovery off, is returned and leaves the value as it was.
    pub fn apply_load(&mut self, loaded: Result<T, ConfigError>, default: T) -> (r: Result<
        (),
        ConfigError,
    >)
        ensures
            final(self).spec_data() == value_after_load(
                old(self).spec_data(),
                loaded,
                default,
                old(self).spec_auto_recovery(),
            ),
            r == result_of_load(loaded, old(self).spec_auto_recovery()),
            final(self).spec_organization_name() == old(self).spec_organization_name(),
            final(self).spec_app_name() == old(self).spec_app_name(),
            final(self).spec_auto_recovery() == old(self).spec_auto_recovery(),
            final(self).spec_auto_saving() == old(self).spec_auto_saving(),
    {
        match loaded {
            Ok(value) => {
                self.data = value;
                Ok(())
            },
            Err(e) => {
                if self.auto_recovery && e.is_recoverable() {
                    self.data = default;
                    Ok(())
                } else {
                    Err(e)
                }
            },
        }
    }
    /// The location of the configuration file, computed anew from the
    /// organization and application names and the platform's configuration
    /// root. Both load and save go through it.
    pub fn location(&self) -> (r: Result<ConfigLocation, ConfigError>)
        ensures
            r is Err ==> r->Err_0 == ConfigError::PathResolution,
            r is Ok ==> {
                &&& r->Ok_0.dir_name@ == config_dir_name_spec(
                    self.spec_organization_name(),
                    self.spec_app_name(),
                )
                &&& r->Ok_0.file_name@ == config_file_name_spec()
            },
    {
        locate(self.organization_name.as_str(), self.app_name.as_str())
    }

    /// Whether releasing the manager writes the settings value back (a write
    /// whose result is discarded).
    pub fn saves_on_release(&self) -> (r: bool)
        ensures
            r == self.spec_auto_saving(),
    {
        self.auto_saving
    }

    /// The settings value held.
    pub fn data(&self) -> (r: &T)
        ensures
            *r == self.spec_data(),
    {
        &self.data
    }

    /// Mutable access to the settings value; the rest of the manager stays.
    pub fn data_mut(&mut self) -> (r: &mut T)
        ensures
            *r == old(self).spec_data(),
            final(self).spec_data() == *final(r),
            final(self).spec_organization_name() == old(self).spec_organization_name(),
            final(self).spec_app_name() == old(self).spec_app_name(),
            final(self).spec_auto_recovery() == old(self).spec_auto_recovery(),
            final(self).spec_auto_saving() == old(self).spec_auto_saving(),
    {
        &mut self.data
    }

    /// Turns auto-recovery on or off for later loads.
    pub fn set_skip_parsing_error_when_loading(&mut self, value: bool) -> (r: &mut Self)
        ensures
            r.spec_auto_recovery() == value,
            r.spec_data() == old(self).spec_data(),
            r.spec_organization_name() == old(self).spec_organization_name(),
            r.spec_app_name() == old(self).spec_app_name(),
            r.spec_auto_saving() == old(self).spec_auto_saving(),
            *final(self) == *final(r),
    {
        self.auto_recovery = value;
        self
    }
    /// Turns auto-recovery on or off for later loads. Consumes the manager and
    /// returns it.
    pub fn with_skip_parsing_error_when_loading(self, value: bool) -> (r: Self)
        ensures
            r.spec_auto_recovery() == value,
            r.spec_data() == self.spec_data(),
            r.spec_organization_name() == self.spec_organization_name(),
            r.spec_app_name() == self.spec_app_name(),
            r.spec_auto_saving() == self.spec_auto_saving(),
    {
        let mut m = self;
        m.set_skip_parsing_error_when_loading(value);
        m
    }

    /// Turns auto-saving on release on or off.
    pub fn set_auto_saving(&mut self, value: bool) -> (r: &mut Self)
        ensures
            r.spec_auto_saving() == value,
            r.spec_data() == old(self).spec_data(),
            r.spec_organization_name() == old(self).spec_organization_name(),
            r.spec_app_name() == old(self).spec_app_name(),
            r.spec_auto_recovery() == old(self).spec_auto_recovery(),
            *final(self) == *final(r),
    {
        self.auto_saving = value;
        self
    }

    /// Turns auto-saving on release on or off. Consumes the manager and returns it.
    pub fn with_auto_saving(self, value: bool) -> (r: Self)
        ensures
            r.spec_auto_saving() == value,
            r.spec_data() == self.spec_data(),
            r.spec_organization_name() == self.spec_organization_name(),
            r.spec_app_name() == self.spec_app_name(),
            r.spec_auto_recovery() == self.spec_auto_recovery(),
    {
        let mut m = self;
        m.set_auto_saving(value);
        m
    }

    /// Sets the organization name, the middle part of the directory name.
    pub fn set_organization_name(&mut self, value: &str) -> (r: &mut Self)
        ensures
            r.spec_organization_name() == value@,
            r.spec_data() == old(self).spec_data(),
            r.spec_app_name() == old(self).spec_app_name(),
            r.spec_auto_recovery() == old(self).spec_auto_recovery(),
            r.spec_auto_saving() == old(self).spec_auto_saving(),
            *final(self) == *final(r),
    {
        self.organization_name = String::from_str(value);
        self
    }

    /// Sets the organization name, the middle part of the directory name.
    /// Consumes the manager and returns it.
    pub fn with_organization_name(self, value: &str) -> (r: Self)
        ensures
            r.spec_organization_name() == value@,
            r.spec_data() == self.spec_data(),
            r.spec_app_name() == self.spec_app_name(),
            r.spec_auto_recovery() == self.spec_auto_recovery(),
            r.spec_auto_saving() == self.spec_auto_saving(),
    {
        let mut m = self;
        m.set_organization_name(value);
        m
    }

    /// Sets the application name, the last part of the directory name.
    pub fn set_app_name(&mut self, value: &str) -> (r: &mut Self)
        ensures
            r.spec_app_name() == value@,
            r.spec_data() == old(self).spec_data(),
            r.spec_organization_name() == old(self).spec_organization_name(),
            r.spec_auto_recovery() == old(self).spec_auto_recovery(),
            r.spec_auto_saving() == old(self).spec_auto_saving(),
            *final(self) == *final(r),
    {
        self.app_name = String::from_str(value);
        self
    }

    /// Sets the application name, the last part of the directory name.
    /// Consumes the manager and returns it.
    pub fn with_app_name(self, value: &str) -> (r: Self)
        ensures
            r.spec_app_name() == value@,
            r.spec_data() == self.spec_data(),
            r.spec_organization_name() == self.spec_organization_name(),
            r.spec_auto_recovery() == self.spec_auto_recovery(),
            r.spec_auto_saving() == self.spec_auto_saving(),
    {
        let mut m = self;
        m.set_app_name(value);
        m
    }
}

} // verus!
