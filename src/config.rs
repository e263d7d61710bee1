//! Resolution of the shim's external settings into one immutable configuration.
use vstd::prelude::*;

use crate::error::{SettingName, ShimError};

verus! {

/// One external setting as it was read.
#[derive(Debug, PartialEq, Eq)]
pub enum Setting {
    Present(String),
    Absent,
    /// The setting is there, but not valid Unicode.
    NotUnicode,
}

/// What the linker invocation is configured with.
#[derive(Debug, PartialEq, Eq)]
pub struct LinkerInvocationConfig {
    pub linker_path: String,
    pub distro: String,
    pub lib_dirs: Option<String>,
}

/// The error that a required setting gives, if any.
pub open spec fn required_error(s: Setting, name: SettingName) -> Option<ShimError> {
    match s {
        Setting::Present(_) => None,
        Setting::Absent => Some(ShimError::MissingConfiguration(name)),
        Setting::NotUnicode => Some(ShimError::InvalidConfiguration(name)),
    }
}

/// The error that the optional library path gives, if any: only a malformed one.
pub open spec fn optional_error(s: Setting, name: SettingName) -> Option<ShimError> {
    match s {
        Setting::NotUnicode => Some(ShimError::InvalidConfiguration(name)),
        _ => None,
    }
}

/// The first error among the settings, in the order linker path, distribution,
/// library path.
pub open spec fn config_error(linker_path: Setting, distro: Setting, lib_dirs: Setting) -> Option<
    ShimError,
> {
    if required_error(linker_path, SettingName::LinkerPath) is Some {
        required_error(linker_path, SettingName::LinkerPath)
    } else if required_error(distro, SettingName::Distro) is Some {
        required_error(distro, SettingName::Distro)
    } else {
        optional_error(lib_dirs, SettingName::LibDirs)
    }
}

impl LinkerInvocationConfig {
    /// The configuration holds exactly the values of the three settings.
    pub open spec fn holds_settings(&self, linker_path: Setting, distro: Setting, lib_dirs: Setting) -> bool {
        &&& linker_path == Setting::Present(self.linker_path)
        &&& distro == Setting::Present(self.distro)
        &&& match self.lib_dirs {
            Some(d) => lib_dirs == Setting::Present(d),
            None => lib_dirs == Setting::Absent,
        }
    }
}

/// The value of a required setting, or the error that it gives.
fn required(s: Setting, name: SettingName) -> (r: Result<String, ShimError>)
    ensures
        match r {
            Ok(v) => s == Setting::Present(v),
            Err(e) => required_error(s, name) == Some(e),
        },
{
    match s {
        Setting::Present(v) => Ok(v),
        Setting::Absent => Err(ShimError::MissingConfiguration(name)),
        Setting::NotUnicode => Err(ShimError::InvalidConfiguration(name)),
    }
}

/// Builds the configuration from the three settings as read, failing on the first
/// that is missing or malformed.
pub fn resolve_config(linker_path: Setting, distro: Setting, lib_dirs: Setting) -> (r: Result<
    LinkerInvocationConfig,
    ShimError,
>)
    ensures
        match r {
            Ok(c) => config_error(linker_path, distro, lib_dirs) is None && c.holds_settings(
                linker_path,
                distro,
                lib_dirs,
            ),
            Err(e) => config_error(linker_path, distro, lib_dirs) == Some(e),
        },
{
    let ghost (l0, d0, b0) = (linker_path, distro, lib_dirs);
    let linker_path = match required(linker_path, SettingName::LinkerPath) {
        Ok(v) => v,
        Err(e) => return Err(e),
    };
    let distro = match required(distro, SettingName::Distro) {
        Ok(v) => v,
        Err(e) => return Err(e),
    };
    let lib_dirs = match lib_dirs {
        Setting::Present(v) => Some(v),
        Setting::Absent => None,
        Setting::NotUnicode => return Err(ShimError::InvalidConfiguration(SettingName::LibDirs)),
    };
    let c = LinkerInvocationConfig { linker_path, distro, lib_dirs };
    assert(c.holds_settings(l0, d0, b0));
    Ok(c)
}

} // verus!
