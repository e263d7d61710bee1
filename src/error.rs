//! The errors that end an invocation of the shim.
use vstd::prelude::*;

verus! {

/// The exit code of the shim when it fails by itself, rather than through the linker.
pub const GENERIC_FAILURE_CODE: i32 = -1;

/// The external settings that the shim reads.
#[derive(Debug, Clone, Copy, PartialEq, Eq, Structural)]
pub enum SettingName {
    /// Where the linker executable lives.
    LinkerPath,
    /// The WSL distribution that Windows reaches the files through.
    Distro,
    /// The library search path handed to the linker.
    LibDirs,
}

impl SettingName {
    /// The name of the environment variable that holds the setting.
    pub open spec fn spec_variable(&self) -> Seq<char> {
        match self {
            SettingName::LinkerPath => seq!['L', 'I', 'N', 'K', '4', 'W', 'S', 'L', '_', 'P', 'A', 'T', 'H'],
            SettingName::Distro => seq!['L', 'I', 'N', 'K', '4', 'W', 'S', 'L', '_', 'D', 'I', 'S', 'T', 'R', 'O'],
            SettingName::LibDirs => seq![
                'L', 'I', 'N', 'K', '4', 'W', 'S', 'L', '_', 'L', 'I', 'B', '_', 'D', 'I', 'R', 'S',
            ],
        }
    }

    /// The name of the environment variable that holds the setting.
    pub fn variable(&self) -> (r: &'static str)
        ensures
            r@ == self.spec_variable(),
    {
        match self {
            SettingName::LinkerPath => {
                proof {
                    reveal_strlit("LINK4WSL_PATH");
                }
                let r = "LINK4WSL_PATH";
                assert(r@ =~= self.spec_variable());
                r
            },
            SettingName::Distro => {
                proof {
                    reveal_strlit("LINK4WSL_DISTRO");
                }
                let r = "LINK4WSL_DISTRO";
                assert(r@ =~= self.spec_variable());
                r
            },
            SettingName::LibDirs => {
                proof {
                    reveal_strlit("LINK4WSL_LIB_DIRS");
                }
                let r = "LINK4WSL_LIB_DIRS";
                assert(r@ =~= self.spec_variable());
                r
            },
        }
    }
}

/// Why an invocation of the shim failed.
#[derive(Debug, Clone, Copy, PartialEq, Eq, Structural)]
pub enum ShimError {
    /// A required setting is absent.
    MissingConfiguration(SettingName),
    /// A setting is not valid Unicode.
    InvalidConfiguration(SettingName),
    /// The linker could not be started.
    SpawnFailure,
    /// The status of the linker could not be obtained.
    WaitFailure,
    /// The linker was ended by a signal, so it has no exit code.
    SignalTerminated,
    /// The output file's metadata could not be read.
    MetadataFailure,
    /// The output file could not be made executable.
    PermissionFixupFailure,
}

impl ShimError {
    /// The shim's own exit code after this error: always the generic failure code.
    pub fn exit_code(&self) -> (r: i32)
        ensures
            r == GENERIC_FAILURE_CODE,
    {
        GENERIC_FAILURE_CODE
    }
}

} // verus!
