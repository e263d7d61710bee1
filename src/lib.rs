//! A shim that lets a build inside WSL drive a Windows-native linker: POSIX paths in
//! the arguments become UNC paths, and the linker's outcome is reconciled on the
//! Linux side.
pub mod translate;
pub mod classify;
pub mod error;
pub mod config;
pub mod command;
pub mod outcome;
