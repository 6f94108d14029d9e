//! The ways a build can fail.
use vstd::prelude::*;

verus! {

/// A configuration field that must be set once the layers are merged.
#[derive(Clone, Copy, Debug, PartialEq, Eq, Structural)]
pub enum ConfigField {
    TeaclaveSgxSdk,
    Edl,
}

/// Every failure aborts the build.
#[derive(Debug)]
pub enum BuildError {
    /// A required field is absent from both layers.
    MissingConfiguration(ConfigField),
    /// The profile has neither a table entry nor a built-in mode.
    UnknownProfile(String),
    /// A declared path names nothing, or has no file name where one is needed.
    PathResolution(String),
    /// Declared configuration or a tool's output could not be read.
    Parse(String),
    /// An outside program could not be started or failed.
    ExternalTool(String),
    /// The probe reported no value under this name.
    Lookup(String),
}

} // verus!
