use vstd::prelude::*;

verus! {

/// The three families of failure that the pipeline distinguishes.
#[derive(Clone, Copy, Debug, PartialEq, Eq, Structural)]
pub enum ErrorKind {
    /// A bad input or environment: nothing was run.
    Configuration,
    /// A spawned tool exited with a failure status.
    ExternalTool,
    /// A built artifact could not be located.
    ArtifactResolution,
}

/// Every failure that a pipeline stage reports.
#[derive(Debug)]
pub enum BuildError {
    /// The target identifier is not one of the supported ones.
    UnknownTarget(String),
    /// A required environment variable is not set.
    MissingEnvVar(String),
    /// The manifest is not valid TOML.
    MalformedManifest,
    /// A keystore file was given without its passphrase.
    MissingKeystorePassword,
    /// The command word is not one of `build`, `run` or `sign`.
    UnknownCommand(String),
    /// A spawned program exited with a failure status.
    ToolFailed(String),
    /// The compiler printed no file name for the library it builds.
    MissingFileName,
    /// A second artifact was reported for a target that already has one.
    DuplicateArtifact(String),
    /// A requested target has no artifact after the build.
    MissingArtifact(String),
    /// No build-tools version is installed in the SDK.
    NoBuildTools,
    /// The device reported no numeric process id for the application.
    ProcessNotFound,
}

impl BuildError {
    /// Whether this is the unknown-target error for `t`.
    pub open spec fn is_unknown_target(&self, t: Seq<char>) -> bool {
        match self {
            BuildError::UnknownTarget(s) => s@ == t,
            _ => false,
        }
    }

    pub open spec fn spec_kind(&self) -> ErrorKind {
        match self {
            BuildError::UnknownTarget(_) => ErrorKind::Configuration,
            BuildError::MissingEnvVar(_) => ErrorKind::Configuration,
            BuildError::MalformedManifest => ErrorKind::Configuration,
            BuildError::MissingKeystorePassword => ErrorKind::Configuration,
            BuildError::UnknownCommand(_) => ErrorKind::Configuration,
            BuildError::ToolFailed(_) => ErrorKind::ExternalTool,
            BuildError::MissingFileName => ErrorKind::ArtifactResolution,
            BuildError::DuplicateArtifact(_) => ErrorKind::ArtifactResolution,
            BuildError::MissingArtifact(_) => ErrorKind::ArtifactResolution,
            BuildError::NoBuildTools => ErrorKind::Configuration,
            BuildError::ProcessNotFound => ErrorKind::ExternalTool,
        }
    }

    /// The family that this error belongs to.
    pub fn kind(&self) -> (r: ErrorKind)
        ensures
            r == self.spec_kind(),
    {
        match self {
            BuildError::UnknownTarget(_) => ErrorKind::Configuration,
            BuildError::MissingEnvVar(_) => ErrorKind::Configuration,
            BuildError::MalformedManifest => ErrorKind::Configuration,
            BuildError::MissingKeystorePassword => ErrorKind::Configuration,
            BuildError::UnknownCommand(_) => ErrorKind::Configuration,
            BuildError::ToolFailed(_) => ErrorKind::ExternalTool,
            BuildError::MissingFileName => ErrorKind::ArtifactResolution,
            BuildError::DuplicateArtifact(_) => ErrorKind::ArtifactResolution,
            BuildError::MissingArtifact(_) => ErrorKind::ArtifactResolution,
            BuildError::NoBuildTools => ErrorKind::Configuration,
            BuildError::ProcessNotFound => ErrorKind::ExternalTool,
        }
    }
}

} // verus!
