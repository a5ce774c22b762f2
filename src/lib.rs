//! Cross-target build interception and artifact collection for packaging a
//! native program as an Android application: target tables, rewriting of the
//! compiler command line, the artifact registry, manifest lookups, template
//! substitution, signing decisions and the deployment steps.
pub mod error;
pub mod profile;
pub mod text;
pub mod targets;
pub mod intercept;
pub mod registry;
pub mod manifest;
pub mod scaffold;
pub mod signing;
pub mod deploy;
pub mod pipeline;
