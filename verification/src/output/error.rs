//! What the registry reports instead of panicking.

use vstd::prelude::*;
use crate::output::object::ObjectShader;

verus! {

/// A caller broke a rule of the registry. The registry is left as it was.
#[derive(Clone, Copy, Debug, PartialEq, Eq, Structural)]
pub enum Error {
    /// No class of the registry has this handle.
    UnknownClass,
    /// The class has no instance with this handle.
    UnknownInstance,
    /// The class still has instances; remove them first.
    ClassNotEmpty,
    /// An index of the instance addresses a vertex its class does not have.
    IndexOutOfBounds,
    /// Every handle number has been given out.
    HandlesExhausted,
    /// The variant the operation needs has not been built.
    VariantUnavailable,
}

/// A shader variant could not be built. The registry stays usable: classes of
/// that kind are skipped when a frame is recorded.
#[derive(Debug)]
pub enum ConfigError {
    /// The crate has no pipeline for this kind.
    Unsupported { kind: ObjectShader },
    /// The device refused the pipeline, for instance because the target format
    /// cannot be rendered to or blended; `message` is the device's own.
    Rejected { kind: ObjectShader, message: String },
}

impl ConfigError {
    /// The kind whose variant could not be built.
    pub open spec fn spec_kind(&self) -> ObjectShader {
        match *self {
            ConfigError::Unsupported { kind } => kind,
            ConfigError::Rejected { kind, .. } => kind,
        }
    }

    /// The kind whose variant could not be built.
    #[verifier::when_used_as_spec(spec_kind)]
    pub fn kind(&self) -> (kind: ObjectShader)
        ensures
            kind == self.spec_kind(),
    {
        match self {
            ConfigError::Unsupported { kind } => *kind,
            ConfigError::Rejected { kind, .. } => *kind,
        }
    }

    /// A copy of the error.
    pub fn duplicate(&self) -> (copy: ConfigError)
        ensures
            copy == *self,
    {
        match self {
            ConfigError::Unsupported { kind } => ConfigError::Unsupported { kind: *kind },
            ConfigError::Rejected { kind, message } => ConfigError::Rejected {
                kind: *kind,
                message: message.clone(),
            },
        }
    }
}

/// Vertex or index data could not be put on the device.
#[derive(Debug)]
pub enum UploadError {
    /// The data has more entries than a draw call or a buffer size can count.
    TooLarge,
    /// The vertex data does not divide into whole vertices of the class's
    /// shader kind.
    Ragged,
    /// The device refused the buffer; `message` is the device's own.
    Rejected { message: String },
}

impl UploadError {
    /// The device's message, empty for an error that is not the device's.
    pub open spec fn spec_message(self) -> Seq<char> {
        match self {
            UploadError::Rejected { message } => message@,
            _ => Seq::empty(),
        }
    }

    /// The device's message, empty for an error that is not the device's.
    pub fn message(self) -> (message: String)
        ensures
            message@ == self.spec_message(),
    {
        match self {
            UploadError::Rejected { message } => message,
            _ => String::new(),
        }
    }

    /// What the device's report makes of a freshly filled buffer: the value
    /// built around it if the device reported nothing, else the report as a
    /// rejection.
    pub fn settle<T>(built: T, report: Option<String>) -> (settled: Result<T, UploadError>)
        ensures
            settled == (match report {
                None => Ok::<T, UploadError>(built),
                Some(message) => Err::<T, UploadError>(UploadError::Rejected { message }),
            }),
    {
        match report {
            None => Ok(built),
            Some(message) => Err(UploadError::Rejected { message }),
        }
    }
}

} // verus!
