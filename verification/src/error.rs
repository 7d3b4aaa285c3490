use vstd::prelude::*;
use vstd::string::*;

verus! {

/// What can go wrong while loading or while a frame runs.
#[derive(Debug, Clone, PartialEq, Eq)]
pub enum EngineError {
    /// A descriptor named a type identifier that no factory is registered for.
    UnknownLoadType(String),
    /// A payload could not be decoded into the configuration it was meant for.
    DeserializationError(String),
    /// The lock around the world could not be taken.
    LockAcquisitionFailure,
    /// The graphics backend refused a frame.
    RenderError(String),
    /// Something that a step relies on is not there.
    MissingRequiredResource(String),
}

/// The mathematical content of an [`EngineError`].
pub enum ErrorModel {
    UnknownLoadType(Seq<char>),
    DeserializationError(Seq<char>),
    LockAcquisitionFailure,
    RenderError(Seq<char>),
    MissingRequiredResource(Seq<char>),
}

impl View for EngineError {
    type V = ErrorModel;

    open spec fn view(&self) -> ErrorModel {
        match self {
            EngineError::UnknownLoadType(id) => ErrorModel::UnknownLoadType(id@),
            EngineError::DeserializationError(what) => ErrorModel::DeserializationError(what@),
            EngineError::LockAcquisitionFailure => ErrorModel::LockAcquisitionFailure,
            EngineError::RenderError(what) => ErrorModel::RenderError(what@),
            EngineError::MissingRequiredResource(what) => ErrorModel::MissingRequiredResource(
                what@,
            ),
        }
    }
}

/// The text that opens the message of each kind of error.
pub open spec fn message_prefix(e: ErrorModel) -> Seq<char> {
    match e {
        ErrorModel::UnknownLoadType(_) => "unknown load type: "@,
        ErrorModel::DeserializationError(_) => "malformed payload: "@,
        ErrorModel::LockAcquisitionFailure => "failed to lock the world"@,
        ErrorModel::RenderError(_) => "render failed: "@,
        ErrorModel::MissingRequiredResource(_) => "missing required resource: "@,
    }
}

/// The detail that an error carries: the offending identifier or description.
pub open spec fn message_detail(e: ErrorModel) -> Seq<char> {
    match e {
        ErrorModel::UnknownLoadType(id) => id,
        ErrorModel::DeserializationError(what) => what,
        ErrorModel::LockAcquisitionFailure => Seq::<char>::empty(),
        ErrorModel::RenderError(what) => what,
        ErrorModel::MissingRequiredResource(what) => what,
    }
}

impl EngineError {
    /// A message for the user: the kind of failure, then what it was about.
    pub fn message(&self) -> (text: String)
        ensures
            text@ == message_prefix(self@) + message_detail(self@),
    {
        match self {
            EngineError::UnknownLoadType(id) => {
                String::from_str("unknown load type: ").concat(id.as_str())
            },
            EngineError::DeserializationError(what) => {
                String::from_str("malformed payload: ").concat(what.as_str())
            },
            EngineError::LockAcquisitionFailure => {
                let text = String::from_str("failed to lock the world");
                assert(text@ + Seq::<char>::empty() =~= text@);
                text
            },
            EngineError::RenderError(what) => {
                String::from_str("render failed: ").concat(what.as_str())
            },
            EngineError::MissingRequiredResource(what) => {
                String::from_str("missing required resource: ").concat(what.as_str())
            },
        }
    }
}

} // verus!
