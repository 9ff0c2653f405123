use vstd::prelude::*;

verus! {

/// Category of a failure reported to the host runtime.
#[derive(Debug, Clone, Copy, PartialEq, Eq, Structural)]
pub enum Status {
    /// The caller passed an argument that cannot be used.
    InvalidArg,
    /// An operation of the analyzer or of the dictionary builder failed.
    GenericFailure,
}

/// A failure with its category and a human-readable message.
#[derive(Debug, Clone, PartialEq, Eq)]
pub struct NativeError {
    pub status: Status,
    pub message: String,
}

impl NativeError {
    /// An error whose message is exactly `message`.
    pub fn new(status: Status, message: &str) -> (r: NativeError)
        ensures
            r.status == status,
            r.message@ == message@,
    {
        NativeError { status, message: message.to_owned() }
    }

    /// A generic failure whose message is `context` followed by `": "` and `detail`.
    pub fn with_context(context: &str, detail: &str) -> (r: NativeError)
        ensures
            r.status == Status::GenericFailure,
            r.message@ == context@ + ": "@ + detail@,
    {
        let mut message = context.to_owned();
        message.append(": ");
        message.append(detail);
        NativeError { status: Status::GenericFailure, message }
    }
}

/// A stage of analyzer construction or analysis that can fail.
#[derive(Debug, Clone, Copy, PartialEq, Eq, Structural)]
pub enum AnalyzerStage {
    LoadConfig,
    LoadDictionary,
    Tokenize,
}

/// The context that a failure at `stage` is reported under.
pub open spec fn stage_context(stage: AnalyzerStage) -> Seq<char> {
    match stage {
        AnalyzerStage::LoadConfig => "Failed to load config"@,
        AnalyzerStage::LoadDictionary => "Failed to create dictionary"@,
        AnalyzerStage::Tokenize => "Tokenization failed"@,
    }
}

impl AnalyzerStage {
    /// The error reported when this stage fails with `detail`.
    pub fn failure(self, detail: &str) -> (r: NativeError)
        ensures
            r.status == Status::GenericFailure,
            r.message@ == stage_context(self) + ": "@ + detail@,
    {
        let context = match self {
            AnalyzerStage::LoadConfig => "Failed to load config",
            AnalyzerStage::LoadDictionary => "Failed to create dictionary",
            AnalyzerStage::Tokenize => "Tokenization failed",
        };
        NativeError::with_context(context, detail)
    }
}

} // verus!
