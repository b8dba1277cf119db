//! The error kinds that the pipeline hands to its caller.

use vstd::prelude::*;
use vstd::string::StringExecFns;

verus! {

/// Why a run of the pipeline ended without a finished file.
#[derive(Clone, Copy, Debug, PartialEq, Eq, Structural)]
pub enum PipelineError {
    /// A buffer is shorter than its declared dimensions call for, or the
    /// dimensions themselves are inconsistent.
    DataIntegrity,
    /// A setting is malformed or out of its range.
    InvalidConfiguration,
    /// The host asked for the run to stop.
    Cancelled,
    /// The encoder rejected a frame or could not finish the file.
    CodecFailure,
}

impl PipelineError {
    /// The text shown to the user for this error.
    pub open spec fn message_text(self) -> Seq<char> {
        match self {
            PipelineError::DataIntegrity => "フレームデータのサイズが不正です"@,
            PipelineError::InvalidConfiguration => "設定値が無効です"@,
            PipelineError::Cancelled => "処理が中断されました"@,
            PipelineError::CodecFailure => "エンコードに失敗しました"@,
        }
    }

    /// Returns the text shown to the user for this error.
    pub fn message(&self) -> (text: String)
        ensures
            text@ == self.message_text(),
    {
        match self {
            PipelineError::DataIntegrity => String::from_str("フレームデータのサイズが不正です"),
            PipelineError::InvalidConfiguration => String::from_str("設定値が無効です"),
            PipelineError::Cancelled => String::from_str("処理が中断されました"),
            PipelineError::CodecFailure => String::from_str("エンコードに失敗しました"),
        }
    }
}

} // verus!
