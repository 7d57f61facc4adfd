//! The library's error type and the text each error reads as.
use vstd::prelude::*;

use crate::text::concat2;

verus! {

/// What can go wrong in a dictation round, each with its message.
#[derive(Debug)]
pub enum VoxioError {
    Validation(String),
    Injection(String),
    Recording(String),
    Transcription(String),
    Io(String),
    Serialization(String),
}

/// An error as a value: its variant and its message.
pub enum ErrorView {
    Validation(Seq<char>),
    Injection(Seq<char>),
    Recording(Seq<char>),
    Transcription(Seq<char>),
    Io(Seq<char>),
    Serialization(Seq<char>),
}

impl View for VoxioError {
    type V = ErrorView;

    open spec fn view(&self) -> ErrorView {
        match self {
            VoxioError::Validation(m) => ErrorView::Validation(m@),
            VoxioError::Injection(m) => ErrorView::Injection(m@),
            VoxioError::Recording(m) => ErrorView::Recording(m@),
            VoxioError::Transcription(m) => ErrorView::Transcription(m@),
            VoxioError::Io(m) => ErrorView::Io(m@),
            VoxioError::Serialization(m) => ErrorView::Serialization(m@),
        }
    }
}

/// The text that an error reads as.
pub open spec fn error_text(e: ErrorView) -> Seq<char> {
    match e {
        ErrorView::Validation(m) => m,
        ErrorView::Injection(m) => "input injection failed: "@ + m,
        ErrorView::Recording(m) => "recording failed: "@ + m,
        ErrorView::Transcription(m) => "transcription failed: "@ + m,
        ErrorView::Io(m) => "io error: "@ + m,
        ErrorView::Serialization(m) => "serialization error: "@ + m,
    }
}

impl VoxioError {
    /// The text that the error reads as.
    pub open spec fn text(&self) -> Seq<char> {
        error_text(self@)
    }

    /// The text that the error reads as.
    pub fn message(&self) -> (r: String)
        ensures
            r@ == self.text(),
    {
        match self {
            VoxioError::Validation(m) => m.clone(),
            VoxioError::Injection(m) => concat2("input injection failed: ", m.as_str()),
            VoxioError::Recording(m) => concat2("recording failed: ", m.as_str()),
            VoxioError::Transcription(m) => concat2("transcription failed: ", m.as_str()),
            VoxioError::Io(m) => concat2("io error: ", m.as_str()),
            VoxioError::Serialization(m) => concat2("serialization error: ", m.as_str()),
        }
    }
}

/// The error is a validation error with exactly this message.
pub open spec fn is_validation(e: VoxioError, message: Seq<char>) -> bool {
    e matches VoxioError::Validation(m) && m@ == message
}

/// The error is a transcription error with exactly this message.
pub open spec fn is_transcription(e: VoxioError, message: Seq<char>) -> bool {
    e matches VoxioError::Transcription(m) && m@ == message
}

/// The error is an injection error with exactly this message.
pub open spec fn is_injection(e: VoxioError, message: Seq<char>) -> bool {
    e matches VoxioError::Injection(m) && m@ == message
}

/// The error is a recording error with exactly this message.
pub open spec fn is_recording(e: VoxioError, message: Seq<char>) -> bool {
    e matches VoxioError::Recording(m) && m@ == message
}

} // verus!
