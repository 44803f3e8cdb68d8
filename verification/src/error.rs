//! The ways in which a task can fail, and the message each of them leaves
//! in the task's record.

use crate::format::DeliveryTarget;
use crate::text::{decimal, decimal_string, join};
use vstd::prelude::*;
use vstd::string::*;

verus! {

/// A failure as a mathematical value: what a `ProcessError` holds.
pub enum Failure {
    /// The probing tool did not exit successfully; holds what it wrote to
    /// its error stream.
    ProbeFailure(Seq<char>),
    /// The probing tool's output is not a width, an `x` and a height; holds
    /// that output.
    ParseFailure(Seq<char>),
    /// The picture's shape is not one that the target takes.
    InvalidAspectRatio(DeliveryTarget),
    /// The requested format names no target.
    UnknownFormat,
    /// The encoding tool failed on the rendition of this height.
    EncodeFailure(u32),
    /// The encoding tool failed on the thumbnail.
    ThumbnailFailure,
    /// The source could not be copied; holds the reason given.
    CopyFailure(Seq<char>),
}

impl Failure {
    /// The text that the failure leaves in the task's record.
    pub open spec fn message(self) -> Seq<char> {
        match self {
            Failure::ProbeFailure(detail) => "ffprobe failed: "@ + detail,
            Failure::ParseFailure(output) => "Invalid ffprobe output: "@ + output,
            Failure::InvalidAspectRatio(DeliveryTarget::Home) =>
                "Invalid aspect ratio for Home (Horizontal expected)"@,
            Failure::InvalidAspectRatio(DeliveryTarget::Flash) =>
                "Invalid aspect ratio for Flash (Vertical expected)"@,
            Failure::UnknownFormat => "Unknown format"@,
            Failure::EncodeFailure(height) => "ffmpeg transcoding to "@ + decimal(height as nat)
                + "p failed"@,
            Failure::ThumbnailFailure => "ffmpeg thumbnail generation failed"@,
            Failure::CopyFailure(detail) => detail,
        }
    }
}

/// Why a task failed. Every failure ends the task it belongs to and no
/// other.
#[derive(Clone, Debug, PartialEq, Eq)]
pub enum ProcessError {
    /// The probing tool did not exit successfully; holds what it wrote to
    /// its error stream.
    ProbeFailure(String),
    /// The probing tool's output is not a width, an `x` and a height; holds
    /// that output.
    ParseFailure(String),
    /// The picture's shape is not one that the target takes.
    InvalidAspectRatio(DeliveryTarget),
    /// The requested format names no target.
    UnknownFormat,
    /// The encoding tool failed on the rendition of this height.
    EncodeFailure(u32),
    /// The encoding tool failed on the thumbnail.
    ThumbnailFailure,
    /// The source could not be copied; holds the reason given.
    CopyFailure(String),
}

impl View for ProcessError {
    type V = Failure;

    open spec fn view(&self) -> Failure {
        match self {
            ProcessError::ProbeFailure(detail) => Failure::ProbeFailure(detail@),
            ProcessError::ParseFailure(output) => Failure::ParseFailure(output@),
            ProcessError::InvalidAspectRatio(target) => Failure::InvalidAspectRatio(*target),
            ProcessError::UnknownFormat => Failure::UnknownFormat,
            ProcessError::EncodeFailure(height) => Failure::EncodeFailure(*height),
            ProcessError::ThumbnailFailure => Failure::ThumbnailFailure,
            ProcessError::CopyFailure(detail) => Failure::CopyFailure(detail@),
        }
    }
}

impl ProcessError {
    /// The text that the failure leaves in the task's record.
    pub fn message(&self) -> (text: String)
        ensures
            text@ == self@.message(),
    {
        match self {
            ProcessError::ProbeFailure(detail) => join("ffprobe failed: ", detail.as_str()),
            ProcessError::ParseFailure(output) => join("Invalid ffprobe output: ", output.as_str()),
            ProcessError::InvalidAspectRatio(DeliveryTarget::Home) => String::from_str(
                "Invalid aspect ratio for Home (Horizontal expected)",
            ),
            ProcessError::InvalidAspectRatio(DeliveryTarget::Flash) => String::from_str(
                "Invalid aspect ratio for Flash (Vertical expected)",
            ),
            ProcessError::UnknownFormat => String::from_str("Unknown format"),
            ProcessError::EncodeFailure(height) => {
                let number = decimal_string(*height);
                join("ffmpeg transcoding to ", number.as_str()).concat("p failed")
            },
            ProcessError::ThumbnailFailure => String::from_str(
                "ffmpeg thumbnail generation failed",
            ),
            ProcessError::CopyFailure(detail) => detail.clone(),
        }
    }

    /// A copy of the failure with the same contents.
    pub fn duplicate(&self) -> (copy: ProcessError)
        ensures
            copy@ == self@,
    {
        match self {
            ProcessError::ProbeFailure(detail) => ProcessError::ProbeFailure(detail.clone()),
            ProcessError::ParseFailure(output) => ProcessError::ParseFailure(output.clone()),
            ProcessError::InvalidAspectRatio(target) => ProcessError::InvalidAspectRatio(*target),
            ProcessError::UnknownFormat => ProcessError::UnknownFormat,
            ProcessError::EncodeFailure(height) => ProcessError::EncodeFailure(*height),
            ProcessError::ThumbnailFailure => ProcessError::ThumbnailFailure,
            ProcessError::CopyFailure(detail) => ProcessError::CopyFailure(detail.clone()),
        }
    }
}

/// The outcome of a fallible step with its error taken as a mathematical
/// value.
pub open spec fn outcome_view<T>(outcome: Result<T, ProcessError>) -> Result<T, Failure> {
    match outcome {
        Ok(value) => Ok(value),
        Err(error) => Err(error@),
    }
}

} // verus!
