//! What can go wrong around the viewer.

use vstd::prelude::*;
use vstd::string::StringExecFns;

verus! {

/// The failures that end the program.
#[derive(Debug)]
pub enum DevInsightError {
    /// The tool that talks to the device could not be started.
    AdbNotFound,
    /// The output of the device log could not be read; with the reason.
    LogcatCaptureFailed(String),
    /// Reading or writing failed; with the text of the failure.
    IoError(String),
    /// A time stamp was not in the expected form; with the time stamp.
    TimestampError(String),
}

impl DevInsightError {
    /// The message that the failure is reported with.
    pub open spec fn text(self) -> Seq<char> {
        match self {
            DevInsightError::AdbNotFound => "ADB not found or not accessible"@,
            DevInsightError::LogcatCaptureFailed(reason) => "Failed to capture logcat output: "@
                + reason@,
            DevInsightError::IoError(failure) => "IO error: "@ + failure@,
            DevInsightError::TimestampError(stamp) => "Invalid timestamp format: "@ + stamp@,
        }
    }

    /// The message that the failure is reported with.
    pub fn message(&self) -> (s: String)
        ensures
            s@ == self.text(),
    {
        match self {
            DevInsightError::AdbNotFound => "ADB not found or not accessible".to_owned(),
            DevInsightError::LogcatCaptureFailed(reason) => {
                let mut s = "Failed to capture logcat output: ".to_owned();
                s.append(reason.as_str());
                s
            },
            DevInsightError::IoError(failure) => {
                let mut s = "IO error: ".to_owned();
                s.append(failure.as_str());
                s
            },
            DevInsightError::TimestampError(stamp) => {
                let mut s = "Invalid timestamp format: ".to_owned();
                s.append(stamp.as_str());
                s
            },
        }
    }
}

} // verus!
