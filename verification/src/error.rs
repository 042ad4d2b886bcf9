//! The failures that an operation can end with.

use vstd::prelude::*;

verus! {

/// Why an operation stopped. Every failure ends the operation it occurs in;
/// none is retried.
#[derive(Clone, Copy, Debug, PartialEq, Eq, Structural)]
pub enum LabelsError {
    /// There is no configuration file.
    ConfigMissing,
    /// The configuration file does not hold a configuration.
    ConfigInvalid,
    /// No access token was supplied.
    CredentialMissing,
    /// The request got no response at all (name lookup, connection, timeout).
    TransportError,
    /// The listing was answered with a status other than 200.
    InvalidResponse,
    /// The listing was answered with a body that is not a list of labels.
    DecodeError,
    /// A label could not be created.
    CreateFailed,
    /// A label could not be deleted.
    DeleteFailed,
}

impl LabelsError {
    /// The text shown to the user for each failure. A configuration file that
    /// is invalid is reported in the words of one that is missing.
    pub open spec fn message_text(self) -> Seq<char> {
        match self {
            LabelsError::ConfigMissing => "no config file found"@,
            LabelsError::ConfigInvalid => "no config file found"@,
            LabelsError::CredentialMissing =>
                "Could not get a token from LABELS_TOKEN env. Make sure you set LABELS_TOKEN env variable."@,
            LabelsError::TransportError => "Error while performing a HTTP request"@,
            LabelsError::InvalidResponse => "Invalid response"@,
            LabelsError::DecodeError => "Could not serialize labels data"@,
            LabelsError::CreateFailed => "Could not create a label"@,
            LabelsError::DeleteFailed => "Could not delete a label"@,
        }
    }

    /// A short message for the user; it names the failure and nothing of the
    /// transport beneath it.
    pub fn message(&self) -> (text: &'static str)
        ensures
            text@ == self.message_text(),
    {
        match self {
            LabelsError::ConfigMissing => "no config file found",
            LabelsError::ConfigInvalid => "no config file found",
            LabelsError::CredentialMissing =>
                "Could not get a token from LABELS_TOKEN env. Make sure you set LABELS_TOKEN env variable.",
            LabelsError::TransportError => "Error while performing a HTTP request",
            LabelsError::InvalidResponse => "Invalid response",
            LabelsError::DecodeError => "Could not serialize labels data",
            LabelsError::CreateFailed => "Could not create a label",
            LabelsError::DeleteFailed => "Could not delete a label",
        }
    }
}

} // verus!
