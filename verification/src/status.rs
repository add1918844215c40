//! The status of a job and its textual form.

use vstd::prelude::*;

use crate::error::Error;

verus! {

/// Where a job stands in its life cycle.
#[derive(Clone, Copy, Debug, PartialEq, Eq, Structural, Hash)]
pub enum JobStatus {
    Queued,
    Processing,
    Completed,
    Failed,
    Cancelled,
}

/// The message of the error that an unknown status text gives.
pub open spec fn invalid_status_message() -> Seq<char> {
    "invalid job status"@
}

impl JobStatus {
    /// The lowercase name under which the status is stored.
    pub open spec fn text(self) -> Seq<char> {
        match self {
            JobStatus::Queued => "queued"@,
            JobStatus::Processing => "processing"@,
            JobStatus::Completed => "completed"@,
            JobStatus::Failed => "failed"@,
            JobStatus::Cancelled => "cancelled"@,
        }
    }

    /// The status that a text names, if it names one.
    pub open spec fn from_text(text: Seq<char>) -> Option<JobStatus> {
        if text == JobStatus::Queued.text() {
            Some(JobStatus::Queued)
        } else if text == JobStatus::Processing.text() {
            Some(JobStatus::Processing)
        } else if text == JobStatus::Completed.text() {
            Some(JobStatus::Completed)
        } else if text == JobStatus::Failed.text() {
            Some(JobStatus::Failed)
        } else if text == JobStatus::Cancelled.text() {
            Some(JobStatus::Cancelled)
        } else {
            None
        }
    }

    /// A terminal status is left only by a purge.
    pub open spec fn is_terminal(self) -> bool {
        self == JobStatus::Completed || self == JobStatus::Failed || self == JobStatus::Cancelled
    }

    /// The stored name of the status.
    pub fn as_str(&self) -> (text: &'static str)
        ensures
            text@ == self.text(),
    {
        match self {
            JobStatus::Queued => "queued",
            JobStatus::Processing => "processing",
            JobStatus::Completed => "completed",
            JobStatus::Failed => "failed",
            JobStatus::Cancelled => "cancelled",
        }
    }

    /// The stored name of the status, owned.
    pub fn to_string(&self) -> (text: String)
        ensures
            text@ == self.text(),
    {
        self.as_str().to_owned()
    }

    /// Reads a stored name. Any text but the five names is an error.
    pub fn parse(text: &str) -> (parsed: Result<JobStatus, Error>)
        ensures
            match parsed {
                Ok(status) => JobStatus::from_text(text@) == Some(status),
                Err(e) => JobStatus::from_text(text@).is_none() && e@ == invalid_status_message(),
            },
    {
        let owned = text.to_owned();
        if owned == JobStatus::Queued.to_string() {
            Ok(JobStatus::Queued)
        } else if owned == JobStatus::Processing.to_string() {
            Ok(JobStatus::Processing)
        } else if owned == JobStatus::Completed.to_string() {
            Ok(JobStatus::Completed)
        } else if owned == JobStatus::Failed.to_string() {
            Ok(JobStatus::Failed)
        } else if owned == JobStatus::Cancelled.to_string() {
            Ok(JobStatus::Cancelled)
        } else {
            Err(Error::string("invalid job status"))
        }
    }
}

/// Two statuses with the same stored name are the same status, and reading
/// the stored name of a status gives that status back.
pub proof fn lemma_status_text_roundtrip(status: JobStatus)
    ensures
        JobStatus::from_text(status.text()) == Some(status),
        forall|other: JobStatus| other.text() == status.text() ==> other == status,
{
    reveal_strlit("queued");
    reveal_strlit("processing");
    reveal_strlit("completed");
    reveal_strlit("failed");
    reveal_strlit("cancelled");
    assert("completed"@[1] == 'o');
    assert("cancelled"@[1] == 'a');
    assert("failed"@[0] == 'f');
    assert("queued"@[0] == 'q');
}

} // verus!
