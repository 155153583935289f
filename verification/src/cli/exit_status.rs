use crate::crontab::reader::{ReadError, ReadErrorDetailView, ReadErrorView};
use crate::crontab::{RunResult, RunResultDetail, RunResultDetailView, RunResultView};
use vstd::prelude::*;
use vstd::std_specs::convert::FromSpecImpl;

verus! {

/// The status that the program exits with.
#[derive(Copy, Clone, Debug, Eq, PartialEq, Structural)]
pub enum ExitStatus {
    /// Status 0.
    Success,
    /// Status 1.
    Failure,
    /// Status 2: the arguments were wrong.
    ArgsError,
    /// Any other status.
    Code(u8),
}

/// The exit status that stands for `code`.
pub open spec fn status_of_u8(code: u8) -> ExitStatus {
    if code == 0 {
        ExitStatus::Success
    } else if code == 1 {
        ExitStatus::Failure
    } else if code == 2 {
        ExitStatus::ArgsError
    } else {
        ExitStatus::Code(code)
    }
}

/// The exit status that stands for `code`: a plain failure where `code`
/// is no status that a process can exit with, from 0 to 255.
pub open spec fn status_of_i32(code: i32) -> ExitStatus {
    if 0 <= code <= 255 {
        status_of_u8(code as u8)
    } else {
        ExitStatus::Failure
    }
}

impl From<u8> for ExitStatus {
    fn from(code: u8) -> (status: Self) {
        match code {
            0 => Self::Success,
            1 => Self::Failure,
            2 => Self::ArgsError,
            code => Self::Code(code),
        }
    }
}

impl FromSpecImpl<u8> for ExitStatus {
    open spec fn obeys_from_spec() -> bool {
        true
    }

    open spec fn from_spec(code: u8) -> Self {
        status_of_u8(code)
    }
}

impl From<i32> for ExitStatus {
    fn from(code: i32) -> (status: Self) {
        if code >= 0 && code <= 255 {
            ExitStatus::from(code as u8)
        } else {
            // Default to generic exit 1.
            Self::Failure
        }
    }
}

impl FromSpecImpl<i32> for ExitStatus {
    open spec fn obeys_from_spec() -> bool {
        true
    }

    open spec fn from_spec(code: i32) -> Self {
        status_of_i32(code)
    }
}

impl ExitStatus {
    /// The number that the system gets.
    pub fn code(self) -> (code: u8)
        ensures
            code == match self {
                ExitStatus::Success => 0u8,
                ExitStatus::Failure => 1u8,
                ExitStatus::ArgsError => 2u8,
                ExitStatus::Code(code) => code,
            },
    {
        match self {
            Self::Success => 0,
            Self::Failure => 1,
            Self::ArgsError => 2,
            Self::Code(code) => code,
        }
    }
}

/// The status to exit with when the crontab could not be read: that of
/// the command that was to list it, where it has one, else a plain failure.
pub open spec fn status_of_read_error(error: ReadErrorView) -> ExitStatus {
    match error.detail {
        ReadErrorDetailView::NonZeroExit { exit_code: Some(exit_code), .. } => status_of_i32(
            exit_code,
        ),
        _ => ExitStatus::Failure,
    }
}

/// The status to exit with after a run: success where the job succeeded or
/// was started in detached mode, the job's own exit code where it has one,
/// else a plain failure.
pub open spec fn status_of_run_result(result: RunResultView) -> ExitStatus {
    if result.was_successful {
        ExitStatus::Success
    } else {
        match result.detail {
            RunResultDetailView::DidNotRun { .. } => ExitStatus::Failure,
            RunResultDetailView::DidRun { exit_code: None } => ExitStatus::Failure,
            RunResultDetailView::DidRun { exit_code: Some(exit_code) } => status_of_i32(exit_code),
            RunResultDetailView::IsRunning { .. } => ExitStatus::Success,
        }
    }
}

/// The status to exit with when the crontab could not be read.
pub fn exit_from_crontab_read_error(error: &ReadError) -> (status: ExitStatus)
    ensures
        status == status_of_read_error(error@),
{
    if let crate::crontab::reader::ReadErrorDetail::NonZeroExit { exit_code, .. } = &error.detail {
        if let Some(exit_code) = exit_code {
            return ExitStatus::from(*exit_code);
        }
    }
    ExitStatus::Failure
}

/// The status to exit with after a run.
pub fn exit_from_run_result(result: &RunResult) -> (status: ExitStatus)
    ensures
        status == status_of_run_result(result@),
{
    if result.was_successful {
        return ExitStatus::Success;
    }
    match &result.detail {
        RunResultDetail::DidNotRun { .. } => ExitStatus::Failure,
        RunResultDetail::DidRun { exit_code: None } => ExitStatus::Failure,
        RunResultDetail::DidRun { exit_code: Some(exit_code) } => ExitStatus::from(*exit_code),
        RunResultDetail::IsRunning { .. } => ExitStatus::Success,
    }
}

/// `text` without the line feed at its end, if it ends with one.
pub open spec fn without_final_newline(text: Seq<char>) -> Seq<char> {
    if text.len() > 0 && text.last() == '\n' {
        text.drop_last()
    } else {
        text
    }
}

/// Takes one line feed off the end of `text`, so that printing it as a
/// line does not leave an empty line behind.
pub fn strip_terminating_newline(text: &str) -> (stripped: &str)
    ensures
        stripped@ == without_final_newline(text@),
{
    let n = text.unicode_len();
    if n > 0 && text.get_char(n - 1) == '\n' {
        proof {
            assert(text@.subrange(0, n - 1) =~= text@.drop_last());
        }
        text.substring_char(0, n - 1)
    } else {
        text
    }
}

} // verus!
