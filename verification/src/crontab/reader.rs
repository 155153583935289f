use vstd::prelude::*;
use vstd::std_specs::cmp::PartialEqSpecImpl;
use vstd::string::StringExecFns;
use vstd::utf8::{decode_utf8, valid_utf8};

verus! {

/// The text that `String::from_utf8_lossy` makes of `bytes`: their
/// characters, with U+FFFD in place of what is not UTF-8.
pub uninterp spec fn lossy_text(bytes: Seq<u8>) -> Seq<char>;

/// `String::from_utf8_lossy`, made into an owned string. Bytes that are
/// valid UTF-8 come out as the characters that they encode.
#[verifier::external_body]
fn text_from_bytes(bytes: &[u8]) -> (text: String)
    ensures
        text@ == lossy_text(bytes@),
        valid_utf8(bytes@) ==> text@ == decode_utf8(bytes@),
{
    String::from_utf8_lossy(bytes).into_owned()
}

/// What a finished command leaves behind.
#[derive(Debug)]
pub struct Output {
    /// The exit code, or `None` if the process was killed early.
    pub exit_code: Option<i32>,
    /// What the command wrote to its standard output.
    pub stdout: Vec<u8>,
    /// What the command wrote to its standard error.
    pub stderr: Vec<u8>,
}

/// Low level detail about a failure to read the crontab.
#[derive(Debug)]
pub enum ReadErrorDetail {
    /// The command ran and did not exit with status 0.
    NonZeroExit {
        /// The exit code, or `None` if the process was killed early.
        exit_code: Option<i32>,
        /// Standard error, or `None` if empty.
        stderr: Option<String>,
    },
    /// The command could not be run at all.
    CouldNotRunCommand,
}

/// What a [`ReadErrorDetail`] holds, its text as a sequence of characters.
pub enum ReadErrorDetailView {
    NonZeroExit { exit_code: Option<i32>, stderr: Option<Seq<char>> },
    CouldNotRunCommand,
}

impl View for ReadErrorDetail {
    type V = ReadErrorDetailView;

    open spec fn view(&self) -> ReadErrorDetailView {
        match self {
            ReadErrorDetail::NonZeroExit { exit_code, stderr } => ReadErrorDetailView::NonZeroExit {
                exit_code: *exit_code,
                stderr: match stderr {
                    Some(stderr) => Some(stderr@),
                    None => None,
                },
            },
            ReadErrorDetail::CouldNotRunCommand => ReadErrorDetailView::CouldNotRunCommand,
        }
    }
}

impl PartialEq for ReadErrorDetail {
    fn eq(&self, other: &Self) -> (same: bool) {
        match (self, other) {
            (
                ReadErrorDetail::NonZeroExit { exit_code: left_code, stderr: left_text },
                ReadErrorDetail::NonZeroExit { exit_code: right_code, stderr: right_text },
            ) => {
                let same_code = match (left_code, right_code) {
                    (Some(left), Some(right)) => *left == *right,
                    (None, None) => true,
                    _ => false,
                };
                let same_text = match (left_text, right_text) {
                    (Some(left), Some(right)) => *left == *right,
                    (None, None) => true,
                    _ => false,
                };
                same_code && same_text
            },
            (ReadErrorDetail::CouldNotRunCommand, ReadErrorDetail::CouldNotRunCommand) => true,
            _ => false,
        }
    }
}

impl PartialEqSpecImpl for ReadErrorDetail {
    open spec fn obeys_eq_spec() -> bool {
        true
    }

    open spec fn eq_spec(&self, other: &Self) -> bool {
        self@ == other@
    }
}

impl Eq for ReadErrorDetail {

}

/// Why the crontab could not be read.
#[derive(Debug)]
pub struct ReadError {
    /// Explanation of the error in plain English.
    pub reason: &'static str,
    /// Exit code and standard error, where there are any.
    pub detail: ReadErrorDetail,
}

/// What a [`ReadError`] holds, its texts as sequences of characters.
pub struct ReadErrorView {
    pub reason: Seq<char>,
    pub detail: ReadErrorDetailView,
}

impl View for ReadError {
    type V = ReadErrorView;

    open spec fn view(&self) -> ReadErrorView {
        ReadErrorView { reason: self.reason@, detail: self.detail@ }
    }
}

impl PartialEq for ReadError {
    fn eq(&self, other: &Self) -> (same: bool) {
        self.reason.to_owned() == other.reason.to_owned() && self.detail == other.detail
    }
}

impl PartialEqSpecImpl for ReadError {
    open spec fn obeys_eq_spec() -> bool {
        true
    }

    open spec fn eq_spec(&self, other: &Self) -> bool {
        self@ == other@
    }
}

impl Eq for ReadError {

}

impl ReadError {
    /// The reason of the error.
    pub fn to_string(&self) -> (text: String)
        ensures
            text@ == self.reason@,
    {
        String::from_str(self.reason)
    }
}

/// Why a crontab command that did not exit with status 0 is an error.
pub open spec fn unreadable_reason() -> Seq<char> {
    "Cannot read crontab of current user."@
}

/// Why a crontab command that could not be run is an error.
pub open spec fn missing_executable_reason() -> Seq<char> {
    "Unable to locate the crontab executable on the system."@
}

/// What the output of the command that lists the crontab amounts to: the
/// text of the crontab where the command exited with status 0, else an
/// error that carries the exit code and what was written to standard
/// error.
pub open spec fn crontab_of(output: Output) -> Result<Seq<char>, ReadErrorView> {
    if output.exit_code == Some(0i32) {
        Ok(lossy_text(output.stdout@))
    } else {
        Err(
            ReadErrorView {
                reason: unreadable_reason(),
                detail: ReadErrorDetailView::NonZeroExit {
                    exit_code: output.exit_code,
                    stderr: if lossy_text(output.stderr@).len() == 0 {
                        None
                    } else {
                        Some(lossy_text(output.stderr@))
                    },
                },
            },
        )
    }
}

/// The view of what a read came to.
pub open spec fn read_view(read: Result<String, ReadError>) -> Result<Seq<char>, ReadErrorView> {
    match read {
        Ok(text) => Ok(text@),
        Err(error) => Err(error@),
    }
}

/// Makes sense of what the command that lists the current user's crontab
/// gave back.
pub struct Reader;

impl Reader {
    /// The crontab, where the command ran. That it ran does not mean that it
    /// exited with status 0.
    pub fn handle_output_ok(output: &Output) -> (read: Result<String, ReadError>)
        ensures
            read_view(read) == crontab_of(*output),
    {
        let succeeded = match output.exit_code {
            Some(code) => code == 0,
            None => false,
        };
        if succeeded {
            Ok(text_from_bytes(output.stdout.as_slice()))
        } else {
            let stderr = text_from_bytes(output.stderr.as_slice());

            Err(
                ReadError {
                    reason: "Cannot read crontab of current user.",
                    detail: ReadErrorDetail::NonZeroExit {
                        exit_code: output.exit_code,
                        stderr: if stderr.as_str().unicode_len() == 0 {
                            None
                        } else {
                            Some(stderr)
                        },
                    },
                },
            )
        }
    }

    /// The error for a command that could not be run, such as when the
    /// executable is missing.
    pub fn handle_output_err() -> (read: Result<String, ReadError>)
        ensures
            read is Err,
            read->Err_0@ == (ReadErrorView {
                reason: missing_executable_reason(),
                detail: ReadErrorDetailView::CouldNotRunCommand,
            }),
    {
        Err(
            ReadError {
                reason: "Unable to locate the crontab executable on the system.",
                detail: ReadErrorDetail::CouldNotRunCommand,
            },
        )
    }
}

} // verus!
