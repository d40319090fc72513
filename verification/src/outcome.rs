//! How a conversion ends: with the output written, or with one failure and
//! the message that describes it.

use vstd::prelude::*;
use vstd::string::StringExecFns;
use vstd::utf8::{decode_utf8, valid_utf8};

verus! {

/// Why a conversion failed.
#[derive(Debug, Clone, Copy, PartialEq, Eq, Structural)]
pub enum ErrorKind {
    /// The source file does not exist.
    SourceNotFound,
    /// The directory the output is to be written into does not exist.
    OutputDirMissing,
    /// The transcoder is not installed where it is looked for.
    ToolNotFound,
    /// The transcoder could not be started.
    ToolLaunchFailed,
    /// The transcoder ran and reported failure.
    ToolExecutionFailed,
}

impl ErrorKind {
    /// What a message of this kind starts with: that the input file does not
    /// exist, that the output directory does not exist, that the transcoder is
    /// not at the path, or that the command could not be run, each followed
    /// by a colon and a space. What the transcoder itself wrote is reported
    /// bare.
    pub open spec fn spec_prefix(self) -> Seq<char> {
        match self {
            ErrorKind::SourceNotFound => "输入文件不存在: "@,
            ErrorKind::OutputDirMissing => "输出目录不存在: "@,
            ErrorKind::ToolNotFound => "FFmpeg不存在于路径: "@,
            ErrorKind::ToolLaunchFailed => "执行命令失败: "@,
            ErrorKind::ToolExecutionFailed => Seq::<char>::empty(),
        }
    }

    /// What a message of this kind starts with.
    pub fn prefix(self) -> (text: &'static str)
        ensures
            text@ == self.spec_prefix(),
    {
        match self {
            ErrorKind::SourceNotFound => "输入文件不存在: ",
            ErrorKind::OutputDirMissing => "输出目录不存在: ",
            ErrorKind::ToolNotFound => "FFmpeg不存在于路径: ",
            ErrorKind::ToolLaunchFailed => "执行命令失败: ",
            ErrorKind::ToolExecutionFailed => {
                proof {
                    reveal_strlit("");
                }
                assert(""@ =~= Seq::<char>::empty());
                ""
            },
        }
    }
}

/// A failed conversion: its kind, and the detail that the kind speaks of.
///
/// The detail is the path that was not found (source, directory or
/// transcoder), the reason the transcoder could not be started, or the text
/// the transcoder wrote to its error stream.
#[derive(Debug, PartialEq, Eq)]
pub struct ConvertError {
    pub kind: ErrorKind,
    pub detail: String,
}

/// What a [`ConvertError`] holds, as mathematics.
pub struct ErrorView {
    pub kind: ErrorKind,
    pub detail: Seq<char>,
}

impl ErrorView {
    /// The message shown for this failure: the prefix of its kind, then the
    /// detail.
    pub open spec fn message(self) -> Seq<char> {
        self.kind.spec_prefix() + self.detail
    }
}

impl View for ConvertError {
    type V = ErrorView;

    open spec fn view(&self) -> ErrorView {
        ErrorView { kind: self.kind, detail: self.detail@ }
    }
}

impl Clone for ConvertError {
    fn clone(&self) -> (copy: Self)
        ensures
            copy == *self,
    {
        ConvertError { kind: self.kind, detail: self.detail.clone() }
    }
}

impl ConvertError {
    /// The message shown for this failure.
    pub fn message(&self) -> (text: String)
        ensures
            text@ == self@.message(),
    {
        String::from_str(self.kind.prefix()).concat(self.detail.as_str())
    }
}

/// The result of one conversion.
#[derive(Debug, PartialEq, Eq)]
pub enum ExecutionOutcome {
    /// The transcoder ran and reported success.
    Success,
    /// The conversion failed, before the transcoder was started or in it.
    Failure(ConvertError),
}

/// What an [`ExecutionOutcome`] holds, as mathematics.
pub enum OutcomeView {
    Success,
    Failure(ErrorView),
}

impl OutcomeView {
    /// The failure of the given kind and detail.
    pub open spec fn failure(kind: ErrorKind, detail: Seq<char>) -> OutcomeView {
        OutcomeView::Failure(ErrorView { kind, detail })
    }

    /// The message of a failure; success has none.
    pub open spec fn message(self) -> Option<Seq<char>> {
        match self {
            OutcomeView::Success => None,
            OutcomeView::Failure(error) => Some(error.message()),
        }
    }
}

impl View for ExecutionOutcome {
    type V = OutcomeView;

    open spec fn view(&self) -> OutcomeView {
        match self {
            ExecutionOutcome::Success => OutcomeView::Success,
            ExecutionOutcome::Failure(error) => OutcomeView::Failure(error@),
        }
    }
}

impl Clone for ExecutionOutcome {
    fn clone(&self) -> (copy: Self)
        ensures
            copy == *self,
    {
        match self {
            ExecutionOutcome::Success => ExecutionOutcome::Success,
            ExecutionOutcome::Failure(error) => ExecutionOutcome::Failure(error.clone()),
        }
    }
}

impl ExecutionOutcome {
    /// The failure of the given kind and detail.
    pub fn failure(kind: ErrorKind, detail: String) -> (outcome: ExecutionOutcome)
        ensures
            outcome@ == OutcomeView::failure(kind, detail@),
    {
        ExecutionOutcome::Failure(ConvertError { kind, detail })
    }

    /// Whether the conversion succeeded.
    pub fn is_success(&self) -> (success: bool)
        ensures
            success == (self@ is Success),
    {
        match self {
            ExecutionOutcome::Success => true,
            ExecutionOutcome::Failure(_) => false,
        }
    }

    /// The outcome as a caller outside the library receives it: `Ok(true)`
    /// for success, the failure's message otherwise.
    pub fn into_result(self) -> (result: Result<bool, String>)
        ensures
            match result {
                Ok(done) => done && self@.message() is None,
                Err(text) => self@.message() == Some(text@),
            },
    {
        match self {
            ExecutionOutcome::Success => Ok(true),
            ExecutionOutcome::Failure(error) => Err(error.message()),
        }
    }
}

/// What is known of the transcoder once it has exited: whether it reported
/// success, and the bytes it wrote to its two streams.
#[derive(Debug, PartialEq, Eq)]
pub struct ProcessOutput {
    pub success: bool,
    pub stdout: Vec<u8>,
    pub stderr: Vec<u8>,
}

/// What `String::from_utf8_lossy` makes of `bytes`: their text, with the
/// replacement character U+FFFD in place of each run of bytes that is no
/// UTF-8.
pub uninterp spec fn utf8_lossy(bytes: Seq<u8>) -> Seq<char>;

/// `String::from_utf8_lossy`, into an owned string. Bytes that are UTF-8
/// throughout come back as the text they encode.
#[verifier::external_body]
fn decode_lossy(bytes: &Vec<u8>) -> (text: String)
    ensures
        text@ == utf8_lossy(bytes@),
        valid_utf8(bytes@) ==> text@ == decode_utf8(bytes@),
{
    String::from_utf8_lossy(bytes).into_owned()
}

/// How an exit of the transcoder is read, given whether it reported success
/// and the text of its error stream: success as success, anything else as a
/// failure whose detail, and whose whole message, is that text.
pub open spec fn spec_outcome_of_exit(success: bool, errors: Seq<char>) -> OutcomeView {
    if success {
        OutcomeView::Success
    } else {
        OutcomeView::failure(ErrorKind::ToolExecutionFailed, errors)
    }
}

/// The outcome of a run that exited: see [`spec_outcome_of_exit`].
pub fn outcome_of_exit(success: bool, errors: String) -> (outcome: ExecutionOutcome)
    ensures
        outcome@ == spec_outcome_of_exit(success, errors@),
{
    if success {
        ExecutionOutcome::Success
    } else {
        ExecutionOutcome::failure(ErrorKind::ToolExecutionFailed, errors)
    }
}

impl ProcessOutput {
    /// What the transcoder wrote to its output stream, as text.
    pub fn stdout_text(&self) -> (text: String)
        ensures
            text@ == utf8_lossy(self.stdout@),
            valid_utf8(self.stdout@) ==> text@ == decode_utf8(self.stdout@),
    {
        decode_lossy(&self.stdout)
    }

    /// What the transcoder wrote to its error stream, as text.
    pub fn stderr_text(&self) -> (text: String)
        ensures
            text@ == utf8_lossy(self.stderr@),
            valid_utf8(self.stderr@) ==> text@ == decode_utf8(self.stderr@),
    {
        decode_lossy(&self.stderr)
    }

    /// The outcome of the run as a spec value.
    pub open spec fn spec_outcome(&self) -> OutcomeView {
        spec_outcome_of_exit(self.success, utf8_lossy(self.stderr@))
    }

    /// The outcome of the run: success if the transcoder reported it, else a
    /// failure whose message is the text of the error stream. The output
    /// stream decides nothing.
    pub fn outcome(&self) -> (outcome: ExecutionOutcome)
        ensures
            outcome@ == self.spec_outcome(),
    {
        outcome_of_exit(self.success, self.stderr_text())
    }
}

/// A run that reported success is a success. A run that did not is a failure
/// whose message is the text of the error stream, with nothing before it and
/// nothing after.
pub proof fn lemma_exit_message_is_error_text(success: bool, errors: Seq<char>)
    ensures
        success ==> spec_outcome_of_exit(success, errors) == OutcomeView::Success,
        !success ==> spec_outcome_of_exit(success, errors).message() == Some(errors),
{
    if !success {
        assert(ErrorKind::ToolExecutionFailed.spec_prefix() + errors =~= errors);
    }
}

} // verus!
