use audio_convert::notice::{severity_of, Severity};
use audio_convert::outcome::{
    outcome_of_exit, ConvertError, ErrorKind, ExecutionOutcome, ProcessOutput,
};
use audio_convert::paths::{directory_of, named_directory};

fn exited(success: bool, stderr: &[u8]) -> ProcessOutput {
    ProcessOutput { success, stdout: b"frame=1".to_vec(), stderr: stderr.to_vec() }
}

#[test]
fn successful_exit_is_success() {
    let outcome = exited(true, b"warnings only").outcome();
    assert_eq!(outcome, ExecutionOutcome::Success);
    assert!(outcome.is_success());
    assert_eq!(outcome.into_result(), Ok(true));
}

#[test]
fn failed_exit_reports_the_error_stream_verbatim() {
    let text = "ffmpeg version 7\nin.mp4: No such file or directory\n";
    let outcome = exited(false, text.as_bytes()).outcome();
    assert!(!outcome.is_success());
    assert_eq!(
        outcome,
        ExecutionOutcome::Failure(ConvertError {
            kind: ErrorKind::ToolExecutionFailed,
            detail: text.to_string(),
        })
    );
    assert_eq!(outcome.into_result(), Err(text.to_string()));
}

#[test]
fn failed_exit_with_empty_error_stream_has_an_empty_message() {
    assert_eq!(exited(false, b"").outcome().into_result(), Err(String::new()));
}

#[test]
fn output_stream_decides_nothing() {
    let mut output = exited(false, b"bad");
    output.stdout = b"all good".to_vec();
    assert_eq!(output.outcome().into_result(), Err("bad".to_string()));
    let mut output = exited(true, b"bad");
    output.stdout = b"failed".to_vec();
    assert_eq!(output.outcome().into_result(), Ok(true));
}

#[test]
fn streams_are_decoded_with_replacement_characters() {
    let output = ProcessOutput {
        success: false,
        stdout: vec![0x6f, 0x6b, 0xc3, 0x28],
        stderr: vec![0x66, 0xff, 0x6f, 0xe4, 0xb8, 0xad, 0xc0],
    };
    assert_eq!(output.stdout_text(), "ok\u{fffd}(");
    assert_eq!(output.stderr_text(), "f\u{fffd}o\u{4e2d}\u{fffd}");
    assert_eq!(output.outcome().into_result(), Err("f\u{fffd}o\u{4e2d}\u{fffd}".to_string()));
}

#[test]
fn valid_streams_are_decoded_as_they_are() {
    let output = ProcessOutput {
        success: true,
        stdout: "size=  12kB".as_bytes().to_vec(),
        stderr: "转换 done".as_bytes().to_vec(),
    };
    assert_eq!(output.stdout_text(), "size=  12kB");
    assert_eq!(output.stderr_text(), "转换 done");
}

#[test]
fn outcome_of_exit_takes_the_text_as_given() {
    assert_eq!(outcome_of_exit(true, "x".to_string()), ExecutionOutcome::Success);
    assert_eq!(
        outcome_of_exit(false, "x".to_string()),
        ExecutionOutcome::failure(ErrorKind::ToolExecutionFailed, "x".to_string())
    );
}

#[test]
fn message_of_each_kind() {
    let message = |kind: ErrorKind, detail: &str| {
        ConvertError { kind, detail: detail.to_string() }.message()
    };
    assert_eq!(message(ErrorKind::SourceNotFound, "/a/b.mp4"), "输入文件不存在: /a/b.mp4");
    assert_eq!(message(ErrorKind::OutputDirMissing, "/a"), "输出目录不存在: /a");
    assert_eq!(
        message(ErrorKind::ToolNotFound, "/opt/homebrew/bin/ffmpeg"),
        "FFmpeg不存在于路径: /opt/homebrew/bin/ffmpeg"
    );
    assert_eq!(
        message(ErrorKind::ToolLaunchFailed, "Permission denied (os error 13)"),
        "执行命令失败: Permission denied (os error 13)"
    );
    assert_eq!(message(ErrorKind::ToolExecutionFailed, "Invalid data"), "Invalid data");
}

#[test]
fn prefix_of_each_kind() {
    assert_eq!(ErrorKind::SourceNotFound.prefix(), "输入文件不存在: ");
    assert_eq!(ErrorKind::OutputDirMissing.prefix(), "输出目录不存在: ");
    assert_eq!(ErrorKind::ToolNotFound.prefix(), "FFmpeg不存在于路径: ");
    assert_eq!(ErrorKind::ToolLaunchFailed.prefix(), "执行命令失败: ");
    assert_eq!(ErrorKind::ToolExecutionFailed.prefix(), "");
}

#[test]
fn failure_as_result_is_its_message() {
    let outcome = ExecutionOutcome::failure(ErrorKind::SourceNotFound, "in.mp4".to_string());
    assert_eq!(outcome.clone(), outcome);
    assert_eq!(outcome.into_result(), Err("输入文件不存在: in.mp4".to_string()));
}

#[test]
fn directory_of_a_path_with_directories() {
    assert_eq!(directory_of("/tmp/out.mp3"), Some("/tmp".to_string()));
    assert_eq!(directory_of("music/new/out.mp3"), Some("music/new".to_string()));
    assert_eq!(directory_of("./out.mp3"), Some(".".to_string()));
    assert_eq!(directory_of("/out.mp3"), Some("/".to_string()));
    assert_eq!(directory_of("/tmp/dir/"), Some("/tmp".to_string()));
}

#[test]
fn directory_of_a_bare_file_name_is_none() {
    assert_eq!(directory_of("out.mp3"), None);
    assert_eq!(directory_of("ignored.mp3"), None);
}

#[test]
fn directory_of_root_and_empty_path_is_none() {
    assert_eq!(directory_of("/"), None);
    assert_eq!(directory_of(""), None);
}

#[test]
fn named_directory_drops_the_empty_parent() {
    assert_eq!(named_directory(None), None);
    assert_eq!(named_directory(Some(String::new())), None);
    assert_eq!(named_directory(Some("/tmp".to_string())), Some("/tmp".to_string()));
    assert_eq!(named_directory(Some(" ".to_string())), Some(" ".to_string()));
}

#[test]
fn severity_of_each_tag() {
    assert_eq!(severity_of("info"), Severity::Info);
    assert_eq!(severity_of("warning"), Severity::Warning);
    assert_eq!(severity_of("error"), Severity::Error);
}

#[test]
fn severity_of_any_other_tag_is_info() {
    assert_eq!(severity_of(""), Severity::Info);
    assert_eq!(severity_of("Error"), Severity::Info);
    assert_eq!(severity_of("fatal"), Severity::Info);
    assert_eq!(severity_of("warning "), Severity::Info);
}
