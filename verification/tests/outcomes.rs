use asimov::completion::{
    exit_failure_message, stderr_text, CompletionError, ExecutionCompletion, ExitInfo, FeedEvent,
    InputCompletion, OutputPump, PumpAction, PumpEvent,
};
use asimov::resolver::{parse_urls, ResolverOutputError};

#[test]
fn parses_urls_without_normalization() {
    let urls = parse_urls(
        b"HTTPS://Example.COM/a%2fb?q=x,y\r\nhttps://example.com/\nhttps://example.com/",
    )
    .unwrap();
    assert_eq!(
        urls,
        [
            "HTTPS://Example.COM/a%2fb?q=x,y",
            "https://example.com/",
            "https://example.com/"
        ]
    );
    assert!(parse_urls(b"").unwrap().is_empty());
}

#[test]
fn rejects_malformed_records() {
    for bytes in [
        b"\n".as_slice(),
        b"\r\n",
        b"https://example.com/\n\n",
        b"relative/path",
        b" https://example.com/",
        b"https://example.com/ ",
        b"https://example.com/a b",
        b"https://example.com/\t",
        b"https://example.com/\r",
        b"https://example.com/\0",
        b"\xff",
    ] {
        assert!(parse_urls(bytes).is_err(), "{bytes:?}");
    }
}

#[test]
fn record_errors_name_the_first_bad_line() {
    assert_eq!(
        parse_urls(b"https://example.com/\nnot a URL\nalso bad"),
        Err(ResolverOutputError::InvalidRecord { line: 2 })
    );
    assert_eq!(parse_urls(b"ok:a\n\xff\n"), Err(ResolverOutputError::InvalidUtf8));
    assert_eq!(
        parse_urls(b"https://example.com/\n\n"),
        Err(ResolverOutputError::InvalidRecord { line: 2 })
    );
    assert_eq!(
        ResolverOutputError::record_message(2),
        "invalid URL on resolver output line 2"
    );
    assert_eq!(
        parse_urls("urn:caf\u{e9}\r\nhttps://example.net/".as_bytes()).unwrap(),
        ["urn:caf\u{e9}", "https://example.net/"]
    );
}

fn completion(success: bool, code: Option<i32>, input: InputCompletion<&'static str, &'static str>) -> ExecutionCompletion<&'static str, &'static str> {
    ExecutionCompletion {
        status: ExitInfo { success, code },
        stdout: b"out".to_vec(),
        stderr: b"diagnostic".to_vec(),
        input,
    }
}

#[test]
fn completion_precedence_keeps_the_cause() {
    assert!(matches!(completion(true, Some(0), InputCompletion::Complete).into_result(), Ok(out) if out == b"out"));
    assert!(matches!(completion(false, Some(65), InputCompletion::SourceFailed("source")).into_result(), Err(CompletionError::Source("source"))));
    assert!(matches!(
        completion(false, Some(65), InputCompletion::WriteFailed { error: "write", broken_pipe: false }).into_result(),
        Err(CompletionError::Write("write"))
    ));
    assert!(matches!(
        completion(false, Some(65), InputCompletion::WriteFailed { error: "pipe", broken_pipe: true }).into_result(),
        Err(CompletionError::Exit { code: Some(65), stderr: Some(text) }) if text == "diagnostic"
    ));
    assert!(matches!(
        completion(true, Some(0), InputCompletion::WriteFailed { error: "pipe", broken_pipe: true }).into_result(),
        Err(CompletionError::Write("pipe"))
    ));
    assert!(matches!(completion(true, Some(0), InputCompletion::Interrupted).into_result(), Err(CompletionError::IncompleteInput)));
    assert!(matches!(
        completion(false, None, InputCompletion::Interrupted).into_result(),
        Err(CompletionError::Exit { code: None, .. })
    ));
}

#[test]
fn feed_events_decide_termination() {
    assert!(matches!(FeedEvent::<(), ()>::Finished.settle(), (InputCompletion::Complete, false)));
    assert!(matches!(FeedEvent::<u8, ()>::SourceError(1).settle(), (InputCompletion::SourceFailed(1), true)));
    assert!(matches!(
        FeedEvent::<(), u8>::WriteError { error: 2, broken_pipe: true }.settle(),
        (InputCompletion::WriteFailed { error: 2, broken_pipe: true }, false)
    ));
    assert!(matches!(
        FeedEvent::<(), u8>::WriteError { error: 3, broken_pipe: false }.settle(),
        (InputCompletion::WriteFailed { error: 3, broken_pipe: false }, true)
    ));
    assert!(matches!(FeedEvent::<(), ()>::ChildExited.settle(), (InputCompletion::Interrupted, false)));
}

#[test]
fn exit_messages_show_code_and_stderr() {
    assert_eq!(exit_failure_message(true, Some(65), Some("failed")), "Command failed with exit code 65\nfailed");
    assert_eq!(exit_failure_message(false, None, None), "Command failed with unexpected exit code: -1");
    assert_eq!(exit_failure_message(false, Some(i32::MIN), None), "Command failed with unexpected exit code: -2147483648");
    assert_eq!(exit_failure_message(false, Some(1), Some("")), "Command failed with unexpected exit code: 1\n");
    assert_eq!(stderr_text(b"\xff"), None);
    assert_eq!(stderr_text(b""), Some(String::new()));
}

#[test]
fn output_pump_delivers_lines_before_settling() {
    let mut pump: OutputPump<&str> = OutputPump::new();
    assert!(matches!(pump.step(PumpEvent::<u8, &str, ()>::Line(1)), PumpAction::Yield(1)));
    assert!(matches!(pump.step(PumpEvent::<u8, &str, ()>::Exited("done")), PumpAction::Continue));
    assert!(pump.has_exited());
    assert!(matches!(pump.step(PumpEvent::<u8, &str, ()>::Line(2)), PumpAction::Yield(2)));
    assert!(matches!(pump.step(PumpEvent::<u8, &str, ()>::End), PumpAction::Settle(Some("done"))));
    let mut pump: OutputPump<&str> = OutputPump::new();
    assert!(matches!(pump.step(PumpEvent::<u8, &str, ()>::End), PumpAction::Settle(None)));
    assert!(matches!(pump.step(PumpEvent::<u8, &str, &str>::ReadError("read")), PumpAction::Fail("read")));
}
