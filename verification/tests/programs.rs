use asimov::capabilities::{ListerCapabilities, OptionSupport};
use asimov::command_ext::CommandExt;
use asimov::invocation::{
    adapter_invocation, compiler_invocation, emitter_invocation, fetcher_invocation,
    indexer_invocation, lister_invocation, matcher_invocation, prompter_invocation,
    reader_invocation, reasoner_invocation, resolver_invocation, runner_invocation,
    writer_invocation,
};
use asimov::lister::ListerConfig;
use asimov::options::{
    AdapterOptions, CompilerOptions, EmitterOptions, FetcherOptions, IndexerOptions,
    ListerOptions, MatcherOptions, PrompterOptions, ReaderOptions, ReasonerOptions,
    ResolverOptions, RunnerOptions, WriterOptions,
};
use asimov::streams::{Input, Output, StdioMode};

type GraphInput = Input<(), ()>;
type GraphOutput = Output<()>;

#[test]
fn preserves_explicit_values_argument_boundaries_and_order() {
    let mut args: Vec<String> = Vec::new();
    args.arg("first");
    args.option("missing", None::<&str>);
    args.option_count("offset", Some(0));
    args.option_flag("enabled", Some(false));
    args.option("empty", Some(""));
    args.option("literal", Some("café a=b; '$HOME'\nnext"));
    args.option_count("repeat", Some(1));
    args.option_count("repeat", Some(2));
    args.arg("last");
    assert_eq!(
        args,
        [
            "first",
            "--offset=0",
            "--enabled=false",
            "--empty=",
            "--literal=café a=b; '$HOME'\nnext",
            "--repeat=1",
            "--repeat=2",
            "last",
        ]
    );
}

#[test]
fn test_default_invocation() {
    for options in [
        CompilerOptions::default(),
        CompilerOptions::builder().build(),
    ] {
        let invocation =
            compiler_invocation(&GraphInput::Ignored, &GraphOutput::Captured, &options);
        assert_eq!(invocation.args.len(), 0);
    }
}

#[test]
fn test_argument_boundaries_and_order() {
    let options = CompilerOptions::builder()
        .other("--dataset")
        .maybe_other(Some("value with spaces; $HOME"))
        .maybe_other(None::<&str>)
        .other("--")
        .other("-request with spaces.txt")
        .build();
    let invocation = compiler_invocation(&GraphInput::Ignored, &GraphOutput::Captured, &options);
    assert_eq!(
        invocation.args,
        [
            "--dataset",
            "value with spaces; $HOME",
            "--",
            "-request with spaces.txt",
        ]
    );
}

#[test]
fn test_options() {
    let options = MatcherOptions::builder()
        .input("jsonl")
        .output("nquads")
        .other("--exact")
        .maybe_other(Some("--custom"))
        .maybe_other(None::<&str>)
        .build();
    let invocation = matcher_invocation(&GraphInput::Ignored, &GraphOutput::Captured, &options);
    assert_eq!(
        invocation.args,
        ["--input=jsonl", "--output=nquads", "--exact", "--custom"]
    );
}

#[test]
fn test_default_options() {
    let invocation = matcher_invocation(
        &GraphInput::Ignored,
        &GraphOutput::Captured,
        &MatcherOptions::default(),
    );
    assert_eq!(invocation.args.len(), 0);
}

#[test]
fn limit_forwarding_tracks_capability_changes_without_stale_arguments() {
    let mut lister = ListerConfig::new(
        "example:",
        ListerOptions::builder().offset(2).limit(3).build(),
    );
    for support in [
        OptionSupport::Unknown,
        OptionSupport::Unsupported,
        OptionSupport::Supported,
        OptionSupport::Unsupported,
        OptionSupport::Unknown,
    ] {
        lister = lister.with_capabilities(ListerCapabilities::builder().limit(support).build());
        let arguments = lister.arguments();
        if support == OptionSupport::Unsupported {
            assert_eq!(arguments, ["--offset=2", "example:"]);
        } else {
            assert_eq!(arguments, ["--offset=2", "--limit=3", "example:"]);
        }
    }
}

#[test]
fn forwards_limit_between_offset_and_output() {
    let lister = ListerConfig::new(
        "example:",
        ListerOptions::builder()
            .offset(2)
            .limit(3)
            .output("jsonl")
            .other("--custom")
            .build(),
    );
    assert_eq!(
        lister.arguments(),
        [
            "--offset=2",
            "--limit=3",
            "--output=jsonl",
            "--custom",
            "example:"
        ]
    );

    for (limit, expected) in [(None, None), (Some(0), Some("--limit=0"))] {
        let lister = ListerConfig::new(
            "exit 0",
            ListerOptions {
                limit,
                other: vec!["-c".into()],
                ..Default::default()
            },
        );
        let arguments = lister.arguments();
        assert_eq!(arguments.len(), if limit.is_some() { 3 } else { 2 });
        if let Some(expected) = expected {
            assert_eq!(arguments[0], expected);
        }
    }
}

#[test]
fn cursor_arguments_preserve_uri_spelling_and_boundaries() {
    for support in [OptionSupport::Unknown, OptionSupport::Supported] {
        let lister = ListerConfig::new(
            "example:",
            ListerOptions::builder()
                .sort("rank")
                .before("HTTPS://Example.COM/a%2fb?x=a=b&y=c#end")
                .after("urn:example:item:123")
                .limit(3)
                .output("jsonl")
                .build(),
        )
        .with_capabilities(
            ListerCapabilities::builder()
                .before(support)
                .after(support)
                .build(),
        );
        assert_eq!(
            lister.arguments(),
            [
                "--sort=rank",
                "--before=HTTPS://Example.COM/a%2fb?x=a=b&y=c#end",
                "--after=urn:example:item:123",
                "--limit=3",
                "--output=jsonl",
                "example:"
            ]
        );
    }
}

#[test]
fn lister_stdout_is_piped_whenever_a_limit_is_set() {
    let limited = ListerConfig::new("example:", ListerOptions::builder().limit(1).build());
    let invocation = lister_invocation(&GraphOutput::Ignored, &limited);
    assert_eq!(invocation.stdout, StdioMode::Piped);
    assert_eq!(invocation.stdin, StdioMode::Null);
    let unlimited = ListerConfig::new("example:", ListerOptions::default());
    assert_eq!(lister_invocation(&GraphOutput::Ignored, &unlimited).stdout, StdioMode::Null);
    assert_eq!(lister_invocation(&GraphOutput::Inherited, &unlimited).stdout, StdioMode::Inherit);
}

#[test]
fn program_arguments_follow_each_pattern() {
    let adapter = adapter_invocation(
        &GraphInput::Ignored,
        &GraphOutput::Captured,
        &AdapterOptions::builder().output("jsonl").other("q.rq").build(),
    );
    assert_eq!(adapter.args, ["--output=jsonl", "q.rq"]);
    assert_eq!(adapter.stdin, StdioMode::Null);
    assert_eq!(adapter.stdout, StdioMode::Piped);
    assert_eq!(adapter.stderr, StdioMode::Piped);

    let emitter = emitter_invocation(&GraphOutput::Inherited, &EmitterOptions::builder().output("turtle").build());
    assert_eq!(emitter.args, ["--output=turtle"]);
    assert_eq!(emitter.stdin, StdioMode::Null);
    assert_eq!(emitter.stdout, StdioMode::Inherit);

    let fetcher = fetcher_invocation(
        &GraphOutput::Captured,
        "https://example.com/a b",
        &FetcherOptions::builder().other("-v").build(),
    );
    assert_eq!(fetcher.args, ["-v", "https://example.com/a b"]);

    let indexer = indexer_invocation(
        &Input::<(), u8>::Jsonl(7),
        &IndexerOptions::builder().input("jsonl").other("./catalog.index").build(),
    );
    assert_eq!(indexer.args, ["--input=jsonl", "./catalog.index"]);
    assert_eq!(indexer.stdin, StdioMode::Piped);
    assert_eq!(indexer.stdout, StdioMode::Null);

    let prompter = prompter_invocation(
        &GraphOutput::Captured,
        &PrompterOptions::builder().model("m").input("text").output("text").build(),
    );
    assert_eq!(prompter.args, ["--input=text", "--output=text", "--model=m"]);
    assert_eq!(prompter.stdin, StdioMode::Piped);

    let reader = reader_invocation(
        &Input::<u8, ()>::AsyncRead(1),
        &GraphOutput::Captured,
        &ReaderOptions::builder().input("csv").build(),
    );
    assert_eq!(reader.args, ["--input=csv"]);
    assert_eq!(reader.stdin, StdioMode::Piped);

    let reasoner = reasoner_invocation(
        &GraphInput::Ignored,
        &GraphOutput::Captured,
        &ReasonerOptions::builder().output("jsonl").build(),
    );
    assert_eq!(reasoner.args, ["--output=jsonl"]);

    let writer = writer_invocation(
        &GraphInput::Ignored,
        &Output::AsyncWrite(()),
        &WriterOptions::builder().input("jsonl").output("csv").build(),
    );
    assert_eq!(writer.args, ["--input=jsonl", "--output=csv"]);
    assert_eq!(writer.stdout, StdioMode::Piped);

    let resolver = resolver_invocation(
        &GraphOutput::Captured,
        "urn:isbn:0451450523",
        &ResolverOptions::builder().limit(10).other("-x").build(),
    );
    assert_eq!(resolver.args, ["--limit=10", "-x", "urn:isbn:0451450523"]);
    assert_eq!(resolver.stdin, StdioMode::Null);
}

#[test]
fn runner_definitions_are_forwarded_in_key_order() {
    let options = RunnerOptions::builder()
        .define("mode", "preview")
        .define("expression", "a=b")
        .define("empty", "")
        .other("script.py")
        .build();
    let runner = runner_invocation(&GraphInput::Ignored, &GraphOutput::Captured, &options);
    assert_eq!(
        runner.args,
        [
            "--define=empty=",
            "--define=expression=a=b",
            "--define=mode=preview",
            "script.py"
        ]
    );
}
