use asimov::lister::ListerConfig;
use asimov::options::ListerOptions;
use asimov::pipeline::{
    failure_stage, graph_formats, lister_stage, pick_ready, plan_pipeline, validate_stages,
    StageCheck, StageConfigError, StageFault, Supervisor, TailAction, TailEvent, TailState,
};
use asimov::remote::{base_url, endpoint_url, validate_common, BaseUrlError, ListPlan, RemoteError, RemoteFetch, RemoteListing};
use asimov::options::FetcherOptions;
use asimov::capabilities::OptionSupport;
use asimov::streams::Output;

#[test]
fn graph_formats_must_be_jsonl() {
    assert_eq!(graph_formats(None, None), None);
    assert_eq!(graph_formats(Some("jsonl"), Some("jsonl")), None);
    assert_eq!(
        graph_formats(Some("turtle"), Some("csv")).as_deref(),
        Some("pipeline graph input format must be jsonl, got turtle")
    );
    assert_eq!(
        graph_formats(None, Some("JSONL")).as_deref(),
        Some("pipeline graph output format must be jsonl, got JSONL")
    );
}

fn check(error: Option<&'static str>, external_input: bool, external_writer: bool) -> StageCheck<&'static str> {
    StageCheck { error, external_input, external_writer }
}

#[test]
fn stage_validation_reports_the_first_fault() {
    assert!(validate_stages(vec![check(None, true, false), check(None, false, false), check(None, false, true)]).is_ok());
    assert!(matches!(
        validate_stages(vec![check(None, true, false), check(None, true, false), check(Some("late"), false, false)]),
        Err((1, StageFault::ExternalInput))
    ));
    assert!(matches!(
        validate_stages(vec![check(None, false, true), check(None, false, false)]),
        Err((0, StageFault::IntermediateWriter))
    ));
    assert!(matches!(
        validate_stages(vec![check(None, false, false), check(Some("bad format"), true, true)]),
        Err((1, StageFault::Configuration("bad format")))
    ));
    assert_eq!(
        StageFault::<()>::ExternalInput.wiring_message().as_deref(),
        Some("piped stages must use Input::Ignored; their input comes from the preceding stage")
    );
}

#[test]
fn lister_stages_check_validation_then_format() {
    let (error, capped) = lister_stage(&ListerConfig::new("example:", ListerOptions::builder().output("turtle").limit(2).build()));
    assert!(matches!(error, Some(StageConfigError::Format(m)) if m == "pipeline graph output format must be jsonl, got turtle"));
    assert!(capped);
    let (error, capped) = lister_stage(&ListerConfig::new("example:", ListerOptions::builder().before("").output("turtle").build()));
    assert!(matches!(error, Some(StageConfigError::Lister(_))));
    assert!(!capped);
}

#[test]
fn pipeline_plans_pipes_between_native_stages() {
    let plan = plan_pipeline(3, false);
    assert!(!plan.relayed_source);
    assert_eq!(plan.native.len(), 3);
    assert!(!plan.native[0].stdin_from_pipe && plan.native[0].stdout_to_pipe && !plan.native[0].keeps_output);
    assert!(plan.native[1].stdin_from_pipe && plan.native[1].stdout_to_pipe);
    assert!(plan.native[2].stdin_from_pipe && !plan.native[2].stdout_to_pipe && plan.native[2].keeps_output);

    let plan = plan_pipeline(2, true);
    assert!(plan.relayed_source);
    assert_eq!(plan.native.len(), 1);
    assert_eq!(plan.native[0].index, 1);
    assert!(plan.native[0].stdin_from_relay && !plan.native[0].stdin_from_pipe && plan.native[0].keeps_output);

    assert!(plan_pipeline(1, true).native.is_empty());
    assert_eq!(failure_stage(1, Some(0), true), 0);
    assert_eq!(failure_stage(1, Some(0), false), 1);
    assert_eq!(failure_stage(2, None, true), 2);
}

#[test]
fn supervision_reports_the_first_failure_and_tail_output() {
    assert_eq!(pick_ready(&vec![true, false, true, false]), Some(2));
    assert_eq!(pick_ready(&vec![false, false]), None);

    let mut s: Supervisor<&str> = Supervisor::new(3);
    s.record(0, Ok(b"ignored".to_vec()));
    s.record(2, Ok(b"tail".to_vec()));
    assert!(!s.stop_requested());
    assert_eq!(s.finish().unwrap(), b"tail");

    let mut s: Supervisor<&str> = Supervisor::new(3);
    s.record(2, Err("downstream"));
    assert!(s.stop_requested());
    s.record(0, Err("killed"));
    s.record(1, Ok(Vec::new()));
    assert_eq!(s.finish().unwrap_err(), "downstream");
}

#[test]
fn tail_stream_events() {
    let mut state = TailState { completed: false };
    assert!(matches!(state.step(TailEvent::<u8, &str>::Line(7)), TailAction::Yield(7)));
    assert!(matches!(state.step(TailEvent::<u8, &str>::End), TailAction::Finish { wait: true }));
    assert!(matches!(state.step(TailEvent::<u8, &str>::StagesDone(Ok(()))), TailAction::Continue));
    assert!(state.completed);
    assert!(matches!(state.step(TailEvent::<u8, &str>::End), TailAction::Finish { wait: false }));
    assert!(matches!(state.step(TailEvent::<u8, &str>::ReadError("read")), TailAction::CancelAndFail("read")));
    assert!(matches!(state.step(TailEvent::<u8, &str>::StagesDone(Err("stage"))), TailAction::Fail("stage")));
}

#[test]
fn take_for_stream_moves_a_writer_once() {
    let mut output = Output::AsyncWrite(5u8);
    assert!(matches!(output.take_for_stream(), Output::AsyncWrite(5)));
    assert!(matches!(output, Output::Ignored));
    let mut output: Output<u8> = Output::Captured;
    assert!(matches!(output.take_for_stream(), Output::Captured));
    assert!(output.is_captured());
}

#[test]
fn zero_limit_and_unsupported_options_do_not_start_requests() {
    let listing = RemoteListing::new("https://example.com", ListerOptions::builder().limit(0).build());
    assert!(matches!(listing.plan(), Ok(ListPlan::Empty)));
    assert_eq!(listing.capabilities().limit, OptionSupport::Supported);
    assert_eq!(listing.capabilities().after, OptionSupport::Unsupported);
    for options in [
        ListerOptions::builder().limit(0).after("urn:entry:1").build(),
        ListerOptions::builder().before("urn:entry:2").build(),
        ListerOptions::builder().sort("name").build(),
        ListerOptions::builder().other("--custom").build(),
        ListerOptions::builder().output("turtle").build(),
    ] {
        let listing = RemoteListing::new("https://example.com", options);
        assert!(matches!(listing.plan(), Err(RemoteError::UnsupportedOption(_))));
    }
    let fetch = RemoteFetch::new("https://example.com", FetcherOptions::builder().output("turtle").build());
    assert!(matches!(fetch.request(), Err(RemoteError::UnsupportedOption("output"))));
}

#[test]
fn remote_requests_carry_only_present_options() {
    let listing = RemoteListing::new("https://example.com/c", ListerOptions::builder().offset(1).output("jsonl").build());
    match listing.plan() {
        Ok(ListPlan::Request(request)) => {
            assert_eq!(request.url, "https://example.com/c");
            let options = request.options.unwrap();
            assert_eq!(options.offset, Some(1));
            assert_eq!(options.limit, None);
        },
        _ => panic!("expected a request"),
    }
    let listing = RemoteListing::new("https://example.com/c", ListerOptions::default());
    assert!(matches!(listing.plan(), Ok(ListPlan::Request(request)) if request.options.is_none()));
    let fetch = RemoteFetch::new("https://example.com/profile", FetcherOptions::default());
    assert_eq!(fetch.request().unwrap().urls, ["https://example.com/profile"]);
    assert!(matches!(validate_common(Some("jsonl"), &vec!["x".to_string()]), Err(RemoteError::UnsupportedOption("other"))));
    assert!(validate_common(None, &Vec::new()).is_ok());
}

#[test]
fn configuration_supports_prefixes_and_redacts_token() {
    assert_eq!(
        base_url("https://example.com/api?ignored=1#ignored").unwrap(),
        "https://example.com/api/"
    );
    for url in ["invalid", "file:///tmp/example", "mailto:me@example.com"] {
        assert!(base_url(url).is_err());
    }
}

#[test]
fn base_urls_keep_existing_slashes_and_report_why_they_fail() {
    assert_eq!(base_url("http://127.0.0.1:1").unwrap(), "http://127.0.0.1:1/");
    assert_eq!(base_url("https://example.com/a/b/#frag").unwrap(), "https://example.com/a/b/");
    assert!(matches!(base_url("file:///tmp/example"), Err(BaseUrlError::NotHttpWithHost)));
    let error = base_url("invalid").unwrap_err();
    assert!(matches!(error, BaseUrlError::Unparsable(_)));
    assert_eq!(error.message(), "relative URL without a base");
    assert_eq!(BaseUrlError::NotHttpWithHost.message(), "expected an HTTP(S) URL with a host");
}

#[test]
fn endpoints_stay_on_the_configured_origin() {
    let base = base_url("https://example.com/api").unwrap();
    assert_eq!(endpoint_url(&base, "fetch").unwrap(), "https://example.com/api/fetch");
    assert_eq!(endpoint_url(&base, "/list").unwrap(), "https://example.com/list");
    assert!(matches!(endpoint_url(&base, "https://other.example/fetch"), Err(BaseUrlError::ForeignOrigin)));
    assert!(matches!(endpoint_url(&base, "//other.example/fetch"), Err(BaseUrlError::ForeignOrigin)));
    assert!(matches!(endpoint_url(&base, "http://example.com/fetch"), Err(BaseUrlError::ForeignOrigin)));
    assert!(matches!(endpoint_url("not a url", "fetch"), Err(BaseUrlError::Join(_))));
    assert_eq!(BaseUrlError::ForeignOrigin.message(), "endpoint must use the configured origin");
}
