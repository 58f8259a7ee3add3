use asimov::capabilities::{ListerCapabilities, OptionSupport};
use asimov::options::{
    AdapterOptions, CompilerOptions, EmitterOptions, FetcherOptions, IndexerOptions,
    ListerOptions, MatcherOptions, PrompterOptions, ReaderOptions, ReasonerOptions,
    ResolverOptions, RunnerOptions, WriterOptions,
};

#[test]
fn optional_arguments_preserve_order_and_boundaries() {
    let options = AdapterOptions::builder()
        .other("--dataset")
        .maybe_other(Some("value with spaces"))
        .maybe_other(None::<&str>)
        .other("query.rq")
        .build();
    assert_eq!(
        options.other,
        ["--dataset", "value with spaces", "query.rq"]
    );
}

#[test]
fn lister_options_builder_sets_requested_fields() {
    let options = ListerOptions::builder().limit(25).output("jsonl").build();
    assert_eq!(options.limit, Some(25));
    assert_eq!(options.output.as_deref(), Some("jsonl"));
    assert!(options.other.is_empty());
    assert_eq!(options.offset, None);
    assert_eq!(options.sort, None);
}

#[test]
fn defaults_leave_every_field_unset() {
    let a = AdapterOptions::default();
    assert!(a.other.is_empty() && a.output.is_none());
    assert!(CompilerOptions::default().other.is_empty());
    assert!(EmitterOptions::default().output.is_none());
    assert!(FetcherOptions::default().output.is_none());
    assert!(IndexerOptions::default().input.is_none());
    let l = ListerOptions::default();
    assert!(l.sort.is_none() && l.offset.is_none() && l.before.is_none());
    assert!(l.after.is_none() && l.limit.is_none() && l.output.is_none());
    let m = MatcherOptions::default();
    assert!(m.input.is_none() && m.output.is_none());
    let p = PrompterOptions::default();
    assert!(p.input.is_none() && p.model.is_none() && p.output.is_none());
    assert!(ReaderOptions::default().input.is_none());
    assert!(ReasonerOptions::default().output.is_none());
    assert!(ResolverOptions::default().limit.is_none());
    assert!(RunnerOptions::default().define.is_empty());
    assert!(WriterOptions::default().output.is_none());
}

#[test]
fn maybe_setters_leave_none_unset() {
    let options = PrompterOptions::builder()
        .maybe_input(None)
        .model("gpt")
        .maybe_output(Some("text"))
        .build();
    assert_eq!(options.input, None);
    assert_eq!(options.model.as_deref(), Some("gpt"));
    assert_eq!(options.output.as_deref(), Some("text"));
    let options = ResolverOptions::builder().maybe_limit(None).build();
    assert_eq!(options.limit, None);
    let options = ResolverOptions::builder().limit(0).build();
    assert_eq!(options.limit, Some(0));
}

#[test]
fn runner_definitions_replace_and_stay_in_key_order() {
    let options = RunnerOptions::builder()
        .define("mode", "preview")
        .define("expression", "a=b")
        .build();
    assert_eq!(options.define.get("expression"), Some("a=b"));
    assert_eq!(options.define.get("mode"), Some("preview"));
    assert_eq!(options.define.get("missing"), None);
    assert_eq!(options.define.len(), 2);
    assert_eq!(options.define.entry(0), ("expression", "a=b"));
    assert_eq!(options.define.entry(1), ("mode", "preview"));

    let options = RunnerOptions::builder()
        .define("b", "1")
        .define("a", "2")
        .define("b", "3")
        .other("program.py")
        .build();
    assert_eq!(options.define.len(), 2);
    assert_eq!(options.define.entry(0), ("a", "2"));
    assert_eq!(options.define.entry(1), ("b", "3"));
    assert_eq!(options.other, ["program.py"]);
}

#[test]
fn definitions_order_names_by_bytes() {
    let mut d = asimov::definitions::Definitions::new();
    d.insert("é", "1");
    d.insert("z", "2");
    d.insert("Z", "3");
    d.insert("", "4");
    assert_eq!(d.len(), 4);
    assert_eq!(d.entry(0), ("", "4"));
    assert_eq!(d.entry(1), ("Z", "3"));
    assert_eq!(d.entry(2), ("z", "2"));
    assert_eq!(d.entry(3), ("é", "1"));
    let copy = d.clone();
    assert_eq!(copy.entry(3), ("é", "1"));
    assert_eq!(copy.len(), 4);
}

#[test]
fn lister_capabilities_builder_and_default() {
    let capabilities = ListerCapabilities::builder()
        .sort(OptionSupport::Unsupported)
        .offset(OptionSupport::Supported)
        .build();
    assert_eq!(capabilities.sort, OptionSupport::Unsupported);
    assert_eq!(capabilities.offset, OptionSupport::Supported);
    assert_eq!(capabilities.limit, OptionSupport::Unknown);
    assert_eq!(ListerCapabilities::builder().build(), ListerCapabilities::default());
    assert_eq!(ListerCapabilities::default().sort, OptionSupport::Unknown);
    assert_eq!(OptionSupport::default(), OptionSupport::Unknown);
}
