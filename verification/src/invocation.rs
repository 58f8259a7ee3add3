//! How each program pattern is invoked: its argument list and the
//! configuration of its three standard streams. Stderr is always piped so that
//! its text can accompany an unsuccessful exit.

use vstd::prelude::*;
use vstd::string::*;

use crate::command_ext::{CommandExt, option_args, count_text, opt_string, as_text};
use crate::definitions::names_increase;
use crate::capabilities::OptionSupport;
use crate::lister::{ListerConfig, lister_args};
use crate::options::{AdapterOptions, CompilerOptions, EmitterOptions, FetcherOptions, IndexerOptions, MatcherOptions, PrompterOptions, ReaderOptions, ReasonerOptions, ResolverOptions, RunnerOptions, WriterOptions};
use crate::streams::{Input, Output, StdioMode, input_stdio, output_stdio};
use crate::text::{long_option, string_views, long_option_string, decimal_spec};

verus! {

/// A program's command line and standard-stream configuration.
pub struct Invocation {
    /// The arguments after the program name, each one literal argument.
    pub args: Vec<String>,
    /// How stdin is connected.
    pub stdin: StdioMode,
    /// How stdout is connected.
    pub stdout: StdioMode,
    /// How stderr is connected.
    pub stderr: StdioMode,
}

/// One when an option is set, zero otherwise: how many arguments it adds.
pub open spec fn present<A>(value: Option<A>) -> int {
    if value is Some {
        1
    } else {
        0
    }
}

/// The argument views of an invocation.
pub open spec fn invocation_args(i: Invocation) -> Seq<Seq<char>> {
    string_views(i.args@)
}

/// The command line of an adapter.
pub open spec fn adapter_args(o: AdapterOptions) -> Seq<Seq<char>> {
    option_args("output"@, opt_string(o.output)) + string_views(o.other@)
}

/// Invokes an adapter: `--output`, then `other`; stdin and stdout follow the policies.
pub fn adapter_invocation<R, J, W>(input: &Input<R, J>, output: &Output<W>, options: &AdapterOptions) -> (r: Invocation)
    ensures
        invocation_args(r) == adapter_args(*options),
        invocation_args(r).len() == (present(options.output)) + options.other@.len(),
        options.output matches Some(v) ==> invocation_args(r)[0] == long_option("output"@, v@),
        invocation_args(r).subrange(present(options.output), (present(options.output)) + options.other@.len()) == string_views(options.other@),
        r.stdin == input_stdio(*input),
        r.stdout == output_stdio(*output),
        r.stderr == StdioMode::Piped,
{
    let mut args: Vec<String> = Vec::new();
    assert(string_views(args@) =~= Seq::<Seq<char>>::empty());
    args.option("output", as_text(&options.output));
    args.args(&options.other);
    proof {
        reveal_strlit("output");
    }
    Invocation { args, stdin: input.as_stdio(), stdout: output.as_stdio(), stderr: StdioMode::Piped }
}

/// The command line of a compiler.
pub open spec fn compiler_args(o: CompilerOptions) -> Seq<Seq<char>> {
    string_views(o.other@)
}

/// Invokes a compiler: only `other`, since the pattern defines no format or model flags.
pub fn compiler_invocation<R, J, W>(input: &Input<R, J>, output: &Output<W>, options: &CompilerOptions) -> (r: Invocation)
    ensures
        invocation_args(r) == compiler_args(*options),
        invocation_args(r).len() == options.other@.len(),
        invocation_args(r).subrange(0, options.other@.len() as int) == string_views(options.other@),
        r.stdin == input_stdio(*input),
        r.stdout == output_stdio(*output),
        r.stderr == StdioMode::Piped,
{
    let mut args: Vec<String> = Vec::new();
    assert(string_views(args@) =~= Seq::<Seq<char>>::empty());
    args.args(&options.other);
    Invocation { args, stdin: input.as_stdio(), stdout: output.as_stdio(), stderr: StdioMode::Piped }
}

/// The command line of an emitter.
pub open spec fn emitter_args(o: EmitterOptions) -> Seq<Seq<char>> {
    option_args("output"@, opt_string(o.output)) + string_views(o.other@)
}

/// Invokes an emitter: `--output`, then `other`; stdin is the null device.
pub fn emitter_invocation<W>(output: &Output<W>, options: &EmitterOptions) -> (r: Invocation)
    ensures
        invocation_args(r) == emitter_args(*options),
        invocation_args(r).len() == (present(options.output)) + options.other@.len(),
        options.output matches Some(v) ==> invocation_args(r)[0] == long_option("output"@, v@),
        invocation_args(r).subrange(present(options.output), (present(options.output)) + options.other@.len()) == string_views(options.other@),
        r.stdin == StdioMode::Null,
        r.stdout == output_stdio(*output),
        r.stderr == StdioMode::Piped,
{
    let mut args: Vec<String> = Vec::new();
    assert(string_views(args@) =~= Seq::<Seq<char>>::empty());
    args.option("output", as_text(&options.output));
    args.args(&options.other);
    proof {
        reveal_strlit("output");
    }
    Invocation { args, stdin: StdioMode::Null, stdout: output.as_stdio(), stderr: StdioMode::Piped }
}

/// The command line of a fetcher.
pub open spec fn fetcher_args(o: FetcherOptions, url: Seq<char>) -> Seq<Seq<char>> {
    option_args("output"@, opt_string(o.output)) + string_views(o.other@) + seq![url]
}

/// Invokes a fetcher: `--output`, then `other`, then the resource URL as one argument; stdin is the null device.
pub fn fetcher_invocation<W>(output: &Output<W>, url: &str, options: &FetcherOptions) -> (r: Invocation)
    ensures
        invocation_args(r) == fetcher_args(*options, url@),
        invocation_args(r).len() == (present(options.output)) + options.other@.len() + 1,
        options.output matches Some(v) ==> invocation_args(r)[0] == long_option("output"@, v@),
        invocation_args(r).subrange(present(options.output), (present(options.output)) + options.other@.len()) == string_views(options.other@),
        invocation_args(r)[(present(options.output)) + options.other@.len()] == url@,
        r.stdin == StdioMode::Null,
        r.stdout == output_stdio(*output),
        r.stderr == StdioMode::Piped,
{
    let mut args: Vec<String> = Vec::new();
    assert(string_views(args@) =~= Seq::<Seq<char>>::empty());
    args.option("output", as_text(&options.output));
    args.args(&options.other);
    args.arg(url);
    proof {
        reveal_strlit("output");
    }
    Invocation { args, stdin: StdioMode::Null, stdout: output.as_stdio(), stderr: StdioMode::Piped }
}

/// The command line of an indexer.
pub open spec fn indexer_args(o: IndexerOptions) -> Seq<Seq<char>> {
    option_args("input"@, opt_string(o.input)) + string_views(o.other@)
}

/// Invokes an indexer: `--input`, then `other`; stdout is the null device.
pub fn indexer_invocation<R, J>(input: &Input<R, J>, options: &IndexerOptions) -> (r: Invocation)
    ensures
        invocation_args(r) == indexer_args(*options),
        invocation_args(r).len() == (present(options.input)) + options.other@.len(),
        options.input matches Some(v) ==> invocation_args(r)[0] == long_option("input"@, v@),
        invocation_args(r).subrange(present(options.input), (present(options.input)) + options.other@.len()) == string_views(options.other@),
        r.stdin == input_stdio(*input),
        r.stdout == StdioMode::Null,
        r.stderr == StdioMode::Piped,
{
    let mut args: Vec<String> = Vec::new();
    assert(string_views(args@) =~= Seq::<Seq<char>>::empty());
    args.option("input", as_text(&options.input));
    args.args(&options.other);
    proof {
        reveal_strlit("input");
    }
    Invocation { args, stdin: input.as_stdio(), stdout: StdioMode::Null, stderr: StdioMode::Piped }
}

/// The command line of a matcher.
pub open spec fn matcher_args(o: MatcherOptions) -> Seq<Seq<char>> {
    option_args("input"@, opt_string(o.input)) + option_args("output"@, opt_string(o.output)) + string_views(o.other@)
}

/// Invokes a matcher: `--input`, `--output`, then `other`.
pub fn matcher_invocation<R, J, W>(input: &Input<R, J>, output: &Output<W>, options: &MatcherOptions) -> (r: Invocation)
    ensures
        invocation_args(r) == matcher_args(*options),
        invocation_args(r).len() == (present(options.input) + present(options.output)) + options.other@.len(),
        options.input matches Some(v) ==> invocation_args(r)[0] == long_option("input"@, v@),
        options.output matches Some(v) ==> invocation_args(r)[present(options.input)] == long_option("output"@, v@),
        invocation_args(r).subrange(present(options.input) + present(options.output), (present(options.input) + present(options.output)) + options.other@.len()) == string_views(options.other@),
        r.stdin == input_stdio(*input),
        r.stdout == output_stdio(*output),
        r.stderr == StdioMode::Piped,
{
    let mut args: Vec<String> = Vec::new();
    assert(string_views(args@) =~= Seq::<Seq<char>>::empty());
    args.option("input", as_text(&options.input));
    args.option("output", as_text(&options.output));
    args.args(&options.other);
    proof {
        reveal_strlit("input");
        reveal_strlit("output");
    }
    Invocation { args, stdin: input.as_stdio(), stdout: output.as_stdio(), stderr: StdioMode::Piped }
}

/// The command line of a prompter.
pub open spec fn prompter_args(o: PrompterOptions) -> Seq<Seq<char>> {
    option_args("input"@, opt_string(o.input)) + option_args("output"@, opt_string(o.output)) + option_args("model"@, opt_string(o.model)) + string_views(o.other@)
}

/// Invokes a prompter: `--input`, `--output`, `--model`, then `other`; stdin is always a pipe for the prompt.
pub fn prompter_invocation<W>(output: &Output<W>, options: &PrompterOptions) -> (r: Invocation)
    ensures
        invocation_args(r) == prompter_args(*options),
        invocation_args(r).len() == (present(options.input) + present(options.output) + present(options.model)) + options.other@.len(),
        options.input matches Some(v) ==> invocation_args(r)[0] == long_option("input"@, v@),
        options.output matches Some(v) ==> invocation_args(r)[present(options.input)] == long_option("output"@, v@),
        options.model matches Some(v) ==> invocation_args(r)[present(options.input) + present(options.output)] == long_option("model"@, v@),
        invocation_args(r).subrange(present(options.input) + present(options.output) + present(options.model), (present(options.input) + present(options.output) + present(options.model)) + options.other@.len()) == string_views(options.other@),
        r.stdin == StdioMode::Piped,
        r.stdout == output_stdio(*output),
        r.stderr == StdioMode::Piped,
{
    let mut args: Vec<String> = Vec::new();
    assert(string_views(args@) =~= Seq::<Seq<char>>::empty());
    args.option("input", as_text(&options.input));
    args.option("output", as_text(&options.output));
    args.option("model", as_text(&options.model));
    args.args(&options.other);
    proof {
        reveal_strlit("input");
        reveal_strlit("output");
        reveal_strlit("model");
    }
    Invocation { args, stdin: StdioMode::Piped, stdout: output.as_stdio(), stderr: StdioMode::Piped }
}

/// The command line of a reader.
pub open spec fn reader_args(o: ReaderOptions) -> Seq<Seq<char>> {
    option_args("input"@, opt_string(o.input)) + option_args("output"@, opt_string(o.output)) + string_views(o.other@)
}

/// Invokes a reader: `--input`, `--output`, then `other`.
pub fn reader_invocation<R, J, W>(input: &Input<R, J>, output: &Output<W>, options: &ReaderOptions) -> (r: Invocation)
    ensures
        invocation_args(r) == reader_args(*options),
        invocation_args(r).len() == (present(options.input) + present(options.output)) + options.other@.len(),
        options.input matches Some(v) ==> invocation_args(r)[0] == long_option("input"@, v@),
        options.output matches Some(v) ==> invocation_args(r)[present(options.input)] == long_option("output"@, v@),
        invocation_args(r).subrange(present(options.input) + present(options.output), (present(options.input) + present(options.output)) + options.other@.len()) == string_views(options.other@),
        r.stdin == input_stdio(*input),
        r.stdout == output_stdio(*output),
        r.stderr == StdioMode::Piped,
{
    let mut args: Vec<String> = Vec::new();
    assert(string_views(args@) =~= Seq::<Seq<char>>::empty());
    args.option("input", as_text(&options.input));
    args.option("output", as_text(&options.output));
    args.args(&options.other);
    proof {
        reveal_strlit("input");
        reveal_strlit("output");
    }
    Invocation { args, stdin: input.as_stdio(), stdout: output.as_stdio(), stderr: StdioMode::Piped }
}

/// The command line of a reasoner.
pub open spec fn reasoner_args(o: ReasonerOptions) -> Seq<Seq<char>> {
    option_args("input"@, opt_string(o.input)) + option_args("output"@, opt_string(o.output)) + string_views(o.other@)
}

/// Invokes a reasoner: `--input`, `--output`, then `other`.
pub fn reasoner_invocation<R, J, W>(input: &Input<R, J>, output: &Output<W>, options: &ReasonerOptions) -> (r: Invocation)
    ensures
        invocation_args(r) == reasoner_args(*options),
        invocation_args(r).len() == (present(options.input) + present(options.output)) + options.other@.len(),
        options.input matches Some(v) ==> invocation_args(r)[0] == long_option("input"@, v@),
        options.output matches Some(v) ==> invocation_args(r)[present(options.input)] == long_option("output"@, v@),
        invocation_args(r).subrange(present(options.input) + present(options.output), (present(options.input) + present(options.output)) + options.other@.len()) == string_views(options.other@),
        r.stdin == input_stdio(*input),
        r.stdout == output_stdio(*output),
        r.stderr == StdioMode::Piped,
{
    let mut args: Vec<String> = Vec::new();
    assert(string_views(args@) =~= Seq::<Seq<char>>::empty());
    args.option("input", as_text(&options.input));
    args.option("output", as_text(&options.output));
    args.args(&options.other);
    proof {
        reveal_strlit("input");
        reveal_strlit("output");
    }
    Invocation { args, stdin: input.as_stdio(), stdout: output.as_stdio(), stderr: StdioMode::Piped }
}

/// The command line of a resolver.
pub open spec fn resolver_args(o: ResolverOptions, uri: Seq<char>) -> Seq<Seq<char>> {
    option_args("limit"@, count_text(o.limit)) + string_views(o.other@) + seq![uri]
}

/// Invokes a resolver: `--limit`, then `other`, then the URI as one argument; stdin is the null device.
pub fn resolver_invocation<W>(output: &Output<W>, uri: &str, options: &ResolverOptions) -> (r: Invocation)
    ensures
        invocation_args(r) == resolver_args(*options, uri@),
        invocation_args(r).len() == (present(options.limit)) + options.other@.len() + 1,
        options.limit matches Some(v) ==> invocation_args(r)[0] == long_option("limit"@, decimal_spec(v as nat)),
        invocation_args(r).subrange(present(options.limit), (present(options.limit)) + options.other@.len()) == string_views(options.other@),
        invocation_args(r)[(present(options.limit)) + options.other@.len()] == uri@,
        r.stdin == StdioMode::Null,
        r.stdout == output_stdio(*output),
        r.stderr == StdioMode::Piped,
{
    let mut args: Vec<String> = Vec::new();
    assert(string_views(args@) =~= Seq::<Seq<char>>::empty());
    args.option_count("limit", options.limit);
    args.args(&options.other);
    args.arg(uri);
    proof {
        reveal_strlit("limit");
    }
    Invocation { args, stdin: StdioMode::Null, stdout: output.as_stdio(), stderr: StdioMode::Piped }
}

/// The command line of a writer.
pub open spec fn writer_args(o: WriterOptions) -> Seq<Seq<char>> {
    option_args("input"@, opt_string(o.input)) + option_args("output"@, opt_string(o.output)) + string_views(o.other@)
}

/// Invokes a writer: `--input`, `--output`, then `other`.
pub fn writer_invocation<R, J, W>(input: &Input<R, J>, output: &Output<W>, options: &WriterOptions) -> (r: Invocation)
    ensures
        invocation_args(r) == writer_args(*options),
        invocation_args(r).len() == (present(options.input) + present(options.output)) + options.other@.len(),
        options.input matches Some(v) ==> invocation_args(r)[0] == long_option("input"@, v@),
        options.output matches Some(v) ==> invocation_args(r)[present(options.input)] == long_option("output"@, v@),
        invocation_args(r).subrange(present(options.input) + present(options.output), (present(options.input) + present(options.output)) + options.other@.len()) == string_views(options.other@),
        r.stdin == input_stdio(*input),
        r.stdout == output_stdio(*output),
        r.stderr == StdioMode::Piped,
{
    let mut args: Vec<String> = Vec::new();
    assert(string_views(args@) =~= Seq::<Seq<char>>::empty());
    args.option("input", as_text(&options.input));
    args.option("output", as_text(&options.output));
    args.args(&options.other);
    proof {
        reveal_strlit("input");
        reveal_strlit("output");
    }
    Invocation { args, stdin: input.as_stdio(), stdout: output.as_stdio(), stderr: StdioMode::Piped }
}

/// The `--define=NAME=VALUE` argument of each definition, in name order.
pub open spec fn define_args(entries: Seq<(Seq<char>, Seq<char>)>) -> Seq<Seq<char>> {
    entries.map_values(|e: (Seq<char>, Seq<char>)| long_option("define"@, e.0 + "="@ + e.1))
}

/// The command line of a runner: one `--define=NAME=VALUE` per definition, in
/// name order, then `other`.
pub open spec fn runner_args(o: RunnerOptions) -> Seq<Seq<char>> {
    define_args(o.define.ordered_entries()) + string_views(o.other@)
}

/// Invokes a runner: its definitions in increasing byte order of their names,
/// then `other`; stdin and stdout follow the policies. Names and values are not
/// validated: a name holding `=` is passed as it is.
pub fn runner_invocation<R, J, W>(
    input: &Input<R, J>,
    output: &Output<W>,
    options: &RunnerOptions,
) -> (r: Invocation)
    ensures
        invocation_args(r) == runner_args(*options),
        invocation_args(r).len() == options.define.ordered_entries().len() + options.other@.len(),
        forall|i: int|
            0 <= i < options.define.ordered_entries().len() ==> invocation_args(r)[i] == long_option(
                "define"@,
                (#[trigger] options.define.ordered_entries()[i]).0 + "="@ + options.define.ordered_entries()[i].1,
            ),
        invocation_args(r).subrange(
            options.define.ordered_entries().len() as int,
            (options.define.ordered_entries().len() + options.other@.len()) as int,
        ) == string_views(options.other@),
        names_increase(options.define.ordered_entries()),
        options.define.ordered_entries().len() == options.define@.len(),
        r.stdin == input_stdio(*input),
        r.stdout == output_stdio(*output),
        r.stderr == StdioMode::Piped,
{
    let mut args: Vec<String> = Vec::new();
    let defs = &options.define;
    let n = defs.len();
    let mut i: usize = 0;
    proof {
        reveal_strlit("define");
        reveal_strlit("=");
    }
    while i < n
        invariant
            i <= n,
            n == defs.ordered_entries().len(),
            string_views(args@) == define_args(defs.ordered_entries().take(i as int)),
        decreases n - i,
    {
        let (k, v) = defs.entry(i);
        let mut value = String::from_str(k);
        value.append("=");
        value.append(v);
        let ghost before = args@;
        args.push(long_option_string("define", value.as_str()));
        proof {
            let e = defs.ordered_entries()[i as int];
            assert(defs.ordered_entries().take(i + 1) =~= defs.ordered_entries().take(i as int).push(e));
            assert(string_views(args@) =~= string_views(before).push(long_option("define"@, e.0 + "="@ + e.1)));
        }
        i = i + 1;
    }
    assert(defs.ordered_entries().take(n as int) =~= defs.ordered_entries());
    args.args(&options.other);
    Invocation { args, stdin: input.as_stdio(), stdout: output.as_stdio(), stderr: StdioMode::Piped }
}

/// Invokes a lister: its arguments, null stdin, stdout piped whenever a limit
/// is set (the local cap must see every line), and piped stderr.
pub fn lister_invocation<W>(output: &Output<W>, config: &ListerConfig) -> (r: Invocation)
    ensures
        invocation_args(r) == lister_args(config.options, config.capabilities, config.input@),
        ({
            let o = config.options;
            let a = invocation_args(r);
            let limit = if config.capabilities.limit == OptionSupport::Unsupported {
                None::<usize>
            } else {
                o.limit
            };
            let at_offset = present(o.sort);
            let at_before = at_offset + present(o.offset);
            let at_after = at_before + present(o.before);
            let at_limit = at_after + present(o.after);
            let at_output = at_limit + present(limit);
            let at_other = at_output + present(o.output);
            let at_url = at_other + o.other@.len();
            &&& a.len() == at_url + 1
            &&& o.sort matches Some(v) ==> a[0] == long_option("sort"@, v@)
            &&& o.offset matches Some(v) ==> a[at_offset] == long_option("offset"@, decimal_spec(v as nat))
            &&& o.before matches Some(v) ==> a[at_before] == long_option("before"@, v@)
            &&& o.after matches Some(v) ==> a[at_after] == long_option("after"@, v@)
            &&& limit matches Some(v) ==> a[at_limit] == long_option("limit"@, decimal_spec(v as nat))
            &&& o.output matches Some(v) ==> a[at_output] == long_option("output"@, v@)
            &&& a.subrange(at_other, at_url) == string_views(o.other@)
            &&& a[at_url] == config.input@
        }),
        r.stdin == StdioMode::Null,
        r.stdout == if config.options.limit is Some {
            StdioMode::Piped
        } else {
            output_stdio(*output)
        },
        r.stderr == StdioMode::Piped,
{
    Invocation {
        args: config.arguments(),
        stdin: StdioMode::Null,
        stdout: config.stdout(output),
        stderr: StdioMode::Piped,
    }
}

/// Every format given to a reasoner reaches its command line: `--input=` with
/// the input format first, then `--output=` with the output format, then the
/// extra arguments in order, and nothing else.
pub proof fn lemma_reasoner_formats_are_passed(o: ReasonerOptions)
    ensures
        reasoner_args(o).len() == present(o.input) + present(o.output) + o.other@.len(),
        o.input matches Some(v) ==> reasoner_args(o)[0] == long_option("input"@, v@),
        o.output matches Some(v) ==> reasoner_args(o)[present(o.input)] == long_option("output"@, v@),
        reasoner_args(o).subrange(present(o.input) + present(o.output), reasoner_args(o).len() as int)
            == string_views(o.other@),
{
    assert(string_views(o.other@).len() == o.other@.len());
    assert(reasoner_args(o).subrange(present(o.input) + present(o.output), reasoner_args(o).len() as int)
        =~= string_views(o.other@));
}

} // verus!
