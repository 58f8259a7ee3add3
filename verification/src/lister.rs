//! Listing a collection URL through an external lister program: arguments,
//! validation of pagination and capabilities, the listing plan, and the local
//! line cap that bounds output even when a program ignores `--limit`.

use vstd::prelude::*;
use vstd::string::*;

use crate::capabilities::{ListerCapabilities, OptionSupport};
use crate::command_ext::{CommandExt, option_args, count_text, opt_string, as_text};
use crate::options::ListerOptions;
use crate::streams::{Output, StdioMode, output_stdio};
use crate::text::string_views;
use crate::uri::{is_absolute_uri, is_absolute_uri_text};

verus! {

/// A request that a lister rejects before starting a program.
#[derive(Debug)]
pub enum ListerError {
    /// Malformed pagination, reported as an I/O `InvalidInput` error.
    InvalidInput(String),
    /// A requested option that the program is declared not to support.
    UnsupportedOption(&'static str),
}

/// The message for an offset combined with a cursor bound.
pub open spec fn mixed_pagination_message() -> Seq<char> {
    "lister offset cannot be combined with before/after cursors"@
}

/// The message for a malformed cursor bound `option`.
pub open spec fn cursor_message(option: Seq<char>) -> Seq<char> {
    "lister "@ + option + " must be an absolute entry URI (JSON-LD @id)"@
}

/// A numeric offset is combined with a URI cursor bound.
pub open spec fn offset_with_cursor(o: ListerOptions) -> bool {
    o.offset is Some && (o.before is Some || o.after is Some)
}

/// A cursor bound is present and is not an absolute URI.
pub open spec fn bad_cursor(bound: Option<String>) -> bool {
    bound matches Some(s) && !is_absolute_uri(s@)
}

/// Pagination is well formed: no offset with a cursor, and every cursor bound
/// is an absolute URI.
pub open spec fn pagination_ok(o: ListerOptions) -> bool {
    !offset_with_cursor(o) && !bad_cursor(o.before) && !bad_cursor(o.after)
}

/// The result of checking pagination: the offset/cursor conflict first, then
/// `--before`, then `--after`.
pub open spec fn pagination_result(o: ListerOptions, r: Result<(), ListerError>) -> bool {
    if offset_with_cursor(o) {
        r matches Err(ListerError::InvalidInput(m)) && m@ == mixed_pagination_message()
    } else if bad_cursor(o.before) {
        r matches Err(ListerError::InvalidInput(m)) && m@ == cursor_message("--before"@)
    } else if bad_cursor(o.after) {
        r matches Err(ListerError::InvalidInput(m)) && m@ == cursor_message("--after"@)
    } else {
        r is Ok
    }
}

/// A request is made for an option that is declared unsupported.
pub open spec fn refused(requested: bool, support: OptionSupport) -> bool {
    requested && support == OptionSupport::Unsupported
}

/// The result of checking capabilities, in the order sort, offset, before, after.
/// The limit is never refused: the runner enforces it locally.
pub open spec fn capability_result(
    o: ListerOptions,
    c: ListerCapabilities,
    r: Result<(), ListerError>,
) -> bool {
    if refused(o.sort is Some, c.sort) {
        r matches Err(ListerError::UnsupportedOption(n)) && n@ == "--sort"@
    } else if refused(o.offset is Some, c.offset) {
        r matches Err(ListerError::UnsupportedOption(n)) && n@ == "--offset"@
    } else if refused(o.before is Some, c.before) {
        r matches Err(ListerError::UnsupportedOption(n)) && n@ == "--before"@
    } else if refused(o.after is Some, c.after) {
        r matches Err(ListerError::UnsupportedOption(n)) && n@ == "--after"@
    } else {
        r is Ok
    }
}

/// A refusal names an option that was requested and is declared `Unsupported`.
pub open spec fn only_unsupported_refused(o: ListerOptions, c: ListerCapabilities, name: Seq<char>) -> bool {
    ||| name == "--sort"@ && o.sort is Some && c.sort == OptionSupport::Unsupported
    ||| name == "--offset"@ && o.offset is Some && c.offset == OptionSupport::Unsupported
    ||| name == "--before"@ && o.before is Some && c.before == OptionSupport::Unsupported
    ||| name == "--after"@ && o.after is Some && c.after == OptionSupport::Unsupported
}

/// The full validation result: pagination first, then capabilities.
pub open spec fn validation_result(
    o: ListerOptions,
    c: ListerCapabilities,
    r: Result<(), ListerError>,
) -> bool {
    if pagination_ok(o) {
        capability_result(o, c, r)
    } else {
        pagination_result(o, r)
    }
}

/// The `--limit` request that is forwarded: omitted when native limit support
/// is declared unsupported.
pub open spec fn forwarded_limit(o: ListerOptions, c: ListerCapabilities) -> Option<usize> {
    if c.limit == OptionSupport::Unsupported {
        None
    } else {
        o.limit
    }
}

/// The lister command line: `--sort`, `--offset`, `--before`, `--after`,
/// `--limit` and `--output` when set, in that order, then `other`, then the
/// collection URL as one argument.
pub open spec fn lister_args(o: ListerOptions, c: ListerCapabilities, url: Seq<char>) -> Seq<
    Seq<char>,
> {
    option_args("sort"@, opt_string(o.sort)) + option_args("offset"@, count_text(o.offset))
        + option_args("before"@, opt_string(o.before)) + option_args("after"@, opt_string(o.after))
        + option_args("limit"@, count_text(forwarded_limit(o, c))) + option_args(
        "output"@,
        opt_string(o.output),
    ) + string_views(o.other@) + seq![url]
}

/// What an execution does after validation.
#[derive(Clone, Copy, Debug, PartialEq, Eq, Structural)]
pub enum ListingPlan {
    /// No limit: the program's output is used as it is.
    Unlimited,
    /// A zero limit: an empty listing, without starting a program.
    Empty,
    /// At most this many lines (a positive count) are read; reading the last
    /// one stops the program.
    Capped(usize),
}

/// The plan for a limit.
pub open spec fn plan_for(limit: Option<usize>) -> ListingPlan {
    match limit {
        None => ListingPlan::Unlimited,
        Some(0) => ListingPlan::Empty,
        Some(n) => ListingPlan::Capped(n),
    }
}

/// A configured listing of one collection URL: the requested options, the
/// program's declared capabilities, and the URL.
pub struct ListerConfig {
    /// The requested output format and pagination.
    pub options: ListerOptions,
    /// The program's declared native support.
    pub capabilities: ListerCapabilities,
    /// The collection URL, passed unvalidated as one argument.
    pub input: String,
}

impl ListerConfig {
    /// Configures a listing with all capabilities `Unknown`.
    pub fn new(input: &str, options: ListerOptions) -> (r: Self)
        ensures
            r.options == options,
            r.capabilities == ListerCapabilities::default_value(),
            r.input@ == input@,
    {
        ListerConfig {
            options,
            capabilities: ListerCapabilities::default(),
            input: String::from_str(input),
        }
    }

    /// Replaces the declared capabilities; nothing of an earlier declaration
    /// remains.
    pub fn with_capabilities(self, capabilities: ListerCapabilities) -> (r: Self)
        ensures
            r.options == self.options,
            r.capabilities == capabilities,
            r.input == self.input,
    {
        ListerConfig { capabilities, ..self }
    }

    /// Checks that an offset is not combined with a cursor bound and that
    /// each cursor bound is an absolute entry URI.
    pub fn validate_pagination(&self) -> (r: Result<(), ListerError>)
        ensures
            pagination_result(self.options, r),
            r is Ok <==> pagination_ok(self.options),
    {
        let o = &self.options;
        if o.offset.is_some() && (o.before.is_some() || o.after.is_some()) {
            return Err(ListerError::InvalidInput(String::from_str(
                "lister offset cannot be combined with before/after cursors",
            )));
        }
        match as_text(&o.before) {
            Some(v) => {
                if !is_absolute_uri_text(v) {
                    return Err(ListerError::InvalidInput(cursor_error("--before")));
                }
            },
            None => {},
        }
        match as_text(&o.after) {
            Some(v) => {
                if !is_absolute_uri_text(v) {
                    return Err(ListerError::InvalidInput(cursor_error("--after")));
                }
            },
            None => {},
        }
        Ok(())
    }

    /// Validates pagination, then rejects a requested sort, offset or cursor
    /// bound that the program is declared not to support.
    pub fn validate(&self) -> (r: Result<(), ListerError>)
        ensures
            validation_result(self.options, self.capabilities, r),
            r matches Err(ListerError::UnsupportedOption(n)) ==> only_unsupported_refused(
                self.options,
                self.capabilities,
                n@,
            ),
            pagination_ok(self.options) && !(self.options.sort is Some && self.capabilities.sort
                == OptionSupport::Unsupported) && !(self.options.offset is Some
                && self.capabilities.offset == OptionSupport::Unsupported) && !(self.options.before is Some
                && self.capabilities.before == OptionSupport::Unsupported) && !(self.options.after is Some
                && self.capabilities.after == OptionSupport::Unsupported) ==> r is Ok,
    {
        self.validate_pagination()?;
        let o = &self.options;
        let c = &self.capabilities;
        if o.sort.is_some() && c.sort == OptionSupport::Unsupported {
            return Err(ListerError::UnsupportedOption("--sort"));
        }
        if o.offset.is_some() && c.offset == OptionSupport::Unsupported {
            return Err(ListerError::UnsupportedOption("--offset"));
        }
        if o.before.is_some() && c.before == OptionSupport::Unsupported {
            return Err(ListerError::UnsupportedOption("--before"));
        }
        if o.after.is_some() && c.after == OptionSupport::Unsupported {
            return Err(ListerError::UnsupportedOption("--after"));
        }
        Ok(())
    }

    /// The program's arguments for this listing.
    pub fn arguments(&self) -> (r: Vec<String>)
        ensures
            string_views(r@) == lister_args(self.options, self.capabilities, self.input@),
    {
        let o = &self.options;
        let mut args: Vec<String> = Vec::new();
        assert(string_views(args@) =~= Seq::<Seq<char>>::empty());
        args.option("sort", as_text(&o.sort));
        args.option_count("offset", o.offset);
        args.option("before", as_text(&o.before));
        args.option("after", as_text(&o.after));
        let limit = if self.capabilities.limit == OptionSupport::Unsupported {
            None
        } else {
            o.limit
        };
        args.option_count("limit", limit);
        args.option("output", as_text(&o.output));
        args.args(&o.other);
        args.arg(self.input.as_str());
        proof {
            reveal_strlit("sort");
            reveal_strlit("offset");
            reveal_strlit("before");
            reveal_strlit("after");
            reveal_strlit("limit");
            reveal_strlit("output");
        }
        args
    }

    /// The child's stdout: a pipe whenever a limit is set, so that the local
    /// cap sees every line; otherwise what the output policy selects.
    pub fn stdout<W>(&self, output: &Output<W>) -> (r: StdioMode)
        ensures
            r == if self.options.limit is Some {
                StdioMode::Piped
            } else {
                output_stdio(*output)
            },
    {
        if self.options.limit.is_some() {
            StdioMode::Piped
        } else {
            output.as_stdio()
        }
    }

    /// Validates the request and selects the listing plan for its limit.
    /// Rejection comes first, so an unsupported request fails even with a
    /// zero limit.
    pub fn plan(&self) -> (r: Result<ListingPlan, ListerError>)
        ensures
            r matches Err(ListerError::UnsupportedOption(n)) ==> only_unsupported_refused(
                self.options,
                self.capabilities,
                n@,
            ),
            match r {
                Ok(p) => validation_result(self.options, self.capabilities, Ok(()))
                    && p == plan_for(self.options.limit),
                Err(e) => validation_result(self.options, self.capabilities, Err(e)),
            },
    {
        self.validate()?;
        match self.options.limit {
            None => Ok(ListingPlan::Unlimited),
            Some(n) => {
                if n == 0 {
                    Ok(ListingPlan::Empty)
                } else {
                    Ok(ListingPlan::Capped(n))
                }
            },
        }
    }
}

/// Formats the message for a malformed cursor bound.
fn cursor_error(option: &str) -> (r: String)
    ensures
        r@ == cursor_message(option@),
{
    let mut s = String::from_str("lister ");
    s.append(option);
    s.append(" must be an absolute entry URI (JSON-LD @id)");
    s
}

/// Whether to forward a line and whether it is the last one permitted.
#[derive(Clone, Copy, Debug, PartialEq, Eq, Structural)]
pub enum CapStep {
    /// Forward the line; more may follow.
    Forward,
    /// Forward the line and stop the source: the cap is reached.
    ForwardLast,
}

/// The local line cap of a limited listing: counts lines as they are read and
/// says when the last permitted line has been reached.
#[derive(Debug)]
pub struct LineCap {
    remaining: usize,
}

impl LineCap {
    #[verifier::type_invariant]
    spec fn open_cap(self) -> bool {
        self.remaining > 0
    }

    /// How many more lines may be forwarded, including the next one.
    pub closed spec fn allowance(self) -> nat {
        self.remaining as nat
    }

    /// A cap that permits `limit` lines.
    pub fn new(limit: usize) -> (r: Self)
        requires
            limit > 0,
        ensures
            r.allowance() == limit,
    {
        LineCap { remaining: limit }
    }

    /// Lines still permitted, which is never zero for a cap still in use.
    pub fn remaining(&self) -> (r: usize)
        ensures
            r == self.allowance(),
            r > 0,
    {
        proof {
            use_type_invariant(self);
        }
        self.remaining
    }

    /// Accounts for one line read from the source. After the `limit`-th line
    /// the cap is used up and returned as `None`: the source must be stopped
    /// and nothing more read. Of `n` lines, exactly the first `min(n, limit)`
    /// are forwarded.
    pub fn take_line(self) -> (r: (CapStep, Option<LineCap>))
        ensures
            self.allowance() == 1 ==> r.0 == CapStep::ForwardLast && r.1 is None,
            self.allowance() > 1 ==> r.0 == CapStep::Forward,
            self.allowance() > 1 ==> (r.1 matches Some(c) && c.allowance() == self.allowance() - 1),
    {
        proof {
            use_type_invariant(&self);
        }
        if self.remaining == 1 {
            (CapStep::ForwardLast, None)
        } else {
            (CapStep::Forward, Some(LineCap { remaining: self.remaining - 1 }))
        }
    }
}

/// Capability declarations change the command line only through native limit
/// support: two declarations that agree on whether `--limit` is unsupported
/// yield the same arguments, so known-supported and unknown requests are
/// forwarded alike.
pub proof fn lemma_arguments_depend_only_on_limit_support(
    o: ListerOptions,
    c1: ListerCapabilities,
    c2: ListerCapabilities,
    url: Seq<char>,
)
    requires
        (c1.limit == OptionSupport::Unsupported) == (c2.limit == OptionSupport::Unsupported),
    ensures
        lister_args(o, c1, url) == lister_args(o, c2, url),
{
}

/// Unset requests are never refused, whatever the declared capabilities.
pub proof fn lemma_unrequested_options_are_never_refused(o: ListerOptions, c: ListerCapabilities)
    requires
        o.sort is None,
        o.offset is None,
        o.before is None,
        o.after is None,
    ensures
        capability_result(o, c, Ok(())),
        validation_result(o, c, Ok(())),
{
}

/// The local cap does not depend on native limit support: an accepted request
/// is planned from its limit alone, and a zero limit is an empty listing even
/// when `--limit` is not forwarded.
pub proof fn lemma_plan_ignores_limit_support(o: ListerOptions, c1: ListerCapabilities, c2: ListerCapabilities)
    requires
        c1.sort == c2.sort,
        c1.offset == c2.offset,
        c1.before == c2.before,
        c1.after == c2.after,
    ensures
        validation_result(o, c1, Ok(())) == validation_result(o, c2, Ok(())),
        plan_for(o.limit) == (match o.limit {
            None => ListingPlan::Unlimited,
            Some(n) => if n == 0 { ListingPlan::Empty } else { ListingPlan::Capped(n) },
        }),
{
}

/// Only a declared `Unsupported` refuses a request: with well-formed
/// pagination, a listing whose requested options are each `Unknown` or
/// `Supported` validates, and every refusal names a requested option that is
/// declared unsupported.
pub proof fn lemma_only_unsupported_is_refused(o: ListerOptions, c: ListerCapabilities, r: Result<(), ListerError>)
    requires
        validation_result(o, c, r),
    ensures
        r matches Err(ListerError::UnsupportedOption(n)) ==> only_unsupported_refused(o, c, n@),
        pagination_ok(o) && !(o.sort is Some && c.sort == OptionSupport::Unsupported) && !(o.offset is Some
            && c.offset == OptionSupport::Unsupported) && !(o.before is Some && c.before
            == OptionSupport::Unsupported) && !(o.after is Some && c.after == OptionSupport::Unsupported)
            ==> r is Ok,
        !pagination_ok(o) ==> r matches Err(ListerError::InvalidInput(_)),
{
}

} // verus!
