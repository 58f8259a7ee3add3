//! The JSON POST fetch/list protocol of a remote service: which requests it
//! can express and the request each operation sends. Fetching posts
//! `{"urls":[URL]}` to `fetch`; listing posts
//! `{"url":URL,"options":{"offset":N,"limit":N}}` to `list`, omitting absent
//! options.

use vstd::prelude::*;
use vstd::string::*;

use crate::capabilities::{ListerCapabilities, OptionSupport};
use crate::options::{FetcherOptions, ListerOptions};
use crate::pipeline::text_eq;
use crate::uri::{url_parts, url_rebased, url_join, url_same_origin, parse_url_parts, rebase_url, join_url, same_origin};

verus! {

/// A request the protocol cannot express.
#[derive(Debug)]
pub enum RemoteError {
    /// The protocol has no field for this option.
    UnsupportedOption(&'static str),
}

/// The checks shared by both operations: the output format, when set, must be
/// `jsonl`, and there can be no extra arguments.
pub open spec fn common_result(output: Option<Seq<char>>, other: Seq<String>, r: Result<(), RemoteError>) -> bool {
    if output matches Some(f) && f != "jsonl"@ {
        r matches Err(RemoteError::UnsupportedOption(n)) && n@ == "output"@
    } else if other.len() > 0 {
        r matches Err(RemoteError::UnsupportedOption(n)) && n@ == "other"@
    } else {
        r is Ok
    }
}

/// Checks the options both remote operations share: an output format other
/// than `jsonl` is refused first, then any `other` argument.
pub fn validate_common(output: Option<&str>, other: &Vec<String>) -> (r: Result<(), RemoteError>)
    ensures
        common_result(
            match output {
                Some(f) => Some(f@),
                None => None,
            },
            other@,
            r,
        ),
{
    match output {
        Some(f) => {
            if !text_eq(f, "jsonl") {
                return Err(RemoteError::UnsupportedOption("output"));
            }
        },
        None => {},
    }
    if other.len() > 0 {
        return Err(RemoteError::UnsupportedOption("other"));
    }
    Ok(())
}

fn output_text(output: &Option<String>) -> (r: Option<&str>)
    ensures
        match r {
            Some(t) => output matches Some(s) && t@ == s@,
            None => output is None,
        },
{
    match output {
        Some(s) => Some(s.as_str()),
        None => None,
    }
}

/// The text of an optional output format.
pub open spec fn format_text(output: Option<String>) -> Option<Seq<char>> {
    match output {
        Some(s) => Some(s@),
        None => None,
    }
}

/// The body of a fetch request: the one resource URL to fetch.
pub struct FetchRequest {
    /// The resource URLs; always exactly one.
    pub urls: Vec<String>,
}

/// The `options` object of a list request; absent counts are omitted.
#[derive(Clone, Copy, Debug, PartialEq, Eq, Structural)]
pub struct ListRequestOptions {
    /// Entries to skip.
    pub offset: Option<usize>,
    /// Maximum entries to return.
    pub limit: Option<usize>,
}

/// The body of a list request.
pub struct ListRequest {
    /// The collection URL.
    pub url: String,
    /// Pagination, omitted when neither count is set.
    pub options: Option<ListRequestOptions>,
}

/// What a listing does.
pub enum ListPlan {
    /// A zero limit: an empty listing, without a request.
    Empty,
    /// Post this request to the `list` endpoint.
    Request(ListRequest),
}

/// One configured remote fetch.
pub struct RemoteFetch {
    /// The resource URL.
    pub input: String,
    /// The requested options; only the output format is meaningful.
    pub options: FetcherOptions,
}

impl RemoteFetch {
    /// Configures a fetch of `input`.
    pub fn new(input: &str, options: FetcherOptions) -> (r: Self)
        ensures
            r.input@ == input@,
            r.options == options,
    {
        RemoteFetch { input: String::from_str(input), options }
    }

    /// The request to post to `fetch`, after the common checks.
    pub fn request(&self) -> (r: Result<FetchRequest, RemoteError>)
        ensures
            match r {
                Ok(req) => common_result(format_text(self.options.output), self.options.other@, Ok(()))
                    && req.urls@.len() == 1 && req.urls@[0]@ == self.input@,
                Err(e) => common_result(format_text(self.options.output), self.options.other@, Err(e)),
            },
    {
        validate_common(output_text(&self.options.output), &self.options.other)?;
        let mut urls: Vec<String> = Vec::new();
        urls.push(String::from_str(self.input.as_str()));
        Ok(FetchRequest { urls })
    }
}

/// The capabilities of the list request schema: offset and limit are native
/// fields; sorting and cursor bounds cannot be expressed.
pub open spec fn remote_capabilities() -> ListerCapabilities {
    ListerCapabilities {
        sort: OptionSupport::Unsupported,
        offset: OptionSupport::Supported,
        before: OptionSupport::Unsupported,
        after: OptionSupport::Unsupported,
        limit: OptionSupport::Supported,
    }
}

/// The result of planning a listing: the common checks, then sort, before and
/// after are refused in that order, then a zero limit needs no request.
pub open spec fn list_result(o: ListerOptions, input: Seq<char>, r: Result<ListPlan, RemoteError>) -> bool {
    if !common_result(format_text(o.output), o.other@, Ok(())) {
        r matches Err(e) && common_result(format_text(o.output), o.other@, Err(e))
    } else if o.sort is Some {
        r matches Err(RemoteError::UnsupportedOption(n)) && n@ == "sort"@
    } else if o.before is Some {
        r matches Err(RemoteError::UnsupportedOption(n)) && n@ == "before"@
    } else if o.after is Some {
        r matches Err(RemoteError::UnsupportedOption(n)) && n@ == "after"@
    } else if o.limit == Some(0usize) {
        r matches Ok(ListPlan::Empty)
    } else {
        r matches Ok(ListPlan::Request(req)) && req.url@ == input && req.options == if o.offset is Some
            || o.limit is Some {
            Some(ListRequestOptions { offset: o.offset, limit: o.limit })
        } else {
            None
        }
    }
}

/// One configured remote listing. Offset and limit are delegated to the
/// service as entry counts; no line cap is added.
pub struct RemoteListing {
    /// The collection URL.
    pub input: String,
    /// The requested options.
    pub options: ListerOptions,
}

impl RemoteListing {
    /// Configures a listing of `input`.
    pub fn new(input: &str, options: ListerOptions) -> (r: Self)
        ensures
            r.input@ == input@,
            r.options == options,
    {
        RemoteListing { input: String::from_str(input), options }
    }

    /// The capabilities of this request schema, not discovered metadata.
    pub fn capabilities(&self) -> (r: ListerCapabilities)
        ensures
            r == remote_capabilities(),
    {
        ListerCapabilities {
            sort: OptionSupport::Unsupported,
            offset: OptionSupport::Supported,
            before: OptionSupport::Unsupported,
            after: OptionSupport::Unsupported,
            limit: OptionSupport::Supported,
        }
    }

    /// Validates the request and decides what to send.
    pub fn plan(&self) -> (r: Result<ListPlan, RemoteError>)
        ensures
            list_result(self.options, self.input@, r),
            r matches Ok(ListPlan::Request(req)) ==> req.url@ == self.input@ && match req.options {
                Some(x) => x.offset == self.options.offset && x.limit == self.options.limit,
                None => self.options.offset is None && self.options.limit is None,
            },
            r matches Ok(ListPlan::Empty) ==> self.options.limit == Some(0usize),
            r is Ok && self.options.limit != Some(0usize) ==> r matches Ok(ListPlan::Request(_)),
    {
        let o = &self.options;
        validate_common(output_text(&o.output), &o.other)?;
        if o.sort.is_some() {
            return Err(RemoteError::UnsupportedOption("sort"));
        }
        if o.before.is_some() {
            return Err(RemoteError::UnsupportedOption("before"));
        }
        if o.after.is_some() {
            return Err(RemoteError::UnsupportedOption("after"));
        }
        if o.limit == Some(0usize) {
            return Ok(ListPlan::Empty);
        }
        let options = if o.offset.is_some() || o.limit.is_some() {
            Some(ListRequestOptions { offset: o.offset, limit: o.limit })
        } else {
            None
        };
        Ok(ListPlan::Request(ListRequest { url: String::from_str(self.input.as_str()), options }))
    }
}

/// An unusable service address or endpoint.
#[derive(Debug)]
pub enum BaseUrlError {
    /// The base URL does not parse; the parser's message.
    Unparsable(String),
    /// The base URL is not an HTTP(S) URL with a host.
    NotHttpWithHost,
    /// The endpoint cannot be joined to the base URL; the parser's message.
    Join(String),
    /// The joined endpoint leaves the base URL's origin.
    ForeignOrigin,
}

/// The path of a base URL: the parsed path with `/` appended when it lacks one.
pub open spec fn slash_path(path: Seq<char>) -> Seq<char> {
    if path.len() > 0 && path.last() == '/' {
        path
    } else {
        path + seq!['/']
    }
}

/// What `base_url` gives for `text`: the parser's error; an error for a URL that
/// is not HTTP(S) or has no host; otherwise the URL with its path ending in
/// `/` and without query or fragment.
pub open spec fn base_url_result(text: Seq<char>, r: Result<String, BaseUrlError>) -> bool {
    match url_parts(text) {
        Err(m) => r matches Err(BaseUrlError::Unparsable(e)) && e@ == m,
        Ok((scheme, host, path)) => if !((scheme == "http"@ || scheme == "https"@) && host) {
            r matches Err(BaseUrlError::NotHttpWithHost)
        } else {
            r matches Ok(u) && u@ == url_rebased(text, slash_path(path))
        },
    }
}

/// Whether the last character of `text` is `/`.
fn ends_with_slash(text: &str) -> (r: bool)
    ensures
        r == (text@.len() > 0 && text@.last() == '/'),
{
    let mut last: Option<char> = None;
    for c in it: text.chars()
        invariant
            it.seq() == text@,
            last == if it.index() == 0 {
                None::<char>
            } else {
                Some(text@[it.index() - 1])
            },
    {
        let ghost k = it.index();
        assert(c == text@[k]);
        last = Some(c);
    }
    match last {
        Some(c) => c == '/',
        None => false,
    }
}

/// Normalizes the base URL of a remote service: it must parse, use `http` or
/// `https` and have a host; its path gains a trailing `/` when it lacks one so
/// that endpoints resolve beneath it, and its query and fragment are dropped.
pub fn base_url(text: &str) -> (r: Result<String, BaseUrlError>)
    ensures
        base_url_result(text@, r),
{
    let (scheme, host, path) = match parse_url_parts(text) {
        Ok(parts) => parts,
        Err(message) => return Err(BaseUrlError::Unparsable(message)),
    };
    let http = text_eq(scheme.as_str(), "http") || text_eq(scheme.as_str(), "https");
    if !(http && host) {
        return Err(BaseUrlError::NotHttpWithHost);
    }
    let ghost p = path@;
    let mut base_path = path;
    if !ends_with_slash(base_path.as_str()) {
        proof {
            reveal_strlit("/");
        }
        base_path.append("/");
        assert(base_path@ =~= slash_path(p));
    } else {
        assert(base_path@ == slash_path(p));
    }
    assert(url_parts(text@) == Ok::<(Seq<char>, bool, Seq<char>), Seq<char>>((scheme@, host, p)));
    assert(http == (scheme@ == "http"@ || scheme@ == "https"@));
    Ok(rebase_url(text, base_path.as_str()))
}

/// What `endpoint_url` gives: the joined URL when the join succeeds and keeps
/// the base URL's origin; the join's error, or a foreign-origin error, otherwise.
pub open spec fn endpoint_result(base: Seq<char>, endpoint: Seq<char>, r: Result<String, BaseUrlError>) -> bool {
    match url_join(base, endpoint) {
        Err(m) => r matches Err(BaseUrlError::Join(e)) && e@ == m,
        Ok(u) => if url_same_origin(u, base) {
            r matches Ok(s) && s@ == u
        } else {
            r matches Err(BaseUrlError::ForeignOrigin)
        },
    }
}

/// Resolves a relative endpoint against the service's base URL. The result
/// must keep the base URL's origin, so that credentials meant for the service
/// are never sent elsewhere, even when the endpoint names another host.
pub fn endpoint_url(base: &str, endpoint: &str) -> (r: Result<String, BaseUrlError>)
    ensures
        endpoint_result(base@, endpoint@, r),
        r matches Ok(u) ==> url_same_origin(u@, base@),
{
    match join_url(base, endpoint) {
        Err(message) => Err(BaseUrlError::Join(message)),
        Ok(url) => {
            if same_origin(url.as_str(), base) {
                Ok(url)
            } else {
                Err(BaseUrlError::ForeignOrigin)
            }
        },
    }
}

/// The message of a base-URL error.
pub open spec fn base_url_message(e: BaseUrlError) -> Seq<char> {
    match e {
        BaseUrlError::Unparsable(m) => m@,
        BaseUrlError::Join(m) => m@,
        BaseUrlError::NotHttpWithHost => "expected an HTTP(S) URL with a host"@,
        BaseUrlError::ForeignOrigin => "endpoint must use the configured origin"@,
    }
}

impl BaseUrlError {
    /// Describes the error.
    pub fn message(&self) -> (r: String)
        ensures
            r@ == base_url_message(*self),
    {
        match self {
            BaseUrlError::Unparsable(m) => String::from_str(m.as_str()),
            BaseUrlError::Join(m) => String::from_str(m.as_str()),
            BaseUrlError::NotHttpWithHost => String::from_str("expected an HTTP(S) URL with a host"),
            BaseUrlError::ForeignOrigin => String::from_str("endpoint must use the configured origin"),
        }
    }
}

/// An accepted listing request carries exactly the requested counts: the
/// offset and limit that were set, and no `options` object when neither was.
/// Only a zero limit skips the request.
pub proof fn lemma_request_carries_requested_counts(o: ListerOptions, input: Seq<char>, r: Result<ListPlan, RemoteError>)
    requires
        list_result(o, input, r),
    ensures
        r matches Ok(ListPlan::Request(req)) ==> req.url@ == input && match req.options {
            Some(x) => x.offset == o.offset && x.limit == o.limit,
            None => o.offset is None && o.limit is None,
        },
        r matches Ok(ListPlan::Empty) ==> o.limit == Some(0usize),
        r is Ok && o.limit != Some(0usize) ==> r matches Ok(ListPlan::Request(_)),
{
}

} // verus!
