//! Recognition of absolute URI text: no whitespace or control characters, and
//! accepted by the `url` crate's parser.

use vstd::prelude::*;

verus! {

/// Unicode `White_Space`, as `char::is_whitespace` defines it.
pub open spec fn is_whitespace_char(c: char) -> bool {
    let v = c as u32;
    ||| 0x09 <= v <= 0x0d
    ||| v == 0x20
    ||| v == 0x85
    ||| v == 0xa0
    ||| v == 0x1680
    ||| 0x2000 <= v <= 0x200a
    ||| v == 0x2028
    ||| v == 0x2029
    ||| v == 0x202f
    ||| v == 0x205f
    ||| v == 0x3000
}

/// General category `Cc`, as `char::is_control` defines it.
pub open spec fn is_control_char(c: char) -> bool {
    let v = c as u32;
    v <= 0x1f || (0x7f <= v <= 0x9f)
}

/// Whether `c` has the Unicode `White_Space` property.
pub fn char_is_whitespace(c: char) -> (r: bool)
    ensures
        r == is_whitespace_char(c),
{
    let v = c as u32;
    (0x09 <= v && v <= 0x0d) || v == 0x20 || v == 0x85 || v == 0xa0 || v == 0x1680 || (0x2000
        <= v && v <= 0x200a) || v == 0x2028 || v == 0x2029 || v == 0x202f || v == 0x205f || v
        == 0x3000
}

/// Whether `c` is a control character (general category `Cc`).
pub fn char_is_control(c: char) -> (r: bool)
    ensures
        r == is_control_char(c),
{
    let v = c as u32;
    v <= 0x1f || (0x7f <= v && v <= 0x9f)
}

/// Nonempty text without whitespace or control characters.
pub open spec fn is_plain_token(s: Seq<char>) -> bool {
    &&& s.len() > 0
    &&& forall|i: int| 0 <= i < s.len() ==> !is_whitespace_char(#[trigger] s[i]) && !is_control_char(s[i])
}

/// What `url::Url::parse` makes of `text`: on success the parsed URL's scheme,
/// whether it has a host, and its serialized path; on failure the text of the
/// parse error. Both depend on the text alone.
pub uninterp spec fn url_parts(text: Seq<char>) -> Result<(Seq<char>, bool, Seq<char>), Seq<char>>;

/// Whether `url::Url::parse` accepts `text`.
pub open spec fn url_parse_accepts(text: Seq<char>) -> bool {
    url_parts(text) is Ok
}

/// Calls `url::Url::parse` and reads the parsed URL's `scheme`, whether
/// `host_str` is present, and `path`; on failure, the `Display` text of the
/// parse error. The WHATWG URL parser takes pages to state, so its result is
/// named rather than written out.
#[verifier::external_body]
pub(crate) fn parse_url_parts(text: &str) -> (r: Result<(String, bool, String), String>)
    ensures
        match r {
            Ok((scheme, host, path)) => url_parts(text@) == Ok::<(Seq<char>, bool, Seq<char>), Seq<char>>((scheme@, host, path@)),
            Err(message) => url_parts(text@) == Err::<(Seq<char>, bool, Seq<char>), Seq<char>>(message@),
        },
{
    match url::Url::parse(text) {
        Ok(url) => Ok((url.scheme().to_string(), url.host_str().is_some(), url.path().to_string())),
        Err(error) => Err(format!("{error}")),
    }
}

/// The serialization of the URL parsed from `text` after its path is set to
/// `path` and its query and fragment are removed (empty when `text` does not
/// parse). It depends on the two texts alone.
pub uninterp spec fn url_rebased(text: Seq<char>, path: Seq<char>) -> Seq<char>;

/// Parses `text` with `url::Url::parse`, then calls `set_path(path)`,
/// `set_query(None)` and `set_fragment(None)` and returns `as_str`. A text that
/// does not parse gives the empty string.
#[verifier::external_body]
pub(crate) fn rebase_url(text: &str, path: &str) -> (r: String)
    ensures
        r@ == url_rebased(text@, path@),
{
    match url::Url::parse(text) {
        Ok(mut url) => {
            url.set_path(path);
            url.set_query(None);
            url.set_fragment(None);
            url.as_str().to_string()
        },
        Err(_) => String::new(),
    }
}

/// What `Url::join` makes of `endpoint` relative to the URL parsed from
/// `base`: the joined URL's serialization, or the text of the parse error.
pub uninterp spec fn url_join(base: Seq<char>, endpoint: Seq<char>) -> Result<Seq<char>, Seq<char>>;

/// Parses `base` with `url::Url::parse` and calls `join(endpoint)`, returning
/// the joined URL's `as_str`, or the `Display` text of whichever parse failed.
#[verifier::external_body]
pub(crate) fn join_url(base: &str, endpoint: &str) -> (r: Result<String, String>)
    ensures
        match r {
            Ok(u) => url_join(base@, endpoint@) == Ok::<Seq<char>, Seq<char>>(u@),
            Err(m) => url_join(base@, endpoint@) == Err::<Seq<char>, Seq<char>>(m@),
        },
{
    match url::Url::parse(base) {
        Ok(base) => match base.join(endpoint) {
            Ok(url) => Ok(url.as_str().to_string()),
            Err(error) => Err(format!("{error}")),
        },
        Err(error) => Err(format!("{error}")),
    }
}

/// Whether the URLs parsed from `a` and `b` have equal origins (false when
/// either does not parse).
pub uninterp spec fn url_same_origin(a: Seq<char>, b: Seq<char>) -> bool;

/// Parses both texts with `url::Url::parse` and compares their `origin()`s
/// with `Origin`'s `==`; a text that does not parse gives `false`.
#[verifier::external_body]
pub(crate) fn same_origin(a: &str, b: &str) -> (r: bool)
    ensures
        r == url_same_origin(a@, b@),
{
    match (url::Url::parse(a), url::Url::parse(b)) {
        (Ok(x), Ok(y)) => x.origin() == y.origin(),
        _ => false,
    }
}

/// Whether the URL parser accepts `text`.
fn url_parses(text: &str) -> (r: bool)
    ensures
        r == url_parse_accepts(text@),
{
    parse_url_parts(text).is_ok()
}

/// An absolute URI as runners check it: a plain token that the URL parser accepts.
pub open spec fn is_absolute_uri(s: Seq<char>) -> bool {
    is_plain_token(s) && url_parse_accepts(s)
}

/// Whether `text` is nonempty and free of whitespace and control characters.
pub fn is_plain_token_text(text: &str) -> (r: bool)
    ensures
        r == is_plain_token(text@),
{
    if text.is_empty() {
        return false;
    }
    let mut ok = true;
    for c in it: text.chars()
        invariant
            it.seq() == text@,
            ok == (forall|i: int|
                0 <= i < it.index() ==> !is_whitespace_char(#[trigger] text@[i]) && !is_control_char(
                    text@[i],
                )),
    {
        let ghost k = it.index();
        if char_is_whitespace(c) || char_is_control(c) {
            ok = false;
        }
        proof {
            assert(c == text@[k]);
        }
    }
    ok
}

/// Whether `text` is an absolute URI: nonempty, free of whitespace and
/// control characters, and accepted by the URL parser. The text is checked,
/// never normalized.
pub fn is_absolute_uri_text(text: &str) -> (r: bool)
    ensures
        r == is_absolute_uri(text@),
{
    is_plain_token_text(text) && url_parses(text)
}

} // verus!
