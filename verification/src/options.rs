//! Options for each program pattern, with builders.
//!
//! Every options type supports `Default`, direct field access, and a
//! `builder()`. Defaults leave optional fields unset and collections empty.
//! Values are stored without checking whether the selected program supports
//! them. Each `other` vector is an ordered list of literal arguments.

use vstd::prelude::*;
use vstd::string::*;

use crate::definitions::Definitions;
use crate::text::string_views;

verus! {

/// Converts an optional borrowed string into an owned one with the same text.
pub fn owned_text(value: Option<&str>) -> (r: Option<String>)
    ensures
        match value {
            Some(v) => r matches Some(s) && s@ == v@,
            None => r is None,
        },
{
    match value {
        Some(v) => Some(String::from_str(v)),
        None => None,
    }
}

/// The texts of an optional string.
pub open spec fn text_view(value: Option<String>) -> Option<Seq<char>> {
    match value {
        Some(s) => Some(s@),
        None => None,
    }
}

/// The texts of an optional borrowed string.
pub open spec fn str_view(value: Option<&str>) -> Option<Seq<char>> {
    match value {
        Some(s) => Some(s@),
        None => None,
    }
}

/// The list of strings after appending an optional one.
pub open spec fn maybe_push(list: Seq<Seq<char>>, flag: Option<&str>) -> Seq<Seq<char>> {
    match flag {
        Some(f) => list.push(f@),
        None => list,
    }
}

/// Options for a SPARQL query evaluated by an RDF dataset proxy.
#[derive(Clone, Debug, PartialEq, Eq, Hash)]
pub struct AdapterOptions {
    /// Additional literal arguments, in order, after the generated options.
    pub other: Vec<String>,
    /// RDF serialization passed as `--output=FORMAT`; `None` leaves the program default (`jsonl`).
    pub output: Option<String>,
}

impl AdapterOptions {
    /// A builder starting from the default options.
    pub fn builder() -> (r: AdapterOptionsBuilder)
        ensures
            r.value().other@.len() == 0,
            r.value().output is None,
    {
        AdapterOptionsBuilder { options: AdapterOptions::default() }
    }
}

impl Default for AdapterOptions {
    fn default() -> (r: Self)
        ensures
            r.other@.len() == 0,
            r.output is None,
    {
        AdapterOptions { other: Vec::new(), output: None }
    }
}

/// Builds [`AdapterOptions`] one field at a time.
#[derive(Clone, Debug)]
pub struct AdapterOptionsBuilder {
    options: AdapterOptions,
}

impl AdapterOptionsBuilder {
    /// The options that [`build`](Self::build) returns.
    pub closed spec fn value(self) -> AdapterOptions {
        self.options
    }

    /// Appends one literal argument to `other`, preserving order.
    pub fn other(self, flag: &str) -> (r: Self)
        ensures
            string_views(r.value().other@) == string_views(self.value().other@).push(flag@),
            text_view(r.value().output) == text_view(self.value().output),
    {
        let mut b = self;
        let ghost before = b.options.other@;
        b.options.other.push(String::from_str(flag));
        assert(string_views(b.options.other@) =~= string_views(before).push(flag@));
        b
    }

    /// Appends a present argument to `other`; `None` adds nothing.
    pub fn maybe_other(self, flag: Option<&str>) -> (r: Self)
        ensures
            string_views(r.value().other@) == maybe_push(string_views(self.value().other@), flag),
            text_view(r.value().output) == text_view(self.value().output),
    {
        match flag {
            Some(f) => self.other(f),
            None => self,
        }
    }

    /// Sets `output`.
    pub fn output(self, value: &str) -> (r: Self)
        ensures
            text_view(r.value().output) == Some(value@),
            string_views(r.value().other@) == string_views(self.value().other@),
    {
        let mut b = self;
        b.options.output = Some(String::from_str(value));
        b
    }

    /// Sets or clears `output`.
    pub fn maybe_output(self, value: Option<&str>) -> (r: Self)
        ensures
            text_view(r.value().output) == str_view(value),
            string_views(r.value().other@) == string_views(self.value().other@),
    {
        let mut b = self;
        b.options.output = owned_text(value);
        b
    }

    /// The configured options.
    pub fn build(self) -> (r: AdapterOptions)
        ensures
            r == self.value(),
    {
        self.options
    }
}

/// Options for a natural-language request compiled into one SPARQL query.
#[derive(Clone, Debug, PartialEq, Eq, Hash)]
pub struct CompilerOptions {
    /// Additional literal arguments, in order, after the generated options.
    pub other: Vec<String>,
}

impl CompilerOptions {
    /// A builder starting from the default options.
    pub fn builder() -> (r: CompilerOptionsBuilder)
        ensures
            r.value().other@.len() == 0,
    {
        CompilerOptionsBuilder { options: CompilerOptions::default() }
    }
}

impl Default for CompilerOptions {
    fn default() -> (r: Self)
        ensures
            r.other@.len() == 0,
    {
        CompilerOptions { other: Vec::new() }
    }
}

/// Builds [`CompilerOptions`] one field at a time.
#[derive(Clone, Debug)]
pub struct CompilerOptionsBuilder {
    options: CompilerOptions,
}

impl CompilerOptionsBuilder {
    /// The options that [`build`](Self::build) returns.
    pub closed spec fn value(self) -> CompilerOptions {
        self.options
    }

    /// Appends one literal argument to `other`, preserving order.
    pub fn other(self, flag: &str) -> (r: Self)
        ensures
            string_views(r.value().other@) == string_views(self.value().other@).push(flag@),
    {
        let mut b = self;
        let ghost before = b.options.other@;
        b.options.other.push(String::from_str(flag));
        assert(string_views(b.options.other@) =~= string_views(before).push(flag@));
        b
    }

    /// Appends a present argument to `other`; `None` adds nothing.
    pub fn maybe_other(self, flag: Option<&str>) -> (r: Self)
        ensures
            string_views(r.value().other@) == maybe_push(string_views(self.value().other@), flag),
    {
        match flag {
            Some(f) => self.other(f),
            None => self,
        }
    }

    /// The configured options.
    pub fn build(self) -> (r: CompilerOptions)
        ensures
            r == self.value(),
    {
        self.options
    }
}

/// Options for RDF generated without a payload input.
#[derive(Clone, Debug, PartialEq, Eq, Hash)]
pub struct EmitterOptions {
    /// Additional literal arguments, in order, after the generated options.
    pub other: Vec<String>,
    /// RDF serialization passed as `--output=FORMAT`; `None` leaves the program default (`jsonl`).
    pub output: Option<String>,
}

impl EmitterOptions {
    /// A builder starting from the default options.
    pub fn builder() -> (r: EmitterOptionsBuilder)
        ensures
            r.value().other@.len() == 0,
            r.value().output is None,
    {
        EmitterOptionsBuilder { options: EmitterOptions::default() }
    }
}

impl Default for EmitterOptions {
    fn default() -> (r: Self)
        ensures
            r.other@.len() == 0,
            r.output is None,
    {
        EmitterOptions { other: Vec::new(), output: None }
    }
}

/// Builds [`EmitterOptions`] one field at a time.
#[derive(Clone, Debug)]
pub struct EmitterOptionsBuilder {
    options: EmitterOptions,
}

impl EmitterOptionsBuilder {
    /// The options that [`build`](Self::build) returns.
    pub closed spec fn value(self) -> EmitterOptions {
        self.options
    }

    /// Appends one literal argument to `other`, preserving order.
    pub fn other(self, flag: &str) -> (r: Self)
        ensures
            string_views(r.value().other@) == string_views(self.value().other@).push(flag@),
            text_view(r.value().output) == text_view(self.value().output),
    {
        let mut b = self;
        let ghost before = b.options.other@;
        b.options.other.push(String::from_str(flag));
        assert(string_views(b.options.other@) =~= string_views(before).push(flag@));
        b
    }

    /// Appends a present argument to `other`; `None` adds nothing.
    pub fn maybe_other(self, flag: Option<&str>) -> (r: Self)
        ensures
            string_views(r.value().other@) == maybe_push(string_views(self.value().other@), flag),
            text_view(r.value().output) == text_view(self.value().output),
    {
        match flag {
            Some(f) => self.other(f),
            None => self,
        }
    }

    /// Sets `output`.
    pub fn output(self, value: &str) -> (r: Self)
        ensures
            text_view(r.value().output) == Some(value@),
            string_views(r.value().other@) == string_views(self.value().other@),
    {
        let mut b = self;
        b.options.output = Some(String::from_str(value));
        b
    }

    /// Sets or clears `output`.
    pub fn maybe_output(self, value: Option<&str>) -> (r: Self)
        ensures
            text_view(r.value().output) == str_view(value),
            string_views(r.value().other@) == string_views(self.value().other@),
    {
        let mut b = self;
        b.options.output = owned_text(value);
        b
    }

    /// The configured options.
    pub fn build(self) -> (r: EmitterOptions)
        ensures
            r == self.value(),
    {
        self.options
    }
}

/// Options for one URL retrieved and described as RDF.
#[derive(Clone, Debug, PartialEq, Eq, Hash)]
pub struct FetcherOptions {
    /// Additional literal arguments, in order, after the generated options.
    pub other: Vec<String>,
    /// RDF serialization passed as `--output=FORMAT`; `None` leaves the program default (`jsonl`).
    pub output: Option<String>,
}

impl FetcherOptions {
    /// A builder starting from the default options.
    pub fn builder() -> (r: FetcherOptionsBuilder)
        ensures
            r.value().other@.len() == 0,
            r.value().output is None,
    {
        FetcherOptionsBuilder { options: FetcherOptions::default() }
    }
}

impl Default for FetcherOptions {
    fn default() -> (r: Self)
        ensures
            r.other@.len() == 0,
            r.output is None,
    {
        FetcherOptions { other: Vec::new(), output: None }
    }
}

/// Builds [`FetcherOptions`] one field at a time.
#[derive(Clone, Debug)]
pub struct FetcherOptionsBuilder {
    options: FetcherOptions,
}

impl FetcherOptionsBuilder {
    /// The options that [`build`](Self::build) returns.
    pub closed spec fn value(self) -> FetcherOptions {
        self.options
    }

    /// Appends one literal argument to `other`, preserving order.
    pub fn other(self, flag: &str) -> (r: Self)
        ensures
            string_views(r.value().other@) == string_views(self.value().other@).push(flag@),
            text_view(r.value().output) == text_view(self.value().output),
    {
        let mut b = self;
        let ghost before = b.options.other@;
        b.options.other.push(String::from_str(flag));
        assert(string_views(b.options.other@) =~= string_views(before).push(flag@));
        b
    }

    /// Appends a present argument to `other`; `None` adds nothing.
    pub fn maybe_other(self, flag: Option<&str>) -> (r: Self)
        ensures
            string_views(r.value().other@) == maybe_push(string_views(self.value().other@), flag),
            text_view(r.value().output) == text_view(self.value().output),
    {
        match flag {
            Some(f) => self.other(f),
            None => self,
        }
    }

    /// Sets `output`.
    pub fn output(self, value: &str) -> (r: Self)
        ensures
            text_view(r.value().output) == Some(value@),
            string_views(r.value().other@) == string_views(self.value().other@),
    {
        let mut b = self;
        b.options.output = Some(String::from_str(value));
        b
    }

    /// Sets or clears `output`.
    pub fn maybe_output(self, value: Option<&str>) -> (r: Self)
        ensures
            text_view(r.value().output) == str_view(value),
            string_views(r.value().other@) == string_views(self.value().other@),
    {
        let mut b = self;
        b.options.output = owned_text(value);
        b
    }

    /// The configured options.
    pub fn build(self) -> (r: FetcherOptions)
        ensures
            r == self.value(),
    {
        self.options
    }
}

/// Options for RDF stored into a persistent index.
#[derive(Clone, Debug, PartialEq, Eq, Hash)]
pub struct IndexerOptions {
    /// Additional literal arguments, in order, after the generated options.
    pub other: Vec<String>,
    /// RDF input serialization passed as `--input=FORMAT`; `None` leaves the program default (`jsonl`).
    pub input: Option<String>,
}

impl IndexerOptions {
    /// A builder starting from the default options.
    pub fn builder() -> (r: IndexerOptionsBuilder)
        ensures
            r.value().other@.len() == 0,
            r.value().input is None,
    {
        IndexerOptionsBuilder { options: IndexerOptions::default() }
    }
}

impl Default for IndexerOptions {
    fn default() -> (r: Self)
        ensures
            r.other@.len() == 0,
            r.input is None,
    {
        IndexerOptions { other: Vec::new(), input: None }
    }
}

/// Builds [`IndexerOptions`] one field at a time.
#[derive(Clone, Debug)]
pub struct IndexerOptionsBuilder {
    options: IndexerOptions,
}

impl IndexerOptionsBuilder {
    /// The options that [`build`](Self::build) returns.
    pub closed spec fn value(self) -> IndexerOptions {
        self.options
    }

    /// Appends one literal argument to `other`, preserving order.
    pub fn other(self, flag: &str) -> (r: Self)
        ensures
            string_views(r.value().other@) == string_views(self.value().other@).push(flag@),
            text_view(r.value().input) == text_view(self.value().input),
    {
        let mut b = self;
        let ghost before = b.options.other@;
        b.options.other.push(String::from_str(flag));
        assert(string_views(b.options.other@) =~= string_views(before).push(flag@));
        b
    }

    /// Appends a present argument to `other`; `None` adds nothing.
    pub fn maybe_other(self, flag: Option<&str>) -> (r: Self)
        ensures
            string_views(r.value().other@) == maybe_push(string_views(self.value().other@), flag),
            text_view(r.value().input) == text_view(self.value().input),
    {
        match flag {
            Some(f) => self.other(f),
            None => self,
        }
    }

    /// Sets `input`.
    pub fn input(self, value: &str) -> (r: Self)
        ensures
            text_view(r.value().input) == Some(value@),
            string_views(r.value().other@) == string_views(self.value().other@),
    {
        let mut b = self;
        b.options.input = Some(String::from_str(value));
        b
    }

    /// Sets or clears `input`.
    pub fn maybe_input(self, value: Option<&str>) -> (r: Self)
        ensures
            text_view(r.value().input) == str_view(value),
            string_views(r.value().other@) == string_views(self.value().other@),
    {
        let mut b = self;
        b.options.input = owned_text(value);
        b
    }

    /// The configured options.
    pub fn build(self) -> (r: IndexerOptions)
        ensures
            r == self.value(),
    {
        self.options
    }
}

/// Options for a collection URL whose entries are described as RDF.
#[derive(Clone, Debug, PartialEq, Eq, Hash)]
pub struct ListerOptions {
    /// Additional literal arguments, in order, after the generated options.
    pub other: Vec<String>,
    /// Ordering request passed as `--sort=SORT`, in the sort-key display syntax (`-` prefix for descending keys).
    pub sort: Option<String>,
    /// Number of entries to skip, passed as `--offset=COUNT`; `Some(0)` explicitly skips none.
    pub offset: Option<usize>,
    /// Exclusive upper cursor bound: an absolute entry URI passed as `--before=URI`.
    pub before: Option<String>,
    /// Exclusive lower cursor bound: an absolute entry URI passed as `--after=URI`.
    pub after: Option<String>,
    /// Maximum number of entries, passed as `--limit=COUNT`; `Some(0)` requests none.
    pub limit: Option<usize>,
    /// RDF serialization passed as `--output=FORMAT`; `None` leaves the program default (`jsonl`).
    pub output: Option<String>,
}

impl ListerOptions {
    /// A builder starting from the default options.
    pub fn builder() -> (r: ListerOptionsBuilder)
        ensures
            r.value().other@.len() == 0,
            r.value().sort is None,
            r.value().offset is None,
            r.value().before is None,
            r.value().after is None,
            r.value().limit is None,
            r.value().output is None,
    {
        ListerOptionsBuilder { options: ListerOptions::default() }
    }
}

impl Default for ListerOptions {
    fn default() -> (r: Self)
        ensures
            r.other@.len() == 0,
            r.sort is None,
            r.offset is None,
            r.before is None,
            r.after is None,
            r.limit is None,
            r.output is None,
    {
        ListerOptions { other: Vec::new(), sort: None, offset: None, before: None, after: None, limit: None, output: None }
    }
}

/// Builds [`ListerOptions`] one field at a time.
#[derive(Clone, Debug)]
pub struct ListerOptionsBuilder {
    options: ListerOptions,
}

impl ListerOptionsBuilder {
    /// The options that [`build`](Self::build) returns.
    pub closed spec fn value(self) -> ListerOptions {
        self.options
    }

    /// Appends one literal argument to `other`, preserving order.
    pub fn other(self, flag: &str) -> (r: Self)
        ensures
            string_views(r.value().other@) == string_views(self.value().other@).push(flag@),
            text_view(r.value().sort) == text_view(self.value().sort),
            r.value().offset == self.value().offset,
            text_view(r.value().before) == text_view(self.value().before),
            text_view(r.value().after) == text_view(self.value().after),
            r.value().limit == self.value().limit,
            text_view(r.value().output) == text_view(self.value().output),
    {
        let mut b = self;
        let ghost before = b.options.other@;
        b.options.other.push(String::from_str(flag));
        assert(string_views(b.options.other@) =~= string_views(before).push(flag@));
        b
    }

    /// Appends a present argument to `other`; `None` adds nothing.
    pub fn maybe_other(self, flag: Option<&str>) -> (r: Self)
        ensures
            string_views(r.value().other@) == maybe_push(string_views(self.value().other@), flag),
            text_view(r.value().sort) == text_view(self.value().sort),
            r.value().offset == self.value().offset,
            text_view(r.value().before) == text_view(self.value().before),
            text_view(r.value().after) == text_view(self.value().after),
            r.value().limit == self.value().limit,
            text_view(r.value().output) == text_view(self.value().output),
    {
        match flag {
            Some(f) => self.other(f),
            None => self,
        }
    }

    /// Sets `sort`.
    pub fn sort(self, value: &str) -> (r: Self)
        ensures
            text_view(r.value().sort) == Some(value@),
            string_views(r.value().other@) == string_views(self.value().other@),
            r.value().offset == self.value().offset,
            text_view(r.value().before) == text_view(self.value().before),
            text_view(r.value().after) == text_view(self.value().after),
            r.value().limit == self.value().limit,
            text_view(r.value().output) == text_view(self.value().output),
    {
        let mut b = self;
        b.options.sort = Some(String::from_str(value));
        b
    }

    /// Sets or clears `sort`.
    pub fn maybe_sort(self, value: Option<&str>) -> (r: Self)
        ensures
            text_view(r.value().sort) == str_view(value),
            string_views(r.value().other@) == string_views(self.value().other@),
            r.value().offset == self.value().offset,
            text_view(r.value().before) == text_view(self.value().before),
            text_view(r.value().after) == text_view(self.value().after),
            r.value().limit == self.value().limit,
            text_view(r.value().output) == text_view(self.value().output),
    {
        let mut b = self;
        b.options.sort = owned_text(value);
        b
    }

    /// Sets `offset`.
    pub fn offset(self, value: usize) -> (r: Self)
        ensures
            r.value().offset == Some(value),
            string_views(r.value().other@) == string_views(self.value().other@),
            text_view(r.value().sort) == text_view(self.value().sort),
            text_view(r.value().before) == text_view(self.value().before),
            text_view(r.value().after) == text_view(self.value().after),
            r.value().limit == self.value().limit,
            text_view(r.value().output) == text_view(self.value().output),
    {
        let mut b = self;
        b.options.offset = Some(value);
        b
    }

    /// Sets or clears `offset`.
    pub fn maybe_offset(self, value: Option<usize>) -> (r: Self)
        ensures
            r.value().offset == value,
            string_views(r.value().other@) == string_views(self.value().other@),
            text_view(r.value().sort) == text_view(self.value().sort),
            text_view(r.value().before) == text_view(self.value().before),
            text_view(r.value().after) == text_view(self.value().after),
            r.value().limit == self.value().limit,
            text_view(r.value().output) == text_view(self.value().output),
    {
        let mut b = self;
        b.options.offset = value;
        b
    }

    /// Sets `before`.
    pub fn before(self, value: &str) -> (r: Self)
        ensures
            text_view(r.value().before) == Some(value@),
            string_views(r.value().other@) == string_views(self.value().other@),
            text_view(r.value().sort) == text_view(self.value().sort),
            r.value().offset == self.value().offset,
            text_view(r.value().after) == text_view(self.value().after),
            r.value().limit == self.value().limit,
            text_view(r.value().output) == text_view(self.value().output),
    {
        let mut b = self;
        b.options.before = Some(String::from_str(value));
        b
    }

    /// Sets or clears `before`.
    pub fn maybe_before(self, value: Option<&str>) -> (r: Self)
        ensures
            text_view(r.value().before) == str_view(value),
            string_views(r.value().other@) == string_views(self.value().other@),
            text_view(r.value().sort) == text_view(self.value().sort),
            r.value().offset == self.value().offset,
            text_view(r.value().after) == text_view(self.value().after),
            r.value().limit == self.value().limit,
            text_view(r.value().output) == text_view(self.value().output),
    {
        let mut b = self;
        b.options.before = owned_text(value);
        b
    }

    /// Sets `after`.
    pub fn after(self, value: &str) -> (r: Self)
        ensures
            text_view(r.value().after) == Some(value@),
            string_views(r.value().other@) == string_views(self.value().other@),
            text_view(r.value().sort) == text_view(self.value().sort),
            r.value().offset == self.value().offset,
            text_view(r.value().before) == text_view(self.value().before),
            r.value().limit == self.value().limit,
            text_view(r.value().output) == text_view(self.value().output),
    {
        let mut b = self;
        b.options.after = Some(String::from_str(value));
        b
    }

    /// Sets or clears `after`.
    pub fn maybe_after(self, value: Option<&str>) -> (r: Self)
        ensures
            text_view(r.value().after) == str_view(value),
            string_views(r.value().other@) == string_views(self.value().other@),
            text_view(r.value().sort) == text_view(self.value().sort),
            r.value().offset == self.value().offset,
            text_view(r.value().before) == text_view(self.value().before),
            r.value().limit == self.value().limit,
            text_view(r.value().output) == text_view(self.value().output),
    {
        let mut b = self;
        b.options.after = owned_text(value);
        b
    }

    /// Sets `limit`.
    pub fn limit(self, value: usize) -> (r: Self)
        ensures
            r.value().limit == Some(value),
            string_views(r.value().other@) == string_views(self.value().other@),
            text_view(r.value().sort) == text_view(self.value().sort),
            r.value().offset == self.value().offset,
            text_view(r.value().before) == text_view(self.value().before),
            text_view(r.value().after) == text_view(self.value().after),
            text_view(r.value().output) == text_view(self.value().output),
    {
        let mut b = self;
        b.options.limit = Some(value);
        b
    }

    /// Sets or clears `limit`.
    pub fn maybe_limit(self, value: Option<usize>) -> (r: Self)
        ensures
            r.value().limit == value,
            string_views(r.value().other@) == string_views(self.value().other@),
            text_view(r.value().sort) == text_view(self.value().sort),
            r.value().offset == self.value().offset,
            text_view(r.value().before) == text_view(self.value().before),
            text_view(r.value().after) == text_view(self.value().after),
            text_view(r.value().output) == text_view(self.value().output),
    {
        let mut b = self;
        b.options.limit = value;
        b
    }

    /// Sets `output`.
    pub fn output(self, value: &str) -> (r: Self)
        ensures
            text_view(r.value().output) == Some(value@),
            string_views(r.value().other@) == string_views(self.value().other@),
            text_view(r.value().sort) == text_view(self.value().sort),
            r.value().offset == self.value().offset,
            text_view(r.value().before) == text_view(self.value().before),
            text_view(r.value().after) == text_view(self.value().after),
            r.value().limit == self.value().limit,
    {
        let mut b = self;
        b.options.output = Some(String::from_str(value));
        b
    }

    /// Sets or clears `output`.
    pub fn maybe_output(self, value: Option<&str>) -> (r: Self)
        ensures
            text_view(r.value().output) == str_view(value),
            string_views(r.value().other@) == string_views(self.value().other@),
            text_view(r.value().sort) == text_view(self.value().sort),
            r.value().offset == self.value().offset,
            text_view(r.value().before) == text_view(self.value().before),
            text_view(r.value().after) == text_view(self.value().after),
            r.value().limit == self.value().limit,
    {
        let mut b = self;
        b.options.output = owned_text(value);
        b
    }

    /// The configured options.
    pub fn build(self) -> (r: ListerOptions)
        ensures
            r == self.value(),
    {
        self.options
    }
}

/// Options for RDF matched exactly or approximately.
#[derive(Clone, Debug, PartialEq, Eq, Hash)]
pub struct MatcherOptions {
    /// Additional literal arguments, in order, after the generated options.
    pub other: Vec<String>,
    /// RDF input serialization passed as `--input=FORMAT`.
    pub input: Option<String>,
    /// RDF match-result serialization passed as `--output=FORMAT`.
    pub output: Option<String>,
}

impl MatcherOptions {
    /// A builder starting from the default options.
    pub fn builder() -> (r: MatcherOptionsBuilder)
        ensures
            r.value().other@.len() == 0,
            r.value().input is None,
            r.value().output is None,
    {
        MatcherOptionsBuilder { options: MatcherOptions::default() }
    }
}

impl Default for MatcherOptions {
    fn default() -> (r: Self)
        ensures
            r.other@.len() == 0,
            r.input is None,
            r.output is None,
    {
        MatcherOptions { other: Vec::new(), input: None, output: None }
    }
}

/// Builds [`MatcherOptions`] one field at a time.
#[derive(Clone, Debug)]
pub struct MatcherOptionsBuilder {
    options: MatcherOptions,
}

impl MatcherOptionsBuilder {
    /// The options that [`build`](Self::build) returns.
    pub closed spec fn value(self) -> MatcherOptions {
        self.options
    }

    /// Appends one literal argument to `other`, preserving order.
    pub fn other(self, flag: &str) -> (r: Self)
        ensures
            string_views(r.value().other@) == string_views(self.value().other@).push(flag@),
            text_view(r.value().input) == text_view(self.value().input),
            text_view(r.value().output) == text_view(self.value().output),
    {
        let mut b = self;
        let ghost before = b.options.other@;
        b.options.other.push(String::from_str(flag));
        assert(string_views(b.options.other@) =~= string_views(before).push(flag@));
        b
    }

    /// Appends a present argument to `other`; `None` adds nothing.
    pub fn maybe_other(self, flag: Option<&str>) -> (r: Self)
        ensures
            string_views(r.value().other@) == maybe_push(string_views(self.value().other@), flag),
            text_view(r.value().input) == text_view(self.value().input),
            text_view(r.value().output) == text_view(self.value().output),
    {
        match flag {
            Some(f) => self.other(f),
            None => self,
        }
    }

    /// Sets `input`.
    pub fn input(self, value: &str) -> (r: Self)
        ensures
            text_view(r.value().input) == Some(value@),
            string_views(r.value().other@) == string_views(self.value().other@),
            text_view(r.value().output) == text_view(self.value().output),
    {
        let mut b = self;
        b.options.input = Some(String::from_str(value));
        b
    }

    /// Sets or clears `input`.
    pub fn maybe_input(self, value: Option<&str>) -> (r: Self)
        ensures
            text_view(r.value().input) == str_view(value),
            string_views(r.value().other@) == string_views(self.value().other@),
            text_view(r.value().output) == text_view(self.value().output),
    {
        let mut b = self;
        b.options.input = owned_text(value);
        b
    }

    /// Sets `output`.
    pub fn output(self, value: &str) -> (r: Self)
        ensures
            text_view(r.value().output) == Some(value@),
            string_views(r.value().other@) == string_views(self.value().other@),
            text_view(r.value().input) == text_view(self.value().input),
    {
        let mut b = self;
        b.options.output = Some(String::from_str(value));
        b
    }

    /// Sets or clears `output`.
    pub fn maybe_output(self, value: Option<&str>) -> (r: Self)
        ensures
            text_view(r.value().output) == str_view(value),
            string_views(r.value().other@) == string_views(self.value().other@),
            text_view(r.value().input) == text_view(self.value().input),
    {
        let mut b = self;
        b.options.output = owned_text(value);
        b
    }

    /// The configured options.
    pub fn build(self) -> (r: MatcherOptions)
        ensures
            r == self.value(),
    {
        self.options
    }
}

/// Options for a prompt answered by a language model.
#[derive(Clone, Debug, PartialEq, Eq, Hash)]
pub struct PrompterOptions {
    /// Additional literal arguments, in order, after the generated options.
    pub other: Vec<String>,
    /// Prompt serialization passed as `--input=FORMAT`; the specified default is `text`.
    pub input: Option<String>,
    /// Inference model passed as `--model=MODEL`; the specified default is `auto`.
    pub model: Option<String>,
    /// Response serialization passed as `--output=FORMAT`; the specified default is `text`.
    pub output: Option<String>,
}

impl PrompterOptions {
    /// A builder starting from the default options.
    pub fn builder() -> (r: PrompterOptionsBuilder)
        ensures
            r.value().other@.len() == 0,
            r.value().input is None,
            r.value().model is None,
            r.value().output is None,
    {
        PrompterOptionsBuilder { options: PrompterOptions::default() }
    }
}

impl Default for PrompterOptions {
    fn default() -> (r: Self)
        ensures
            r.other@.len() == 0,
            r.input is None,
            r.model is None,
            r.output is None,
    {
        PrompterOptions { other: Vec::new(), input: None, model: None, output: None }
    }
}

/// Builds [`PrompterOptions`] one field at a time.
#[derive(Clone, Debug)]
pub struct PrompterOptionsBuilder {
    options: PrompterOptions,
}

impl PrompterOptionsBuilder {
    /// The options that [`build`](Self::build) returns.
    pub closed spec fn value(self) -> PrompterOptions {
        self.options
    }

    /// Appends one literal argument to `other`, preserving order.
    pub fn other(self, flag: &str) -> (r: Self)
        ensures
            string_views(r.value().other@) == string_views(self.value().other@).push(flag@),
            text_view(r.value().input) == text_view(self.value().input),
            text_view(r.value().model) == text_view(self.value().model),
            text_view(r.value().output) == text_view(self.value().output),
    {
        let mut b = self;
        let ghost before = b.options.other@;
        b.options.other.push(String::from_str(flag));
        assert(string_views(b.options.other@) =~= string_views(before).push(flag@));
        b
    }

    /// Appends a present argument to `other`; `None` adds nothing.
    pub fn maybe_other(self, flag: Option<&str>) -> (r: Self)
        ensures
            string_views(r.value().other@) == maybe_push(string_views(self.value().other@), flag),
            text_view(r.value().input) == text_view(self.value().input),
            text_view(r.value().model) == text_view(self.value().model),
            text_view(r.value().output) == text_view(self.value().output),
    {
        match flag {
            Some(f) => self.other(f),
            None => self,
        }
    }

    /// Sets `input`.
    pub fn input(self, value: &str) -> (r: Self)
        ensures
            text_view(r.value().input) == Some(value@),
            string_views(r.value().other@) == string_views(self.value().other@),
            text_view(r.value().model) == text_view(self.value().model),
            text_view(r.value().output) == text_view(self.value().output),
    {
        let mut b = self;
        b.options.input = Some(String::from_str(value));
        b
    }

    /// Sets or clears `input`.
    pub fn maybe_input(self, value: Option<&str>) -> (r: Self)
        ensures
            text_view(r.value().input) == str_view(value),
            string_views(r.value().other@) == string_views(self.value().other@),
            text_view(r.value().model) == text_view(self.value().model),
            text_view(r.value().output) == text_view(self.value().output),
    {
        let mut b = self;
        b.options.input = owned_text(value);
        b
    }

    /// Sets `model`.
    pub fn model(self, value: &str) -> (r: Self)
        ensures
            text_view(r.value().model) == Some(value@),
            string_views(r.value().other@) == string_views(self.value().other@),
            text_view(r.value().input) == text_view(self.value().input),
            text_view(r.value().output) == text_view(self.value().output),
    {
        let mut b = self;
        b.options.model = Some(String::from_str(value));
        b
    }

    /// Sets or clears `model`.
    pub fn maybe_model(self, value: Option<&str>) -> (r: Self)
        ensures
            text_view(r.value().model) == str_view(value),
            string_views(r.value().other@) == string_views(self.value().other@),
            text_view(r.value().input) == text_view(self.value().input),
            text_view(r.value().output) == text_view(self.value().output),
    {
        let mut b = self;
        b.options.model = owned_text(value);
        b
    }

    /// Sets `output`.
    pub fn output(self, value: &str) -> (r: Self)
        ensures
            text_view(r.value().output) == Some(value@),
            string_views(r.value().other@) == string_views(self.value().other@),
            text_view(r.value().input) == text_view(self.value().input),
            text_view(r.value().model) == text_view(self.value().model),
    {
        let mut b = self;
        b.options.output = Some(String::from_str(value));
        b
    }

    /// Sets or clears `output`.
    pub fn maybe_output(self, value: Option<&str>) -> (r: Self)
        ensures
            text_view(r.value().output) == str_view(value),
            string_views(r.value().other@) == string_views(self.value().other@),
            text_view(r.value().input) == text_view(self.value().input),
            text_view(r.value().model) == text_view(self.value().model),
    {
        let mut b = self;
        b.options.output = owned_text(value);
        b
    }

    /// The configured options.
    pub fn build(self) -> (r: PrompterOptions)
        ensures
            r == self.value(),
    {
        self.options
    }
}

/// Options for a document imported as RDF.
#[derive(Clone, Debug, PartialEq, Eq, Hash)]
pub struct ReaderOptions {
    /// Additional literal arguments, in order, after the generated options.
    pub other: Vec<String>,
    /// Source format passed as `--input=FORMAT`; the specified default is `auto`.
    pub input: Option<String>,
    /// RDF serialization passed as `--output=FORMAT`; the specified default is `jsonl`.
    pub output: Option<String>,
}

impl ReaderOptions {
    /// A builder starting from the default options.
    pub fn builder() -> (r: ReaderOptionsBuilder)
        ensures
            r.value().other@.len() == 0,
            r.value().input is None,
            r.value().output is None,
    {
        ReaderOptionsBuilder { options: ReaderOptions::default() }
    }
}

impl Default for ReaderOptions {
    fn default() -> (r: Self)
        ensures
            r.other@.len() == 0,
            r.input is None,
            r.output is None,
    {
        ReaderOptions { other: Vec::new(), input: None, output: None }
    }
}

/// Builds [`ReaderOptions`] one field at a time.
#[derive(Clone, Debug)]
pub struct ReaderOptionsBuilder {
    options: ReaderOptions,
}

impl ReaderOptionsBuilder {
    /// The options that [`build`](Self::build) returns.
    pub closed spec fn value(self) -> ReaderOptions {
        self.options
    }

    /// Appends one literal argument to `other`, preserving order.
    pub fn other(self, flag: &str) -> (r: Self)
        ensures
            string_views(r.value().other@) == string_views(self.value().other@).push(flag@),
            text_view(r.value().input) == text_view(self.value().input),
            text_view(r.value().output) == text_view(self.value().output),
    {
        let mut b = self;
        let ghost before = b.options.other@;
        b.options.other.push(String::from_str(flag));
        assert(string_views(b.options.other@) =~= string_views(before).push(flag@));
        b
    }

    /// Appends a present argument to `other`; `None` adds nothing.
    pub fn maybe_other(self, flag: Option<&str>) -> (r: Self)
        ensures
            string_views(r.value().other@) == maybe_push(string_views(self.value().other@), flag),
            text_view(r.value().input) == text_view(self.value().input),
            text_view(r.value().output) == text_view(self.value().output),
    {
        match flag {
            Some(f) => self.other(f),
            None => self,
        }
    }

    /// Sets `input`.
    pub fn input(self, value: &str) -> (r: Self)
        ensures
            text_view(r.value().input) == Some(value@),
            string_views(r.value().other@) == string_views(self.value().other@),
            text_view(r.value().output) == text_view(self.value().output),
    {
        let mut b = self;
        b.options.input = Some(String::from_str(value));
        b
    }

    /// Sets or clears `input`.
    pub fn maybe_input(self, value: Option<&str>) -> (r: Self)
        ensures
            text_view(r.value().input) == str_view(value),
            string_views(r.value().other@) == string_views(self.value().other@),
            text_view(r.value().output) == text_view(self.value().output),
    {
        let mut b = self;
        b.options.input = owned_text(value);
        b
    }

    /// Sets `output`.
    pub fn output(self, value: &str) -> (r: Self)
        ensures
            text_view(r.value().output) == Some(value@),
            string_views(r.value().other@) == string_views(self.value().other@),
            text_view(r.value().input) == text_view(self.value().input),
    {
        let mut b = self;
        b.options.output = Some(String::from_str(value));
        b
    }

    /// Sets or clears `output`.
    pub fn maybe_output(self, value: Option<&str>) -> (r: Self)
        ensures
            text_view(r.value().output) == str_view(value),
            string_views(r.value().other@) == string_views(self.value().other@),
            text_view(r.value().input) == text_view(self.value().input),
    {
        let mut b = self;
        b.options.output = owned_text(value);
        b
    }

    /// The configured options.
    pub fn build(self) -> (r: ReaderOptions)
        ensures
            r == self.value(),
    {
        self.options
    }
}

/// Options for RDF whose entailments are computed.
#[derive(Clone, Debug, PartialEq, Eq, Hash)]
pub struct ReasonerOptions {
    /// Additional literal arguments, in order, after the generated options.
    pub other: Vec<String>,
    /// RDF input serialization passed as `--input=FORMAT`.
    pub input: Option<String>,
    /// Entailed RDF serialization passed as `--output=FORMAT`.
    pub output: Option<String>,
}

impl ReasonerOptions {
    /// A builder starting from the default options.
    pub fn builder() -> (r: ReasonerOptionsBuilder)
        ensures
            r.value().other@.len() == 0,
            r.value().input is None,
            r.value().output is None,
    {
        ReasonerOptionsBuilder { options: ReasonerOptions::default() }
    }
}

impl Default for ReasonerOptions {
    fn default() -> (r: Self)
        ensures
            r.other@.len() == 0,
            r.input is None,
            r.output is None,
    {
        ReasonerOptions { other: Vec::new(), input: None, output: None }
    }
}

/// Builds [`ReasonerOptions`] one field at a time.
#[derive(Clone, Debug)]
pub struct ReasonerOptionsBuilder {
    options: ReasonerOptions,
}

impl ReasonerOptionsBuilder {
    /// The options that [`build`](Self::build) returns.
    pub closed spec fn value(self) -> ReasonerOptions {
        self.options
    }

    /// Appends one literal argument to `other`, preserving order.
    pub fn other(self, flag: &str) -> (r: Self)
        ensures
            string_views(r.value().other@) == string_views(self.value().other@).push(flag@),
            text_view(r.value().input) == text_view(self.value().input),
            text_view(r.value().output) == text_view(self.value().output),
    {
        let mut b = self;
        let ghost before = b.options.other@;
        b.options.other.push(String::from_str(flag));
        assert(string_views(b.options.other@) =~= string_views(before).push(flag@));
        b
    }

    /// Appends a present argument to `other`; `None` adds nothing.
    pub fn maybe_other(self, flag: Option<&str>) -> (r: Self)
        ensures
            string_views(r.value().other@) == maybe_push(string_views(self.value().other@), flag),
            text_view(r.value().input) == text_view(self.value().input),
            text_view(r.value().output) == text_view(self.value().output),
    {
        match flag {
            Some(f) => self.other(f),
            None => self,
        }
    }

    /// Sets `input`.
    pub fn input(self, value: &str) -> (r: Self)
        ensures
            text_view(r.value().input) == Some(value@),
            string_views(r.value().other@) == string_views(self.value().other@),
            text_view(r.value().output) == text_view(self.value().output),
    {
        let mut b = self;
        b.options.input = Some(String::from_str(value));
        b
    }

    /// Sets or clears `input`.
    pub fn maybe_input(self, value: Option<&str>) -> (r: Self)
        ensures
            text_view(r.value().input) == str_view(value),
            string_views(r.value().other@) == string_views(self.value().other@),
            text_view(r.value().output) == text_view(self.value().output),
    {
        let mut b = self;
        b.options.input = owned_text(value);
        b
    }

    /// Sets `output`.
    pub fn output(self, value: &str) -> (r: Self)
        ensures
            text_view(r.value().output) == Some(value@),
            string_views(r.value().other@) == string_views(self.value().other@),
            text_view(r.value().input) == text_view(self.value().input),
    {
        let mut b = self;
        b.options.output = Some(String::from_str(value));
        b
    }

    /// Sets or clears `output`.
    pub fn maybe_output(self, value: Option<&str>) -> (r: Self)
        ensures
            text_view(r.value().output) == str_view(value),
            string_views(r.value().other@) == string_views(self.value().other@),
            text_view(r.value().input) == text_view(self.value().input),
    {
        let mut b = self;
        b.options.output = owned_text(value);
        b
    }

    /// The configured options.
    pub fn build(self) -> (r: ReasonerOptions)
        ensures
            r == self.value(),
    {
        self.options
    }
}

/// Options for a URI resolved to zero or more URLs.
#[derive(Clone, Debug, PartialEq, Eq, Hash)]
pub struct ResolverOptions {
    /// Additional literal arguments, in order, after the generated options.
    pub other: Vec<String>,
    /// Maximum number of output URLs, passed as `--limit=COUNT`; `Some(0)` requests none.
    pub limit: Option<usize>,
}

impl ResolverOptions {
    /// A builder starting from the default options.
    pub fn builder() -> (r: ResolverOptionsBuilder)
        ensures
            r.value().other@.len() == 0,
            r.value().limit is None,
    {
        ResolverOptionsBuilder { options: ResolverOptions::default() }
    }
}

impl Default for ResolverOptions {
    fn default() -> (r: Self)
        ensures
            r.other@.len() == 0,
            r.limit is None,
    {
        ResolverOptions { other: Vec::new(), limit: None }
    }
}

/// Builds [`ResolverOptions`] one field at a time.
#[derive(Clone, Debug)]
pub struct ResolverOptionsBuilder {
    options: ResolverOptions,
}

impl ResolverOptionsBuilder {
    /// The options that [`build`](Self::build) returns.
    pub closed spec fn value(self) -> ResolverOptions {
        self.options
    }

    /// Appends one literal argument to `other`, preserving order.
    pub fn other(self, flag: &str) -> (r: Self)
        ensures
            string_views(r.value().other@) == string_views(self.value().other@).push(flag@),
            r.value().limit == self.value().limit,
    {
        let mut b = self;
        let ghost before = b.options.other@;
        b.options.other.push(String::from_str(flag));
        assert(string_views(b.options.other@) =~= string_views(before).push(flag@));
        b
    }

    /// Appends a present argument to `other`; `None` adds nothing.
    pub fn maybe_other(self, flag: Option<&str>) -> (r: Self)
        ensures
            string_views(r.value().other@) == maybe_push(string_views(self.value().other@), flag),
            r.value().limit == self.value().limit,
    {
        match flag {
            Some(f) => self.other(f),
            None => self,
        }
    }

    /// Sets `limit`.
    pub fn limit(self, value: usize) -> (r: Self)
        ensures
            r.value().limit == Some(value),
            string_views(r.value().other@) == string_views(self.value().other@),
    {
        let mut b = self;
        b.options.limit = Some(value);
        b
    }

    /// Sets or clears `limit`.
    pub fn maybe_limit(self, value: Option<usize>) -> (r: Self)
        ensures
            r.value().limit == value,
            string_views(r.value().other@) == string_views(self.value().other@),
    {
        let mut b = self;
        b.options.limit = value;
        b
    }

    /// The configured options.
    pub fn build(self) -> (r: ResolverOptions)
        ensures
            r == self.value(),
    {
        self.options
    }
}

/// Options for program text executed by a language runtime.
#[derive(Clone, Debug)]
pub struct RunnerOptions {
    /// Additional literal arguments, in order, after the generated options.
    pub other: Vec<String>,
    /// Named runtime values, each passed as `--define=NAME=VALUE` in key order.
    pub define: Definitions,
}

impl RunnerOptions {
    /// A builder starting from the default options.
    pub fn builder() -> (r: RunnerOptionsBuilder)
        ensures
            r.value().other@.len() == 0,
            r.value().define@ == Map::<Seq<char>, Seq<char>>::empty(),
    {
        RunnerOptionsBuilder { options: RunnerOptions::default() }
    }
}

impl Default for RunnerOptions {
    fn default() -> (r: Self)
        ensures
            r.other@.len() == 0,
            r.define@ == Map::<Seq<char>, Seq<char>>::empty(),
    {
        RunnerOptions { other: Vec::new(), define: Definitions::new() }
    }
}

/// Builds [`RunnerOptions`] one field at a time.
#[derive(Clone, Debug)]
pub struct RunnerOptionsBuilder {
    options: RunnerOptions,
}

impl RunnerOptionsBuilder {
    /// The options that [`build`](Self::build) returns.
    pub closed spec fn value(self) -> RunnerOptions {
        self.options
    }

    /// Appends one literal argument to `other`, preserving order.
    pub fn other(self, flag: &str) -> (r: Self)
        ensures
            string_views(r.value().other@) == string_views(self.value().other@).push(flag@),
            r.value().define@ == self.value().define@,
    {
        let mut b = self;
        let ghost before = b.options.other@;
        b.options.other.push(String::from_str(flag));
        assert(string_views(b.options.other@) =~= string_views(before).push(flag@));
        b
    }

    /// Appends a present argument to `other`; `None` adds nothing.
    pub fn maybe_other(self, flag: Option<&str>) -> (r: Self)
        ensures
            string_views(r.value().other@) == maybe_push(string_views(self.value().other@), flag),
            r.value().define@ == self.value().define@,
    {
        match flag {
            Some(f) => self.other(f),
            None => self,
        }
    }

    /// Inserts a runtime definition, replacing any earlier value for the same name.
    pub fn define(self, key: &str, val: &str) -> (r: Self)
        ensures
            r.value().define@ == self.value().define@.insert(key@, val@),
            string_views(r.value().other@) == string_views(self.value().other@),
    {
        let mut b = self;
        b.options.define.insert(key, val);
        b
    }

    /// The configured options.
    pub fn build(self) -> (r: RunnerOptions)
        ensures
            r == self.value(),
    {
        self.options
    }
}

/// Options for RDF exported to another representation.
#[derive(Clone, Debug, PartialEq, Eq, Hash)]
pub struct WriterOptions {
    /// Additional literal arguments, in order, after the generated options.
    pub other: Vec<String>,
    /// RDF input serialization passed as `--input=FORMAT`.
    pub input: Option<String>,
    /// Export format passed as `--output=FORMAT`; the specified default is `auto`.
    pub output: Option<String>,
}

impl WriterOptions {
    /// A builder starting from the default options.
    pub fn builder() -> (r: WriterOptionsBuilder)
        ensures
            r.value().other@.len() == 0,
            r.value().input is None,
            r.value().output is None,
    {
        WriterOptionsBuilder { options: WriterOptions::default() }
    }
}

impl Default for WriterOptions {
    fn default() -> (r: Self)
        ensures
            r.other@.len() == 0,
            r.input is None,
            r.output is None,
    {
        WriterOptions { other: Vec::new(), input: None, output: None }
    }
}

/// Builds [`WriterOptions`] one field at a time.
#[derive(Clone, Debug)]
pub struct WriterOptionsBuilder {
    options: WriterOptions,
}

impl WriterOptionsBuilder {
    /// The options that [`build`](Self::build) returns.
    pub closed spec fn value(self) -> WriterOptions {
        self.options
    }

    /// Appends one literal argument to `other`, preserving order.
    pub fn other(self, flag: &str) -> (r: Self)
        ensures
            string_views(r.value().other@) == string_views(self.value().other@).push(flag@),
            text_view(r.value().input) == text_view(self.value().input),
            text_view(r.value().output) == text_view(self.value().output),
    {
        let mut b = self;
        let ghost before = b.options.other@;
        b.options.other.push(String::from_str(flag));
        assert(string_views(b.options.other@) =~= string_views(before).push(flag@));
        b
    }

    /// Appends a present argument to `other`; `None` adds nothing.
    pub fn maybe_other(self, flag: Option<&str>) -> (r: Self)
        ensures
            string_views(r.value().other@) == maybe_push(string_views(self.value().other@), flag),
            text_view(r.value().input) == text_view(self.value().input),
            text_view(r.value().output) == text_view(self.value().output),
    {
        match flag {
            Some(f) => self.other(f),
            None => self,
        }
    }

    /// Sets `input`.
    pub fn input(self, value: &str) -> (r: Self)
        ensures
            text_view(r.value().input) == Some(value@),
            string_views(r.value().other@) == string_views(self.value().other@),
            text_view(r.value().output) == text_view(self.value().output),
    {
        let mut b = self;
        b.options.input = Some(String::from_str(value));
        b
    }

    /// Sets or clears `input`.
    pub fn maybe_input(self, value: Option<&str>) -> (r: Self)
        ensures
            text_view(r.value().input) == str_view(value),
            string_views(r.value().other@) == string_views(self.value().other@),
            text_view(r.value().output) == text_view(self.value().output),
    {
        let mut b = self;
        b.options.input = owned_text(value);
        b
    }

    /// Sets `output`.
    pub fn output(self, value: &str) -> (r: Self)
        ensures
            text_view(r.value().output) == Some(value@),
            string_views(r.value().other@) == string_views(self.value().other@),
            text_view(r.value().input) == text_view(self.value().input),
    {
        let mut b = self;
        b.options.output = Some(String::from_str(value));
        b
    }

    /// Sets or clears `output`.
    pub fn maybe_output(self, value: Option<&str>) -> (r: Self)
        ensures
            text_view(r.value().output) == str_view(value),
            string_views(r.value().other@) == string_views(self.value().other@),
            text_view(r.value().input) == text_view(self.value().input),
    {
        let mut b = self;
        b.options.output = owned_text(value);
        b
    }

    /// The configured options.
    pub fn build(self) -> (r: WriterOptions)
        ensures
            r == self.value(),
    {
        self.options
    }
}

} // verus!
