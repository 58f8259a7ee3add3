//! Caller-supplied declarations of a program's native support for optional
//! command-line options. Capabilities describe the program; options describe
//! the requested operation. Nothing here probes a program.

use vstd::prelude::*;

verus! {

/// Knowledge of a program's native support for an optional command-line option.
#[derive(Clone, Copy, Debug, PartialEq, Eq, Structural, Hash, PartialOrd, Ord)]
pub enum OptionSupport {
    /// No support information was supplied; this does not mean unsupported.
    Unknown,
    /// The program is declared to support this option natively.
    Supported,
    /// The program is declared not to support this option natively. A host must
    /// emulate a requested operation or reject it rather than silently omit it.
    Unsupported,
}

impl Default for OptionSupport {
    fn default() -> (r: Self)
        ensures
            r == OptionSupport::Unknown,
    {
        OptionSupport::Unknown
    }
}

/// Declared native support for a lister program's optional operations.
/// `Default` and an empty builder leave every capability `Unknown`.
#[derive(Clone, Copy, Debug, PartialEq, Eq, Structural, Hash)]
pub struct ListerCapabilities {
    /// Native `--sort` support. Supported sort keys still depend on the program.
    pub sort: OptionSupport,
    /// Native `--offset` support, applied after sorting and before limiting.
    pub offset: OptionSupport,
    /// Native `--before` support: an exclusive upper cursor bound (an entry URI).
    pub before: OptionSupport,
    /// Native `--after` support: an exclusive lower cursor bound (an entry URI).
    pub after: OptionSupport,
    /// Native `--limit` support. The runner also caps output lines itself.
    pub limit: OptionSupport,
}

impl Default for ListerCapabilities {
    fn default() -> (r: Self)
        ensures
            r.sort == OptionSupport::Unknown,
            r.offset == OptionSupport::Unknown,
            r.before == OptionSupport::Unknown,
            r.after == OptionSupport::Unknown,
            r.limit == OptionSupport::Unknown,
    {
        ListerCapabilities {
            sort: OptionSupport::Unknown,
            offset: OptionSupport::Unknown,
            before: OptionSupport::Unknown,
            after: OptionSupport::Unknown,
            limit: OptionSupport::Unknown,
        }
    }
}

impl ListerCapabilities {
    /// A builder starting from all-`Unknown` capabilities.
    pub fn builder() -> (r: ListerCapabilitiesBuilder)
        ensures
            r.value() == ListerCapabilities::default_value(),
    {
        ListerCapabilitiesBuilder { capabilities: ListerCapabilities::default() }
    }

    /// All capabilities `Unknown`.
    pub open spec fn default_value() -> ListerCapabilities {
        ListerCapabilities {
            sort: OptionSupport::Unknown,
            offset: OptionSupport::Unknown,
            before: OptionSupport::Unknown,
            after: OptionSupport::Unknown,
            limit: OptionSupport::Unknown,
        }
    }
}

/// Builds [`ListerCapabilities`] one field at a time.
#[derive(Clone, Copy, Debug)]
pub struct ListerCapabilitiesBuilder {
    capabilities: ListerCapabilities,
}

impl ListerCapabilitiesBuilder {
    /// The capabilities that [`build`](Self::build) returns.
    pub closed spec fn value(self) -> ListerCapabilities {
        self.capabilities
    }

    /// Sets `sort`.
    pub fn sort(self, support: OptionSupport) -> (r: Self)
        ensures
            r.value() == (ListerCapabilities { sort: support, ..self.value() }),
    {
        let mut b = self;
        b.capabilities.sort = support;
        b
    }

    /// Sets `offset`.
    pub fn offset(self, support: OptionSupport) -> (r: Self)
        ensures
            r.value() == (ListerCapabilities { offset: support, ..self.value() }),
    {
        let mut b = self;
        b.capabilities.offset = support;
        b
    }

    /// Sets `before`.
    pub fn before(self, support: OptionSupport) -> (r: Self)
        ensures
            r.value() == (ListerCapabilities { before: support, ..self.value() }),
    {
        let mut b = self;
        b.capabilities.before = support;
        b
    }

    /// Sets `after`.
    pub fn after(self, support: OptionSupport) -> (r: Self)
        ensures
            r.value() == (ListerCapabilities { after: support, ..self.value() }),
    {
        let mut b = self;
        b.capabilities.after = support;
        b
    }

    /// Sets `limit`.
    pub fn limit(self, support: OptionSupport) -> (r: Self)
        ensures
            r.value() == (ListerCapabilities { limit: support, ..self.value() }),
    {
        let mut b = self;
        b.capabilities.limit = support;
        b
    }

    /// The configured capabilities.
    pub fn build(self) -> (r: ListerCapabilities)
        ensures
            r == self.value(),
    {
        self.capabilities
    }
}

} // verus!
