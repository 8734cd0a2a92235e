use vstd::prelude::*;

verus! {

/// The severity of a tracing span.
#[derive(Clone, Copy, Debug, PartialEq, Eq, Structural)]
pub enum TraceLevel {
    Error,
    Warn,
    Info,
    Debug,
    Trace,
}

/// The level that request spans get unless told otherwise.
pub open spec fn default_level() -> TraceLevel {
    TraceLevel::Debug
}

/// The settings of the per-request span maker: each request gets a span at
/// `level` carrying a fresh time-ordered id, its method, URI and version, and
/// its headers when `include_headers` is set.
#[derive(Clone, Copy, Debug, PartialEq, Eq, Structural)]
pub struct MakeSpanWithUuid {
    level: TraceLevel,
    include_headers: bool,
}

impl MakeSpanWithUuid {
    pub closed spec fn spec_level(&self) -> TraceLevel {
        self.level
    }

    pub closed spec fn spec_include_headers(&self) -> bool {
        self.include_headers
    }

    /// Spans at the debug level, without headers.
    pub fn new() -> (r: MakeSpanWithUuid)
        ensures
            r.spec_level() == default_level(),
            !r.spec_include_headers(),
    {
        MakeSpanWithUuid { level: TraceLevel::Debug, include_headers: false }
    }

    /// The same settings with spans at `level`.
    pub fn level(self, level: TraceLevel) -> (r: MakeSpanWithUuid)
        ensures
            r.spec_level() == level,
            r.spec_include_headers() == self.spec_include_headers(),
    {
        MakeSpanWithUuid { level, ..self }
    }

    /// The same settings, with or without the request headers on each span.
    pub fn include_headers(self, include_headers: bool) -> (r: MakeSpanWithUuid)
        ensures
            r.spec_level() == self.spec_level(),
            r.spec_include_headers() == include_headers,
    {
        MakeSpanWithUuid { include_headers, ..self }
    }

    /// The level of the spans.
    pub fn span_level(&self) -> (r: TraceLevel)
        ensures
            r == self.spec_level(),
    {
        self.level
    }

    /// Whether the spans carry the request headers.
    pub fn includes_headers(&self) -> (r: bool)
        ensures
            r == self.spec_include_headers(),
    {
        self.include_headers
    }
}

impl Default for MakeSpanWithUuid {
    fn default() -> (r: MakeSpanWithUuid)
        ensures
            r.spec_level() == default_level(),
            !r.spec_include_headers(),
    {
        MakeSpanWithUuid::new()
    }
}

} // verus!
