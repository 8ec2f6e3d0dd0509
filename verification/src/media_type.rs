use vstd::prelude::*;

verus! {

/// The declared flavor of a source file: it decides which grammar
/// configuration is used when the file is parsed.
#[derive(Clone, Copy, Debug, PartialEq, Eq, Structural)]
pub enum MediaType {
    JavaScript,
    Jsx,
    Mjs,
    Cjs,
    TypeScript,
    Mts,
    Cts,
    Dts,
    Dmts,
    Dcts,
    Tsx,
    Json,
    Wasm,
    TsBuildInfo,
    SourceMap,
    Unknown,
}

impl MediaType {
    /// Media types parsed with the TypeScript grammar; all others use the
    /// plain ECMAScript grammar.
    pub open spec fn is_typescript(self) -> bool {
        self == MediaType::TypeScript || self == MediaType::Mts || self == MediaType::Cts
            || self == MediaType::Dts || self == MediaType::Dmts || self == MediaType::Dcts
            || self == MediaType::Tsx
    }

    /// Ambient, declaration-only TypeScript media types.
    pub open spec fn is_declaration(self) -> bool {
        self == MediaType::Dts || self == MediaType::Dmts || self == MediaType::Dcts
    }
}

} // verus!
