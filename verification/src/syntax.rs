use vstd::prelude::*;

use crate::media_type::MediaType;

verus! {

/// Toggles for the plain ECMAScript grammar.
#[derive(Clone, Copy, Debug, PartialEq, Eq, Structural)]
pub struct EsConfig {
    pub jsx: bool,
    pub fn_bind: bool,
    pub decorators: bool,
    pub decorators_before_export: bool,
    pub export_default_from: bool,
    pub import_attributes: bool,
    pub allow_super_outside_method: bool,
    pub allow_return_outside_function: bool,
    pub auto_accessors: bool,
    pub explicit_resource_management: bool,
}

/// Toggles for the TypeScript grammar.
#[derive(Clone, Copy, Debug, PartialEq, Eq, Structural)]
pub struct TsConfig {
    pub tsx: bool,
    pub decorators: bool,
    pub dts: bool,
    pub no_early_errors: bool,
    pub disallow_ambiguous_jsx_like: bool,
}

/// A grammar configuration: the set of language-extension toggles used by
/// the lexer and parser for one parse.
#[derive(Clone, Copy, Debug, PartialEq, Eq, Structural)]
pub enum GrammarConfig {
    Es(EsConfig),
    Typescript(TsConfig),
}

/// The authoritative media-type to grammar mapping.
pub open spec fn default_syntax(media_type: MediaType) -> GrammarConfig {
    if media_type.is_typescript() {
        GrammarConfig::Typescript(
            TsConfig {
                tsx: media_type == MediaType::Tsx,
                decorators: true,
                dts: media_type.is_declaration(),
                no_early_errors: false,
                disallow_ambiguous_jsx_like: media_type == MediaType::Mts || media_type
                    == MediaType::Cts,
            },
        )
    } else {
        GrammarConfig::Es(
            EsConfig {
                jsx: media_type == MediaType::Jsx,
                fn_bind: false,
                decorators: false,
                decorators_before_export: false,
                export_default_from: true,
                import_attributes: true,
                allow_super_outside_method: true,
                allow_return_outside_function: true,
                auto_accessors: true,
                explicit_resource_management: true,
            },
        )
    }
}

/// Gets the default grammar configuration for the provided media type.
pub fn get_syntax(media_type: MediaType) -> (r: GrammarConfig)
    ensures
        r == default_syntax(media_type),
{
    match media_type {
        MediaType::TypeScript
        | MediaType::Mts
        | MediaType::Cts
        | MediaType::Dts
        | MediaType::Dmts
        | MediaType::Dcts
        | MediaType::Tsx => GrammarConfig::Typescript(
            TsConfig {
                tsx: media_type == MediaType::Tsx,
                decorators: true,
                dts: matches!(media_type, MediaType::Dts | MediaType::Dmts | MediaType::Dcts),
                no_early_errors: false,
                disallow_ambiguous_jsx_like: matches!(media_type, MediaType::Mts | MediaType::Cts),
            },
        ),
        MediaType::JavaScript
        | MediaType::Mjs
        | MediaType::Cjs
        | MediaType::Jsx
        | MediaType::Json
        | MediaType::Wasm
        | MediaType::TsBuildInfo
        | MediaType::SourceMap
        | MediaType::Unknown => GrammarConfig::Es(
            EsConfig {
                jsx: media_type == MediaType::Jsx,
                fn_bind: false,
                decorators: false,
                decorators_before_export: false,
                export_default_from: true,
                import_attributes: true,
                allow_super_outside_method: true,
                allow_return_outside_function: true,
                auto_accessors: true,
                explicit_resource_management: true,
            },
        ),
    }
}

} // verus!
