//! A configuration and adaptation layer over an external ECMAScript /
//! TypeScript grammar engine: it selects grammar options for a media type,
//! drives the engine over a source text, and packages the tree, comments,
//! tokens, scope markers and diagnostics into one immutable result value.

pub mod comments;
pub mod diagnostic;
pub mod engine;
pub mod media_type;
pub mod parsed_source;
pub mod parsing;
pub mod syntax;
pub mod text_info;

pub use crate::comments::Comment;
pub use crate::comments::CommentKind;
pub use crate::comments::MultiThreadedComments;
pub use crate::diagnostic::Diagnostic;
pub use crate::media_type::MediaType;
pub use crate::parsed_source::ParsedSource;
pub use crate::parsed_source::SyntaxContexts;
pub use crate::parsed_source::SyntaxTree;
pub use crate::parsing::parse_module;
pub use crate::parsing::parse_module_with_post_process;
pub use crate::parsing::parse_program;
pub use crate::parsing::parse_program_with_post_process;
pub use crate::parsing::parse_script;
pub use crate::parsing::parse_script_with_post_process;
pub use crate::parsing::ParseParams;
pub use crate::syntax::get_syntax;
pub use crate::syntax::EsConfig;
pub use crate::syntax::GrammarConfig;
pub use crate::syntax::TsConfig;
pub use crate::text_info::LineAndColumnDisplay;
pub use crate::text_info::SourceTextInfo;
