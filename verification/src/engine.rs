use vstd::prelude::*;

use swc_common::comments::Comment as EngineComment;
use swc_common::comments::SingleThreadedComments;
use swc_common::input::StringInput;
use swc_common::BytePos;
use swc_common::Globals;
use swc_common::Mark;
use swc_common::Spanned;
use swc_common::SyntaxContext;
use swc_common::GLOBALS;
use swc_ecma_ast::EsVersion;
use swc_ecma_ast::Module;
use swc_ecma_ast::Program;
use swc_ecma_ast::Script;
use swc_ecma_parser::unstable::Capturing;
use swc_ecma_parser::unstable::TokenAndSpan;
use swc_ecma_parser::Lexer;
use swc_ecma_parser::Parser;
use swc_ecma_transforms_base::resolver;

use crate::comments::groups_match_map;
use crate::comments::Comment;
use crate::parsed_source::SyntaxTree;
use crate::comments::CommentKind;
use crate::syntax::GrammarConfig;

verus! {

#[verifier::external_type_specification]
#[verifier::external_body]
pub struct ExModule(Module);

#[verifier::external_type_specification]
#[verifier::external_body]
pub struct ExScript(Script);

#[verifier::external_type_specification]
#[verifier::external_body]
pub struct ExTokenAndSpan(TokenAndSpan);

#[verifier::external_type_specification]
#[verifier::external_body]
pub struct ExSingleThreadedComments(SingleThreadedComments);

#[verifier::external_type_specification]
#[verifier::external_body]
pub struct ExEngineComment(EngineComment);

#[verifier::external_type_specification]
#[verifier::external_body]
pub struct ExSyntaxContext(SyntaxContext);

#[verifier::external_type_specification]
#[verifier::external_body]
pub struct ExEngineSyntax(swc_ecma_parser::Syntax);

#[verifier::external_type_specification]
#[verifier::external_body]
pub struct ExParserError(swc_ecma_parser::error::Error);

/// A syntax problem as the engine reports it: a byte span into the source
/// text and a human-readable message.
pub struct EngineError {
    pub lo: u32,
    pub hi: u32,
    pub message: String,
}

/// The plain content of an engine error, for contracts.
pub open spec fn engine_error_data(e: EngineError) -> (u32, u32, Seq<char>) {
    (e.lo, e.hi, e.message@)
}

/// What a parse yields, in plain form: the recoverable errors when the
/// engine produced a tree, or the single fatal error when it could not.
pub type ParseOutcome = Result<Seq<(u32, u32, Seq<char>)>, (u32, u32, Seq<char>)>;

/// A successful outcome carrying the given recoverable errors.
pub open spec fn recovered(errors: Seq<(u32, u32, Seq<char>)>) -> ParseOutcome {
    Ok(errors)
}

/// A fatal outcome carrying the given error.
pub open spec fn fatal(error: (u32, u32, Seq<char>)) -> ParseOutcome {
    Err(error)
}

/// What a program-mode (auto-detecting) parse yields, in plain form:
/// whether the engine detected a module, and the recoverable errors; or the
/// single fatal error.
pub type ProgramOutcome = Result<(bool, Seq<(u32, u32, Seq<char>)>), (u32, u32, Seq<char>)>;

/// A successful auto-detecting outcome: whether a module was detected, and
/// the recoverable errors.
pub open spec fn detected(is_module: bool, errors: Seq<(u32, u32, Seq<char>)>) -> ProgramOutcome {
    Ok((is_module, errors))
}

/// A fatal auto-detecting outcome carrying the given error.
pub open spec fn detected_fatal(error: (u32, u32, Seq<char>)) -> ProgramOutcome {
    Err(error)
}

/// What one program-mode parse of the given text under the given grammar
/// configuration yields: the detected script-or-module shape and the
/// recoverable errors on success, or the fatal error. Parsing is a pure,
/// deterministic function of text and configuration, which is what lets its
/// outcome carry a name.
pub uninterp spec fn program_parse_outcome(syntax: GrammarConfig, text: Seq<char>) -> ProgramOutcome;

/// What one module-mode parse of the given text under the given grammar
/// configuration yields.
pub uninterp spec fn module_parse_outcome(syntax: GrammarConfig, text: Seq<char>) -> ParseOutcome;

/// What one script-mode parse of the given text under the given grammar
/// configuration yields.
pub uninterp spec fn script_parse_outcome(syntax: GrammarConfig, text: Seq<char>) -> ParseOutcome;

/// What the engine's comment collection holds as leading comments: for
/// each byte position, the comments leading the token there, each as
/// (is-line-comment, text, span start, span end).
pub uninterp spec fn leading_comments_of(c: SingleThreadedComments) -> Map<
    u32,
    Seq<(bool, Seq<char>, u32, u32)>,
>;

/// What the engine's comment collection holds as trailing comments, in the
/// same form as `leading_comments_of`.
pub uninterp spec fn trailing_comments_of(c: SingleThreadedComments) -> Map<
    u32,
    Seq<(bool, Seq<char>, u32, u32)>,
>;

/// Relies on swc_ecma_parser's Syntax, EsSyntax and TsSyntax: carries each
/// toggle of the library's grammar configuration to the engine field of the
/// same name.
#[verifier::external_body]
pub(crate) fn to_engine_syntax(syntax: &GrammarConfig) -> (r: swc_ecma_parser::Syntax) {
    match syntax {
        GrammarConfig::Es(c) => swc_ecma_parser::Syntax::Es(swc_ecma_parser::EsSyntax {
            jsx: c.jsx, fn_bind: c.fn_bind, decorators: c.decorators,
            decorators_before_export: c.decorators_before_export,
            export_default_from: c.export_default_from, import_attributes: c.import_attributes,
            allow_super_outside_method: c.allow_super_outside_method,
            allow_return_outside_function: c.allow_return_outside_function,
            auto_accessors: c.auto_accessors,
            explicit_resource_management: c.explicit_resource_management,
        }),
        GrammarConfig::Typescript(c) => swc_ecma_parser::Syntax::Typescript(swc_ecma_parser::TsSyntax {
            tsx: c.tsx, decorators: c.decorators, dts: c.dts, no_early_errors: c.no_early_errors,
            disallow_ambiguous_jsx_like: c.disallow_ambiguous_jsx_like,
        }),
    }
}

/// Relies on swc_ecma_parser's Error and swc_common's Spanned: copies the
/// error's byte span and its rendered message out as the library's plain
/// error value.
#[verifier::external_body]
pub(crate) fn error_to_plain(e: swc_ecma_parser::error::Error) -> (r: EngineError) {
    EngineError { lo: e.span().lo.0, hi: e.span().hi.0, message: e.into_kind().msg().to_string() }
}

/// Relies on swc_ecma_parser's Lexer, Capturing and Parser::parse_program,
/// with comment collection from swc_common: parses the text, auto-detecting
/// script versus module, at the pinned Es2021 lexing level. Returns the
/// tree with its detected shape, the captured tokens, the collected
/// comments and the recoverable errors, or the first unrecoverable error.
#[verifier::external_body]
pub(crate) fn parse_program_raw(text: &str, syntax: &GrammarConfig) -> (r: Result<
    (SyntaxTree, Vec<TokenAndSpan>, SingleThreadedComments, Vec<EngineError>),
    EngineError,
>)
    ensures
        r is Ok <==> program_parse_outcome(*syntax, text@) is Ok,
        r matches Ok(t) ==> program_parse_outcome(*syntax, text@) == detected(
            t.0 is Module,
            t.3@.map_values(|e: EngineError| engine_error_data(e)),
        ),
        r matches Err(e) ==> program_parse_outcome(*syntax, text@) == detected_fatal(
            engine_error_data(e),
        ),
{
    let comments = SingleThreadedComments::default();
    let input = StringInput::new(text, BytePos(0), BytePos(text.len() as u32));
    let lexer = Lexer::new(to_engine_syntax(syntax), EsVersion::Es2021, input, Some(&comments));
    let mut parser = Parser::new_from(Capturing::new(lexer));
    let result = parser.parse_program();
    let errors: Vec<EngineError> = parser.take_errors().into_iter().map(error_to_plain).collect();
    let tokens = parser.input_mut().iter.take();
    match result {
        Ok(Program::Module(m)) => Ok((SyntaxTree::Module(m), tokens, comments, errors)),
        Ok(Program::Script(s)) => Ok((SyntaxTree::Script(s), tokens, comments, errors)),
        Err(e) => Err(error_to_plain(e)),
    }
}

/// Relies on swc_ecma_parser's Parser::parse_module, as `parse_program_raw`
/// relies on Parser::parse_program.
#[verifier::external_body]
pub(crate) fn parse_module_raw(text: &str, syntax: &GrammarConfig) -> (r: Result<
    (Module, Vec<TokenAndSpan>, SingleThreadedComments, Vec<EngineError>),
    EngineError,
>)
    ensures
        r is Ok <==> module_parse_outcome(*syntax, text@) is Ok,
        r matches Ok(t) ==> module_parse_outcome(*syntax, text@) == recovered(
            t.3@.map_values(|e: EngineError| engine_error_data(e)),
        ),
        r matches Err(e) ==> module_parse_outcome(*syntax, text@) == fatal(engine_error_data(e)),
{
    let comments = SingleThreadedComments::default();
    let input = StringInput::new(text, BytePos(0), BytePos(text.len() as u32));
    let lexer = Lexer::new(to_engine_syntax(syntax), EsVersion::Es2021, input, Some(&comments));
    let mut parser = Parser::new_from(Capturing::new(lexer));
    let result = parser.parse_module();
    let errors = parser.take_errors();
    let tokens = parser.input_mut().iter.take();
    match result {
        Ok(m) => Ok((m, tokens, comments, errors.into_iter().map(error_to_plain).collect())),
        Err(e) => Err(error_to_plain(e)),
    }
}

/// Relies on swc_ecma_parser's Parser::parse_script, as `parse_program_raw`
/// relies on Parser::parse_program.
#[verifier::external_body]
pub(crate) fn parse_script_raw(text: &str, syntax: &GrammarConfig) -> (r: Result<
    (Script, Vec<TokenAndSpan>, SingleThreadedComments, Vec<EngineError>),
    EngineError,
>)
    ensures
        r is Ok <==> script_parse_outcome(*syntax, text@) is Ok,
        r matches Ok(t) ==> script_parse_outcome(*syntax, text@) == recovered(
            t.3@.map_values(|e: EngineError| engine_error_data(e)),
        ),
        r matches Err(e) ==> script_parse_outcome(*syntax, text@) == fatal(engine_error_data(e)),
{
    let comments = SingleThreadedComments::default();
    let input = StringInput::new(text, BytePos(0), BytePos(text.len() as u32));
    let lexer = Lexer::new(to_engine_syntax(syntax), EsVersion::Es2021, input, Some(&comments));
    let mut parser = Parser::new_from(Capturing::new(lexer));
    let result = parser.parse_script();
    let errors = parser.take_errors();
    let tokens = parser.input_mut().iter.take();
    match result {
        Ok(s) => Ok((s, tokens, comments, errors.into_iter().map(error_to_plain).collect())),
        Err(e) => Err(error_to_plain(e)),
    }
}

/// Relies on swc_common's Spanned for the engine's Module: the byte
/// position where the module's span begins.
#[verifier::external_body]
pub(crate) fn module_start(m: &Module) -> (r: u32) {
    m.span().lo.0
}

/// Relies on swc_common's Spanned for the engine's Script: the byte
/// position where the script's span begins.
#[verifier::external_body]
pub(crate) fn script_start(s: &Script) -> (r: u32) {
    s.span().lo.0
}

/// Relies on swc_common's Comment: copies its kind, text and byte span out
/// as the library's own comment value.
#[verifier::external_body]
pub(crate) fn comment_to_plain(c: &EngineComment) -> (r: Comment) {
    Comment {
        kind: match c.kind {
            swc_common::comments::CommentKind::Line => CommentKind::Line,
            swc_common::comments::CommentKind::Block => CommentKind::Block,
        },
        text: c.text.to_string(),
        lo: c.span.lo.0,
        hi: c.span.hi.0,
    }
}

/// Relies on swc_common's SingleThreadedComments::take_all: hands out the
/// leading and trailing comments collected during lexing as the library's
/// own comment values, grouped under the byte position of the token each
/// group is attached to, in the comment maps' own (unspecified) walk
/// order. Each group list holds exactly the collection's content for its
/// side, with no position repeated.
#[verifier::external_body]
pub(crate) fn take_comments(comments: SingleThreadedComments) -> (r: (
    Vec<(u32, Vec<Comment>)>,
    Vec<(u32, Vec<Comment>)>,
))
    ensures
        groups_match_map(r.0@, leading_comments_of(comments)),
        groups_match_map(r.1@, trailing_comments_of(comments)),
{
    let (leading, trailing) = comments.take_all();
    let unwrap_map = |m: swc_common::comments::SingleThreadedCommentsMap| {
        match std::rc::Rc::try_unwrap(m) {
            Ok(cell) => cell.into_inner(),
            Err(rc) => rc.borrow().clone(),
        }
    };
    let conv = |m: swc_common::comments::SingleThreadedCommentsMapInner| -> Vec<(u32, Vec<Comment>)> {
        m.into_iter().map(|(p, cs)| (p.0, cs.iter().map(comment_to_plain).collect())).collect()
    };
    (conv(unwrap_map(leading)), conv(unwrap_map(trailing)))
}

/// Relies on swc_ecma_transforms_base::resolver with swc_common's Mark and
/// SyntaxContext: rewrites the tree so every identifier carries the scope
/// tag of its declaration, and returns the unresolved-binding and
/// top-level-binding markers. The resolver is an in-place visitor, so the
/// tree keeps its script-or-module shape. The two markers come from two
/// fresh marks, and a context made by applying a mark to the empty context
/// is keyed by that mark in the hygiene table, so the markers are distinct;
/// beyond that the marks are fresh per call, so nothing relates the markers
/// of two runs.
#[verifier::external_body]
pub(crate) fn resolve_scopes(tree: SyntaxTree) -> (r: (SyntaxTree, SyntaxContext, SyntaxContext))
    ensures
        r.0 is Module <==> tree is Module,
        r.1 != r.2,
{
    let globals = Globals::new();
    GLOBALS.set(&globals, || {
        let unresolved_mark = Mark::new();
        let top_level_mark = Mark::new();
        let program = match tree { SyntaxTree::Module(m) => Program::Module(m), SyntaxTree::Script(s) => Program::Script(s) };
        let program = program.apply(resolver(unresolved_mark, top_level_mark, true));
        let tree = match program { Program::Module(m) => SyntaxTree::Module(m), Program::Script(s) => SyntaxTree::Script(s) };
        (tree, SyntaxContext::empty().apply_mark(unresolved_mark), SyntaxContext::empty().apply_mark(top_level_mark))
    })
}

} // verus!
