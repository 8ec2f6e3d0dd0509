use vstd::pervasive::unreached;
use vstd::prelude::*;

use swc_common::SyntaxContext;
use swc_ecma_ast::Module;
use swc_ecma_ast::Script;
use swc_ecma_parser::unstable::TokenAndSpan;

use crate::comments::groups_at;
use crate::comments::Comment;
use crate::comments::MultiThreadedComments;
use crate::diagnostic::Diagnostic;
use crate::engine;
use crate::media_type::MediaType;
use crate::text_info::SourceTextInfo;

verus! {

/// The library's view of the engine's syntax tree: the script-or-module
/// union, with the variant visible to contracts.
#[derive(Debug, PartialEq)]
pub enum SyntaxTree {
    Module(Module),
    Script(Script),
}

/// The two opaque scope markers produced by scope analysis: the tag that
/// unresolvable (global) identifiers carry, and the tag that top-level
/// declarations carry.
#[derive(Clone, Copy)]
pub struct SyntaxContexts {
    pub unresolved: SyntaxContext,
    pub top_level: SyntaxContext,
}

/// Applies the scope resolver to a freshly parsed tree and returns the
/// rewritten tree, its shape unchanged, together with the two distinct
/// top-level scope markers.
pub(crate) fn scope_analysis_transform(tree: SyntaxTree) -> (r: (SyntaxTree, Option<SyntaxContexts>))
    ensures
        r.1 is Some,
        r.0 is Module <==> tree is Module,
        r.1 matches Some(c) ==> c.unresolved != c.top_level,
{
    let (tree, unresolved, top_level) = engine::resolve_scopes(tree);
    (tree, Some(SyntaxContexts { unresolved, top_level }))
}

/// One fully parsed source: the terminal, immutable result value. Created
/// once by packaging the parse artifacts; read-only afterwards.
pub struct ParsedSource {
    specifier: String,
    media_type: MediaType,
    text_info: SourceTextInfo,
    comments: MultiThreadedComments,
    program: SyntaxTree,
    program_lo: u32,
    tokens: Option<Vec<TokenAndSpan>>,
    syntax_contexts: Option<SyntaxContexts>,
    diagnostics: Vec<Diagnostic>,
}

impl ParsedSource {
    /// The specifier the source was parsed under.
    pub closed spec fn spec_specifier(&self) -> Seq<char> {
        self.specifier@
    }

    /// The media type the source was parsed under.
    pub closed spec fn spec_media_type(&self) -> MediaType {
        self.media_type
    }

    /// The source text.
    pub closed spec fn spec_text(&self) -> Seq<char> {
        self.text_info@
    }

    /// The comment index.
    pub closed spec fn comments_index(&self) -> MultiThreadedComments {
        self.comments
    }

    /// The syntax tree.
    pub closed spec fn spec_program(&self) -> SyntaxTree {
        self.program
    }

    /// The byte position where the tree's span begins.
    pub closed spec fn spec_program_start(&self) -> u32 {
        self.program_lo
    }

    /// Whether tokens were captured when this source was parsed.
    pub closed spec fn has_tokens(&self) -> bool {
        self.tokens is Some
    }

    /// The captured tokens, when there are any.
    pub closed spec fn tokens_view(&self) -> Seq<TokenAndSpan> {
        self.tokens->Some_0@
    }

    /// Whether scope analysis was applied to this source.
    pub closed spec fn has_scope_analysis(&self) -> bool {
        self.syntax_contexts is Some
    }

    /// The scope markers, when scope analysis was applied.
    pub closed spec fn spec_contexts(&self) -> Option<SyntaxContexts> {
        self.syntax_contexts
    }

    /// Whether the two scope markers, if present, are distinct: a made-up
    /// or duplicated marker would corrupt identity comparisons.
    pub open spec fn scope_markers_distinct(&self) -> bool {
        self.spec_contexts() matches Some(c) ==> c.unresolved != c.top_level
    }

    /// The recoverable syntax errors found while parsing.
    pub closed spec fn spec_diagnostics(&self) -> Seq<Diagnostic> {
        self.diagnostics@
    }

    /// Packages the artifacts of one parse into the immutable result value:
    /// pure assembly, with no failure mode.
    pub(crate) fn new(
        specifier: String,
        media_type: MediaType,
        text_info: SourceTextInfo,
        comments: MultiThreadedComments,
        program: SyntaxTree,
        tokens: Option<Vec<TokenAndSpan>>,
        syntax_contexts: Option<SyntaxContexts>,
        diagnostics: Vec<Diagnostic>,
    ) -> (r: ParsedSource)
        ensures
            r.spec_specifier() == specifier@,
            r.spec_media_type() == media_type,
            r.spec_text() == text_info@,
            r.comments_index() == comments,
            r.spec_program() == program,
            r.has_tokens() <==> tokens is Some,
            tokens matches Some(t) ==> r.tokens_view() == t@,
            r.has_scope_analysis() <==> syntax_contexts is Some,
            r.spec_contexts() == syntax_contexts,
            r.spec_diagnostics() == diagnostics@,
    {
        let program_lo = match &program {
            SyntaxTree::Module(m) => engine::module_start(m),
            SyntaxTree::Script(script) => engine::script_start(script),
        };
        ParsedSource {
            specifier,
            media_type,
            text_info,
            comments,
            program,
            program_lo,
            tokens,
            syntax_contexts,
            diagnostics,
        }
    }

    /// The specifier the source was parsed under.
    pub fn specifier(&self) -> (r: &str)
        ensures
            r@ == self.spec_specifier(),
    {
        self.specifier.as_str()
    }

    /// The media type the source was parsed under.
    pub fn media_type(&self) -> (r: MediaType)
        ensures
            r == self.spec_media_type(),
    {
        self.media_type
    }

    /// The source text.
    pub fn text_info(&self) -> (r: &SourceTextInfo)
        ensures
            r@ == self.spec_text(),
    {
        &self.text_info
    }

    /// The syntax tree.
    pub fn program(&self) -> (r: &SyntaxTree)
        ensures
            *r == self.spec_program(),
    {
        &self.program
    }

    /// The comment index.
    pub fn comments(&self) -> (r: &MultiThreadedComments)
        ensures
            *r == self.comments_index(),
    {
        &self.comments
    }

    /// The comments leading the first token of the tree, if any.
    pub fn get_leading_comments(&self) -> (r: Option<&Vec<Comment>>)
        ensures
            match r {
                Some(v) => groups_at(self.comments_index().spec_leading(), self.spec_program_start())
                    == Some(v@),
                None => groups_at(
                    self.comments_index().spec_leading(),
                    self.spec_program_start(),
                ) is None,
            },
    {
        self.comments.get_leading(self.program_lo)
    }

    /// The tokens captured while parsing. Only a source parsed with token
    /// capture on holds them: on any other source this demand is a caller
    /// error, since no captured tokens and zero tokens mean different
    /// things.
    pub fn tokens(&self) -> (r: &Vec<TokenAndSpan>)
        requires
            self.has_tokens(),
        ensures
            r@ == self.tokens_view(),
    {
        match &self.tokens {
            Some(tokens) => tokens,
            None => unreached(),
        }
    }

    /// The recoverable syntax errors found while parsing.
    pub fn diagnostics(&self) -> (r: &Vec<Diagnostic>)
        ensures
            r@ == self.spec_diagnostics(),
    {
        &self.diagnostics
    }

    /// The scope marker of top-level declarations. Only a source parsed
    /// with scope analysis holds one: on any other source this demand is a
    /// caller error, since a made-up marker would corrupt identity
    /// comparisons.
    pub fn top_level_context(&self) -> (r: SyntaxContext)
        requires
            self.has_scope_analysis(),
        ensures
            self.spec_contexts() matches Some(c) && r == c.top_level,
    {
        match &self.syntax_contexts {
            Some(contexts) => contexts.top_level,
            None => unreached(),
        }
    }

    /// The scope marker of unresolvable (global) identifier bindings. Only
    /// a source parsed with scope analysis holds one.
    pub fn unresolved_context(&self) -> (r: SyntaxContext)
        requires
            self.has_scope_analysis(),
        ensures
            self.spec_contexts() matches Some(c) && r == c.unresolved,
    {
        match &self.syntax_contexts {
            Some(contexts) => contexts.unresolved,
            None => unreached(),
        }
    }

    /// A result value with scope analysis applied: this one if it already
    /// carries scope markers, and otherwise a new value whose tree has been
    /// run through the scope resolver. Everything but the tree and the
    /// markers is carried over unchanged, and the tree keeps its
    /// script-or-module shape.
    pub fn into_with_scope_analysis(self) -> (r: ParsedSource)
        ensures
            r.has_scope_analysis(),
            r.spec_program() is Module <==> self.spec_program() is Module,
            self.scope_markers_distinct() ==> r.scope_markers_distinct(),
            !self.has_scope_analysis() ==> r.scope_markers_distinct(),
            r.spec_specifier() == self.spec_specifier(),
            r.spec_media_type() == self.spec_media_type(),
            r.spec_text() == self.spec_text(),
            r.comments_index() == self.comments_index(),
            r.has_tokens() <==> self.has_tokens(),
            self.has_tokens() ==> r.tokens_view() == self.tokens_view(),
            r.spec_diagnostics() == self.spec_diagnostics(),
    {
        if self.syntax_contexts.is_some() {
            self
        } else {
            let ParsedSource {
                specifier,
                media_type,
                text_info,
                comments,
                program,
                program_lo: _,
                tokens,
                syntax_contexts: _,
                diagnostics,
            } = self;
            let (program, syntax_contexts) = scope_analysis_transform(program);
            ParsedSource::new(
                specifier,
                media_type,
                text_info,
                comments,
                program,
                tokens,
                syntax_contexts,
                diagnostics,
            )
        }
    }
}

} // verus!
