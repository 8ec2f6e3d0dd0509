use vstd::prelude::*;

use swc_common::comments::SingleThreadedComments;
use swc_ecma_ast::Module;
use swc_ecma_ast::Script;
use swc_ecma_parser::unstable::TokenAndSpan;

use crate::comments::groups_match_map;
use crate::comments::MultiThreadedComments;
use crate::diagnostic::Diagnostic;
use crate::engine;
use crate::engine::engine_error_data;
use crate::engine::module_parse_outcome;
use crate::engine::program_parse_outcome;
use crate::engine::script_parse_outcome;
use crate::engine::EngineError;
use crate::engine::ParseOutcome;
use crate::engine::ProgramOutcome;
use crate::media_type::MediaType;
use crate::parsed_source::scope_analysis_transform;
use crate::parsed_source::ParsedSource;
use crate::parsed_source::SyntaxTree;
use crate::syntax::default_syntax;
use crate::syntax::get_syntax;
use crate::syntax::GrammarConfig;
use crate::text_info::SourceTextInfo;

verus! {

/// Parameters for parsing.
pub struct ParseParams {
    /// Specifier of the source text.
    pub specifier: String,
    /// Source text stored in a `SourceTextInfo`.
    pub text_info: SourceTextInfo,
    /// Media type of the source text.
    pub media_type: MediaType,
    /// Whether to capture tokens or not.
    pub capture_tokens: bool,
    /// Whether to apply scope analysis.
    pub scope_analysis: bool,
    /// Grammar configuration to use when parsing. When given it fully
    /// overrides the media type's default configuration.
    pub maybe_syntax: Option<GrammarConfig>,
}

/// The grammar configuration one request is parsed under: the explicit
/// override when one was supplied, else the media type's default.
pub open spec fn chosen_config(params: ParseParams) -> GrammarConfig {
    match params.maybe_syntax {
        Some(config) => config,
        None => default_syntax(params.media_type),
    }
}

/// Whether `d` renders the engine error `e` for the given specifier and
/// source text.
pub open spec fn diag_matches(
    d: Diagnostic,
    e: (u32, u32, Seq<char>),
    specifier: Seq<char>,
    text: Seq<char>,
) -> bool {
    d.specifier@ == specifier && d.lo == e.0 && d.hi == e.1 && d.message@ == e.2 && d.text_info@
        == text
}

/// Whether `ps` is the packaging of a parse of `text` under the given
/// request fields: its tree has the given script-or-module shape, its
/// markers (present exactly when scope analysis was requested) are
/// distinct, and its diagnostics render exactly the errors `errors`.
pub open spec fn packaged_from(
    ps: ParsedSource,
    specifier: Seq<char>,
    media_type: MediaType,
    text: Seq<char>,
    capture_tokens: bool,
    scope_analysis: bool,
    module_shape: bool,
    errors: Seq<(u32, u32, Seq<char>)>,
) -> bool {
    &&& ps.spec_specifier() == specifier
    &&& ps.spec_media_type() == media_type
    &&& ps.spec_text() == text
    &&& (ps.has_tokens() <==> capture_tokens)
    &&& (ps.has_scope_analysis() <==> scope_analysis)
    &&& (ps.spec_program() is Module <==> module_shape)
    &&& ps.scope_markers_distinct()
    &&& ps.spec_diagnostics().len() == errors.len()
    &&& forall|i: int|
        0 <= i < errors.len() ==> diag_matches(
            #[trigger] ps.spec_diagnostics()[i],
            errors[i],
            specifier,
            text,
        )
}

/// Whether `r` is the result the request `params` must produce when the
/// engine's outcome for it is `outcome` and the tree's shape must be
/// `module_shape`: a packaged source carrying the recoverable errors as
/// diagnostics, or the fatal error as a diagnostic.
pub open spec fn parse_result_matches(
    r: Result<ParsedSource, Diagnostic>,
    params: ParseParams,
    module_shape: bool,
    outcome: ParseOutcome,
) -> bool {
    match outcome {
        Ok(errors) => r matches Ok(ps) && packaged_from(
            ps,
            params.specifier@,
            params.media_type,
            params.text_info@,
            params.capture_tokens,
            params.scope_analysis,
            module_shape,
            errors,
        ),
        Err(e) => r matches Err(d) && diag_matches(d, e, params.specifier@, params.text_info@),
    }
}

/// Whether `r` is the result the request `params` must produce in
/// auto-detecting program mode, whose engine outcome `outcome` also carries
/// the detected shape.
pub open spec fn program_result_matches(
    r: Result<ParsedSource, Diagnostic>,
    params: ParseParams,
    outcome: ProgramOutcome,
) -> bool {
    match outcome {
        Ok(o) => parse_result_matches(r, params, o.0, engine::recovered(o.1)),
        Err(e) => parse_result_matches(r, params, false, engine::fatal(e)),
    }
}

/// Whether `post_process` sends every tree to a tree of the same
/// script-or-module shape: the caller's obligation on a program-mode hook.
pub open spec fn shape_preserving<F: FnOnce(SyntaxTree) -> SyntaxTree>(post_process: F) -> bool {
    forall|t: SyntaxTree, out: SyntaxTree|
        #[trigger] call_ensures(post_process, (t,), out) ==> ((out is Module) <==> (t is Module))
}

/// The grammar configuration for `params`, resolving the override.
fn resolve_config(params: &ParseParams) -> (r: GrammarConfig)
    ensures
        r == chosen_config(*params),
{
    match &params.maybe_syntax {
        Some(config) => *config,
        None => get_syntax(params.media_type),
    }
}

/// Renders one fatal engine error as a diagnostic.
fn diagnostic_from(err: EngineError, specifier: &String, text_info: &SourceTextInfo) -> (r:
    Diagnostic)
    ensures
        diag_matches(r, engine_error_data(err), specifier@, text_info@),
{
    Diagnostic {
        specifier: specifier.clone(),
        lo: err.lo,
        hi: err.hi,
        message: err.message,
        text_info: text_info.clone(),
    }
}

/// Renders the engine's recoverable errors as diagnostics, in order.
fn diagnostics_from(errors: &Vec<EngineError>, specifier: &String, text_info: &SourceTextInfo) -> (r:
    Vec<Diagnostic>)
    ensures
        r@.len() == errors@.len(),
        forall|i: int|
            0 <= i < errors@.len() ==> diag_matches(
                #[trigger] r@[i],
                engine_error_data(errors@[i]),
                specifier@,
                text_info@,
            ),
{
    let mut out: Vec<Diagnostic> = Vec::new();
    let mut i: usize = 0;
    while i < errors.len()
        invariant
            i <= errors@.len(),
            out@.len() == i,
            forall|j: int|
                0 <= j < i ==> diag_matches(
                    #[trigger] out@[j],
                    engine_error_data(errors@[j]),
                    specifier@,
                    text_info@,
                ),
        decreases errors@.len() - i,
    {
        let e = &errors[i];
        out.push(
            Diagnostic {
                specifier: specifier.clone(),
                lo: e.lo,
                hi: e.hi,
                message: e.message.clone(),
                text_info: text_info.clone(),
            },
        );
        i = i + 1;
    }
    out
}

/// Packages the artifacts of one successful engine run: renders the
/// diagnostics, makes the comment index shareable, keeps the tokens only
/// when capture was requested, and applies scope analysis when requested.
/// The tree's shape is kept, and without scope analysis the tree itself is
/// packaged untouched.
fn finish_parse(
    params: ParseParams,
    program: SyntaxTree,
    tokens: Vec<TokenAndSpan>,
    comments: SingleThreadedComments,
    errors: Vec<EngineError>,
) -> (r: ParsedSource)
    ensures
        packaged_from(
            r,
            params.specifier@,
            params.media_type,
            params.text_info@,
            params.capture_tokens,
            params.scope_analysis,
            program is Module,
            errors@.map_values(|e: EngineError| engine_error_data(e)),
        ),
        !params.scope_analysis ==> r.spec_program() == program,
        groups_match_map(
            r.comments_index().spec_leading(),
            engine::leading_comments_of(comments),
        ),
        groups_match_map(
            r.comments_index().spec_trailing(),
            engine::trailing_comments_of(comments),
        ),
{
    let ParseParams {
        specifier,
        text_info,
        media_type,
        capture_tokens,
        scope_analysis,
        maybe_syntax: _,
    } = params;
    let diagnostics = diagnostics_from(&errors, &specifier, &text_info);
    let (leading, trailing) = engine::take_comments(comments);
    let comment_index = MultiThreadedComments::from_groups(leading, trailing);
    let tokens = if capture_tokens {
        Some(tokens)
    } else {
        None
    };
    let (program, syntax_contexts) = if scope_analysis {
        scope_analysis_transform(program)
    } else {
        (program, None)
    };
    let ps = ParsedSource::new(
        specifier,
        media_type,
        text_info,
        comment_index,
        program,
        tokens,
        syntax_contexts,
        diagnostics,
    );
    proof {
        let mapped = errors@.map_values(|e: EngineError| engine_error_data(e));
        assert(mapped.len() == errors@.len());
        assert forall|i: int| 0 <= i < mapped.len() implies diag_matches(
            #[trigger] ps.spec_diagnostics()[i],
            mapped[i],
            specifier@,
            text_info@,
        ) by {
            assert(mapped[i] == engine_error_data(errors@[i]));
            assert(diag_matches(diagnostics@[i], engine_error_data(errors@[i]), specifier@, text_info@));
        }
    }
    ps
}

/// Parses the provided information attempting to figure out if the provided
/// text is for a script or a module: the packaged tree is a module exactly
/// when the engine detects module syntax.
pub fn parse_program(params: ParseParams) -> (r: Result<ParsedSource, Diagnostic>)
    ensures
        program_result_matches(
            r,
            params,
            program_parse_outcome(chosen_config(params), params.text_info@),
        ),
{
    let post_process = |tree: SyntaxTree| -> (r: SyntaxTree)
        ensures
            r == tree,
        { tree };
    assert forall|t: SyntaxTree, out: SyntaxTree| #[trigger]
        call_ensures(post_process, (t,), out) implies ((out is Module) <==> (t is Module)) by {}
    parse_program_with_post_process(params, post_process)
}

/// Parses the provided information as a program with the option of
/// providing some post-processing to the result: the transformation is
/// applied exactly once, to the freshly parsed tree, before scope analysis
/// and packaging. The hook must keep the tree's script-or-module shape;
/// without scope analysis, the packaged tree is exactly what the hook
/// returned.
pub fn parse_program_with_post_process<F: FnOnce(SyntaxTree) -> SyntaxTree>(
    params: ParseParams,
    post_process: F,
) -> (r: Result<ParsedSource, Diagnostic>)
    requires
        forall|t: SyntaxTree| #[trigger] post_process.requires((t,)),
        shape_preserving(post_process),
    ensures
        program_result_matches(
            r,
            params,
            program_parse_outcome(chosen_config(params), params.text_info@),
        ),
        !params.scope_analysis ==> (r matches Ok(ps) ==> (exists|raw: SyntaxTree| #[trigger]
            call_ensures(post_process, (raw,), ps.spec_program()))),
{
    let config = resolve_config(&params);
    match engine::parse_program_raw(params.text_info.text_str(), &config) {
        Ok((tree, tokens, comments, errors)) => {
            let processed = post_process(tree);
            Ok(finish_parse(params, processed, tokens, comments, errors))
        },
        Err(e) => Err(diagnostic_from(e, &params.specifier, &params.text_info)),
    }
}

/// Parses the provided information to a module: the packaged tree is
/// always the module variant.
pub fn parse_module(params: ParseParams) -> (r: Result<ParsedSource, Diagnostic>)
    ensures
        parse_result_matches(
            r,
            params,
            true,
            module_parse_outcome(chosen_config(params), params.text_info@),
        ),
{
    parse_module_with_post_process(
        params,
        |module: Module| -> (r: Module) { module },
    )
}

/// Parses a module with post processing (see docs on
/// `parse_program_with_post_process`): the hook receives the parsed module
/// itself, so the module shape is kept by construction, and without scope
/// analysis the packaged tree is exactly the module the hook returned.
pub fn parse_module_with_post_process<F: FnOnce(Module) -> Module>(
    params: ParseParams,
    post_process: F,
) -> (r: Result<ParsedSource, Diagnostic>)
    requires
        forall|m: Module| #[trigger] post_process.requires((m,)),
    ensures
        parse_result_matches(
            r,
            params,
            true,
            module_parse_outcome(chosen_config(params), params.text_info@),
        ),
        !params.scope_analysis ==> (r matches Ok(ps) ==> (ps.spec_program()
            matches SyntaxTree::Module(m) && (exists|raw: Module| #[trigger]
        call_ensures(post_process, (raw,), m)))),
{
    let config = resolve_config(&params);
    let ghost scope_requested = params.scope_analysis;
    match engine::parse_module_raw(params.text_info.text_str(), &config) {
        Ok((module, tokens, comments, errors)) => {
            let processed = post_process(module);
            let ps = finish_parse(params, SyntaxTree::Module(processed), tokens, comments, errors);
            proof {
                if !scope_requested {
                    assert(ps.spec_program() matches SyntaxTree::Module(m) && call_ensures(
                        post_process,
                        (module,),
                        m,
                    ));
                }
            }
            Ok(ps)
        },
        Err(e) => Err(diagnostic_from(e, &params.specifier, &params.text_info)),
    }
}

/// Parses the provided information to a script: the packaged tree is
/// always the script variant.
pub fn parse_script(params: ParseParams) -> (r: Result<ParsedSource, Diagnostic>)
    ensures
        parse_result_matches(
            r,
            params,
            false,
            script_parse_outcome(chosen_config(params), params.text_info@),
        ),
{
    parse_script_with_post_process(
        params,
        |script: Script| -> (r: Script) { script },
    )
}

/// Parses a script with post processing (see docs on
/// `parse_program_with_post_process`): the hook receives the parsed script
/// itself, so the script shape is kept by construction, and without scope
/// analysis the packaged tree is exactly the script the hook returned.
pub fn parse_script_with_post_process<F: FnOnce(Script) -> Script>(
    params: ParseParams,
    post_process: F,
) -> (r: Result<ParsedSource, Diagnostic>)
    requires
        forall|s: Script| #[trigger] post_process.requires((s,)),
    ensures
        parse_result_matches(
            r,
            params,
            false,
            script_parse_outcome(chosen_config(params), params.text_info@),
        ),
        !params.scope_analysis ==> (r matches Ok(ps) ==> (ps.spec_program()
            matches SyntaxTree::Script(s) && (exists|raw: Script| #[trigger]
        call_ensures(post_process, (raw,), s)))),
{
    let config = resolve_config(&params);
    let ghost scope_requested = params.scope_analysis;
    match engine::parse_script_raw(params.text_info.text_str(), &config) {
        Ok((script, tokens, comments, errors)) => {
            let processed = post_process(script);
            let ps = finish_parse(params, SyntaxTree::Script(processed), tokens, comments, errors);
            proof {
                if !scope_requested {
                    assert(ps.spec_program() matches SyntaxTree::Script(s) && call_ensures(
                        post_process,
                        (script,),
                        s,
                    ));
                }
            }
            Ok(ps)
        },
        Err(e) => Err(diagnostic_from(e, &params.specifier, &params.text_info)),
    }
}

/// The comparable content of a diagnostic list: specifier, span and message
/// of each entry.
pub open spec fn diag_data(diags: Seq<Diagnostic>) -> Seq<(Seq<char>, u32, u32, Seq<char>)> {
    diags.map_values(|d: Diagnostic| (d.specifier@, d.lo, d.hi, d.message@))
}

/// Law: two parse results owed to the same engine outcome for the same
/// specifier and text agree: both succeed or both fail, successes carry
/// trees of the same shape and diagnostics with identical content, and
/// failures carry the same fatal error.
pub proof fn lemma_same_outcome_same_result(
    r1: Result<ParsedSource, Diagnostic>,
    r2: Result<ParsedSource, Diagnostic>,
    params1: ParseParams,
    params2: ParseParams,
    module_shape: bool,
    outcome: ParseOutcome,
)
    requires
        parse_result_matches(r1, params1, module_shape, outcome),
        parse_result_matches(r2, params2, module_shape, outcome),
        params1.specifier@ == params2.specifier@,
        params1.text_info@ == params2.text_info@,
    ensures
        r1 is Ok <==> r2 is Ok,
        r1 matches Ok(p1) ==> r2 matches Ok(p2) ==> (p1.spec_program() is Module <==> p2.spec_program() is Module),
        r1 matches Ok(p1) ==> r2 matches Ok(p2) ==> diag_data(p1.spec_diagnostics()) == diag_data(
            p2.spec_diagnostics(),
        ),
        r1 matches Err(d1) ==> r2 matches Err(d2) ==> d1.specifier@ == d2.specifier@ && d1.lo
            == d2.lo && d1.hi == d2.hi && d1.message@ == d2.message@,
{
    if outcome is Ok {
        let errors = outcome->Ok_0;
        let p1 = r1->Ok_0;
        let p2 = r2->Ok_0;
        assert forall|i: int| 0 <= i < errors.len() implies diag_data(p1.spec_diagnostics())[i]
            == diag_data(p2.spec_diagnostics())[i] by {
            assert(diag_matches(p1.spec_diagnostics()[i], errors[i], params1.specifier@, params1.text_info@));
            assert(diag_matches(p2.spec_diagnostics()[i], errors[i], params2.specifier@, params2.text_info@));
        }
        assert(diag_data(p1.spec_diagnostics()) =~= diag_data(p2.spec_diagnostics()));
    }
}

/// Law: parsing is deterministic. Two module-mode parses of the same text
/// under the same grammar configuration agree on success-or-failure and on
/// every diagnostic's content. (The engine's trees are opaque to this
/// library beyond their script-or-module shape, so their structural
/// equality is observed by tests rather than stated here.)
pub proof fn lemma_module_parse_deterministic(
    r1: Result<ParsedSource, Diagnostic>,
    r2: Result<ParsedSource, Diagnostic>,
    params1: ParseParams,
    params2: ParseParams,
)
    requires
        parse_result_matches(
            r1,
            params1,
            true,
            module_parse_outcome(chosen_config(params1), params1.text_info@),
        ),
        parse_result_matches(
            r2,
            params2,
            true,
            module_parse_outcome(chosen_config(params2), params2.text_info@),
        ),
        chosen_config(params1) == chosen_config(params2),
        params1.specifier@ == params2.specifier@,
        params1.text_info@ == params2.text_info@,
    ensures
        r1 is Ok <==> r2 is Ok,
        r1 matches Ok(p1) ==> r2 matches Ok(p2) ==> diag_data(p1.spec_diagnostics()) == diag_data(
            p2.spec_diagnostics(),
        ),
        r1 matches Err(d1) ==> r2 matches Err(d2) ==> d1.specifier@ == d2.specifier@ && d1.lo
            == d2.lo && d1.hi == d2.hi && d1.message@ == d2.message@,
{
    lemma_same_outcome_same_result(
        r1,
        r2,
        params1,
        params2,
        true,
        module_parse_outcome(chosen_config(params1), params1.text_info@),
    );
}

/// Law: the same, for two auto-detecting program-mode parses; their trees
/// also agree on the detected script-or-module shape.
pub proof fn lemma_program_parse_deterministic(
    r1: Result<ParsedSource, Diagnostic>,
    r2: Result<ParsedSource, Diagnostic>,
    params1: ParseParams,
    params2: ParseParams,
)
    requires
        program_result_matches(
            r1,
            params1,
            program_parse_outcome(chosen_config(params1), params1.text_info@),
        ),
        program_result_matches(
            r2,
            params2,
            program_parse_outcome(chosen_config(params2), params2.text_info@),
        ),
        chosen_config(params1) == chosen_config(params2),
        params1.specifier@ == params2.specifier@,
        params1.text_info@ == params2.text_info@,
    ensures
        r1 is Ok <==> r2 is Ok,
        r1 matches Ok(p1) ==> r2 matches Ok(p2) ==> (p1.spec_program() is Module <==> p2.spec_program() is Module),
        r1 matches Ok(p1) ==> r2 matches Ok(p2) ==> diag_data(p1.spec_diagnostics()) == diag_data(
            p2.spec_diagnostics(),
        ),
        r1 matches Err(d1) ==> r2 matches Err(d2) ==> d1.specifier@ == d2.specifier@ && d1.lo
            == d2.lo && d1.hi == d2.hi && d1.message@ == d2.message@,
{
    let o = program_parse_outcome(chosen_config(params1), params1.text_info@);
    match o {
        Ok(ok) => lemma_same_outcome_same_result(
            r1,
            r2,
            params1,
            params2,
            ok.0,
            engine::recovered(ok.1),
        ),
        Err(e) => lemma_same_outcome_same_result(r1, r2, params1, params2, false, engine::fatal(e)),
    }
}

/// Law: the same, for two script-mode parses.
pub proof fn lemma_script_parse_deterministic(
    r1: Result<ParsedSource, Diagnostic>,
    r2: Result<ParsedSource, Diagnostic>,
    params1: ParseParams,
    params2: ParseParams,
)
    requires
        parse_result_matches(
            r1,
            params1,
            false,
            script_parse_outcome(chosen_config(params1), params1.text_info@),
        ),
        parse_result_matches(
            r2,
            params2,
            false,
            script_parse_outcome(chosen_config(params2), params2.text_info@),
        ),
        chosen_config(params1) == chosen_config(params2),
        params1.specifier@ == params2.specifier@,
        params1.text_info@ == params2.text_info@,
    ensures
        r1 is Ok <==> r2 is Ok,
        r1 matches Ok(p1) ==> r2 matches Ok(p2) ==> diag_data(p1.spec_diagnostics()) == diag_data(
            p2.spec_diagnostics(),
        ),
        r1 matches Err(d1) ==> r2 matches Err(d2) ==> d1.specifier@ == d2.specifier@ && d1.lo
            == d2.lo && d1.hi == d2.hi && d1.message@ == d2.message@,
{
    lemma_same_outcome_same_result(
        r1,
        r2,
        params1,
        params2,
        false,
        script_parse_outcome(chosen_config(params1), params1.text_info@),
    );
}

/// Law: a successful result holds captured tokens exactly when the request
/// asked for token capture. Asking any other result for its tokens is
/// excluded by the precondition of `ParsedSource::tokens`, so "no tokens
/// captured" can never be read as "zero tokens".
pub proof fn lemma_tokens_present_iff_captured(
    r: Result<ParsedSource, Diagnostic>,
    params: ParseParams,
    module_shape: bool,
    outcome: ParseOutcome,
)
    requires
        parse_result_matches(r, params, module_shape, outcome),
        r is Ok,
    ensures
        r->Ok_0.has_tokens() <==> params.capture_tokens,
{
}

/// Law: a successful result carries scope markers exactly when the request
/// asked for scope analysis, and the two markers it then carries are
/// distinct. Asking any other result for a marker is excluded by the
/// preconditions of `ParsedSource::top_level_context` and
/// `ParsedSource::unresolved_context`, so a default marker can never leak
/// into identity comparisons.
pub proof fn lemma_scope_markers_present_iff_requested(
    r: Result<ParsedSource, Diagnostic>,
    params: ParseParams,
    module_shape: bool,
    outcome: ParseOutcome,
)
    requires
        parse_result_matches(r, params, module_shape, outcome),
        r is Ok,
    ensures
        r->Ok_0.has_scope_analysis() <==> params.scope_analysis,
        r->Ok_0.scope_markers_distinct(),
{
}

/// Law: round-trip. A successful result reads back exactly the specifier,
/// the media type and the source text that the request supplied.
pub proof fn lemma_request_round_trip(
    r: Result<ParsedSource, Diagnostic>,
    params: ParseParams,
    module_shape: bool,
    outcome: ParseOutcome,
)
    requires
        parse_result_matches(r, params, module_shape, outcome),
        r is Ok,
    ensures
        r->Ok_0.spec_specifier() == params.specifier@,
        r->Ok_0.spec_media_type() == params.media_type,
        r->Ok_0.spec_text() == params.text_info@,
{
}

} // verus!
