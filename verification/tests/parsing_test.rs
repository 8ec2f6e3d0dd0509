use es_parsing::parse_module;
use es_parsing::parse_program;
use es_parsing::Diagnostic;
use es_parsing::LineAndColumnDisplay;
use es_parsing::MediaType;
use es_parsing::ParseParams;
use es_parsing::ParsedSource;
use es_parsing::SourceTextInfo;
use es_parsing::SyntaxTree;

use swc_common::Spanned;
use swc_ecma_ast::Callee;
use swc_ecma_ast::ClassMember;
use swc_ecma_ast::Decl;
use swc_ecma_ast::Expr;
use swc_ecma_ast::FnDecl;
use swc_ecma_ast::Ident;
use swc_ecma_ast::ImportSpecifier;
use swc_ecma_ast::Module;
use swc_ecma_ast::ModuleDecl;
use swc_ecma_ast::ModuleItem;
use swc_ecma_ast::Pat;
use swc_ecma_ast::Stmt;
use swc_ecma_visit::Visit;
use swc_ecma_visit::VisitWith;

/// Collects every identifier below the visited node.
struct IdentCollector(Vec<Ident>);

impl Visit for IdentCollector {
    fn visit_ident(&mut self, ident: &Ident) {
        self.0.push(ident.clone());
    }
}

fn expect_module(source: &ParsedSource) -> &Module {
    match source.program() {
        SyntaxTree::Module(module) => module,
        SyntaxTree::Script(_) => panic!("expected a module"),
    }
}

fn expect_fn_decl<'a>(module: &'a Module, index: usize) -> &'a FnDecl {
    match &module.body[index] {
        ModuleItem::Stmt(Stmt::Decl(Decl::Fn(fn_decl))) => fn_decl,
        _ => panic!("expected a function declaration"),
    }
}

fn expect_exported_fn_decl<'a>(module: &'a Module, index: usize) -> &'a FnDecl {
    match &module.body[index] {
        ModuleItem::ModuleDecl(ModuleDecl::ExportDecl(export)) => match &export.decl {
            Decl::Fn(fn_decl) => fn_decl,
            _ => panic!("expected an exported function declaration"),
        },
        _ => panic!("expected an export declaration"),
    }
}

fn expect_ident_stmt<'a>(fn_decl: &'a FnDecl, index: usize) -> &'a Ident {
    match &fn_decl.function.body.as_ref().unwrap().stmts[index] {
        Stmt::Expr(expr_stmt) => match &*expr_stmt.expr {
            Expr::Ident(ident) => ident,
            _ => panic!("expected an identifier expression"),
        },
        _ => panic!("expected an expression statement"),
    }
}

#[test]
fn should_parse_program() {
    let program = parse_program(ParseParams {
        specifier: "my_file.js".to_string(),
        text_info: SourceTextInfo::from_string("// 1\n1 + 1\n// 2".to_string()),
        media_type: MediaType::JavaScript,
        capture_tokens: true,
        maybe_syntax: None,
        scope_analysis: false,
    })
    .unwrap();
    assert_eq!(program.specifier(), "my_file.js");
    assert_eq!(program.text_info().text_str(), "// 1\n1 + 1\n// 2");
    assert_eq!(program.media_type(), MediaType::JavaScript);
    match program.program() {
        SyntaxTree::Script(script) => assert!(matches!(script.body[0], Stmt::Expr(..))),
        SyntaxTree::Module(_) => panic!("expected a script"),
    }
    assert_eq!(program.get_leading_comments().unwrap().len(), 1);
    assert_eq!(program.get_leading_comments().unwrap()[0].text, " 1");
    assert_eq!(program.tokens().len(), 3);
    assert_eq!(program.comments().get_vec().len(), 2);
}

#[test]
fn should_parse_module() {
    let program = parse_module(ParseParams {
        specifier: "my_file.js".to_string(),
        text_info: SourceTextInfo::from_string("// 1\n1 + 1\n// 2".to_string()),
        media_type: MediaType::JavaScript,
        capture_tokens: true,
        maybe_syntax: None,
        scope_analysis: false,
    })
    .unwrap();
    let module = expect_module(&program);
    assert!(matches!(module.body[0], ModuleItem::Stmt(..)));
}

#[test]
fn should_parse_brand_checks_in_js() {
    let text = "class T { method() { #test in this; } }";
    let program = parse_module(ParseParams {
        specifier: "my_file.js".to_string(),
        text_info: SourceTextInfo::from_string(text.to_string()),
        media_type: MediaType::JavaScript,
        capture_tokens: true,
        maybe_syntax: None,
        scope_analysis: false,
    })
    .unwrap();
    let module = expect_module(&program);
    let class_decl = match &module.body[0] {
        ModuleItem::Stmt(Stmt::Decl(Decl::Class(class_decl))) => class_decl,
        _ => panic!("expected a class declaration"),
    };
    let class_method = match &class_decl.class.body[0] {
        ClassMember::Method(method) => method,
        _ => panic!("expected a class method"),
    };
    let method_stmt = &class_method.function.body.as_ref().unwrap().stmts[0];
    let span = method_stmt.span();
    assert_eq!(&text[span.lo.0 as usize..span.hi.0 as usize], "#test in this;");
}

#[test]
fn should_handle_parse_error() {
    let diagnostic = parse_module(ParseParams {
        specifier: "my_file.js".to_string(),
        text_info: SourceTextInfo::from_string("t u".to_string()),
        media_type: MediaType::JavaScript,
        capture_tokens: true,
        maybe_syntax: None,
        scope_analysis: false,
    })
    .err()
    .unwrap();
    assert_eq!(diagnostic.specifier, "my_file.js".to_string());
    assert_eq!(
        diagnostic.display_position(),
        LineAndColumnDisplay { line_number: 1, column_number: 3 }
    );
    assert_eq!(diagnostic.message(), "Expected ';', '}' or <eof>");
}

#[test]
fn should_do_scope_analysis() {
    let parsed_source = parse_module(ParseParams {
        specifier: "my_file.js".to_string(),
        text_info: SourceTextInfo::from_string(
            "export function test() { const test = 2; test; } test()".to_string(),
        ),
        media_type: MediaType::JavaScript,
        capture_tokens: true,
        maybe_syntax: None,
        scope_analysis: true,
    })
    .unwrap();
    let module = expect_module(&parsed_source);
    let func_decl = expect_exported_fn_decl(module, 0);
    let func_decl_inner_expr = expect_ident_stmt(func_decl, 1);
    let call_expr = match &module.body[1] {
        ModuleItem::Stmt(Stmt::Expr(expr_stmt)) => match &*expr_stmt.expr {
            Expr::Call(call_expr) => call_expr,
            _ => panic!("expected a call expression"),
        },
        _ => panic!("expected an expression statement"),
    };
    let call_expr_id = match &call_expr.callee {
        Callee::Expr(expr) => match &**expr {
            Expr::Ident(ident) => ident,
            _ => panic!("expected an identifier callee"),
        },
        _ => panic!("expected an expression callee"),
    };

    // these should be the same identifier
    assert_eq!(func_decl.ident.to_id(), call_expr_id.to_id());
    // but these shouldn't be
    assert_ne!(func_decl.ident.to_id(), func_decl_inner_expr.to_id());
}

#[test]
fn should_allow_scope_analysis_after_the_fact() {
    let parsed_source = parse_module(ParseParams {
        specifier: "my_file.js".to_string(),
        text_info: SourceTextInfo::from_string(
            "export function test() { const test = 2; test; } test()".to_string(),
        ),
        media_type: MediaType::JavaScript,
        capture_tokens: true,
        maybe_syntax: None,
        scope_analysis: false,
    })
    .unwrap();

    {
        let module = expect_module(&parsed_source);
        let func_decl = expect_exported_fn_decl(module, 0);
        let func_decl_inner_expr = expect_ident_stmt(func_decl, 1);
        // these will be equal because scope analysis hasn't been done
        assert_eq!(func_decl.ident.to_id(), func_decl_inner_expr.to_id());
    }

    // now do scope analysis
    let parsed_source = parsed_source.into_with_scope_analysis();

    {
        let module = expect_module(&parsed_source);
        let func_decl = expect_exported_fn_decl(module, 0);
        let func_decl_inner_expr = expect_ident_stmt(func_decl, 1);
        // now they'll be not equal because scope analysis has occurred
        assert_ne!(func_decl.ident.to_id(), func_decl_inner_expr.to_id());
    }
}

#[test]
fn should_scope_analyze_typescript() {
    let parsed_source = parse_module(ParseParams {
        specifier: "my_file.ts".to_string(),
        text_info: SourceTextInfo::from_string(
            "import type { Foo } from \"./foo.ts\";\nfunction _bar(...Foo: Foo) {\n  console.log(Foo);\n}".to_string(),
        ),
        media_type: MediaType::TypeScript,
        capture_tokens: true,
        maybe_syntax: None,
        scope_analysis: true,
    })
    .unwrap();
    let module = expect_module(&parsed_source);

    let named_import_ident = match &module.body[0] {
        ModuleItem::ModuleDecl(ModuleDecl::Import(import)) => match &import.specifiers[0] {
            ImportSpecifier::Named(named) => &named.local,
            _ => panic!("expected a named import specifier"),
        },
        _ => panic!("expected an import declaration"),
    };
    let bar_func = expect_fn_decl(module, 1);
    let bar_param_rest_pat = match &bar_func.function.params[0].pat {
        Pat::Rest(rest_pat) => rest_pat,
        _ => panic!("expected a rest pattern"),
    };
    let bar_param_ident = match &*bar_param_rest_pat.arg {
        Pat::Ident(binding_ident) => &binding_ident.id,
        _ => panic!("expected a binding identifier"),
    };
    let mut type_idents = IdentCollector(Vec::new());
    bar_param_rest_pat.type_ann.as_ref().unwrap().visit_with(&mut type_idents);
    assert_eq!(type_idents.0.len(), 1);
    let bar_param_type_ident = &type_idents.0[0];
    let console_log_arg_ident = match &bar_func.function.body.as_ref().unwrap().stmts[0] {
        Stmt::Expr(expr_stmt) => match &*expr_stmt.expr {
            Expr::Call(call_expr) => match &*call_expr.args[0].expr {
                Expr::Ident(ident) => ident,
                _ => panic!("expected an identifier argument"),
            },
            _ => panic!("expected a call expression"),
        },
        _ => panic!("expected an expression statement"),
    };

    assert_eq!(console_log_arg_ident.to_id(), bar_param_ident.to_id());
    assert_ne!(console_log_arg_ident.to_id(), named_import_ident.to_id());
    assert_ne!(console_log_arg_ident.to_id(), bar_param_type_ident.to_id());

    assert_eq!(named_import_ident.to_id(), bar_param_type_ident.to_id());
    assert_ne!(named_import_ident.to_id(), bar_param_ident.to_id());
}

#[test]
fn should_error_on_syntax_diagnostic() {
    let diagnostic = parse_ts_module("test;\nas#;").err().unwrap();
    assert_eq!(diagnostic.message(), "Expected ';', '}' or <eof>");
}

#[test]
fn should_error_without_issue_when_there_exists_multi_byte_char_on_line_with_syntax_error() {
    let diagnostic = parse_ts_module(
        "test;\nconsole.log(\"x\", `duration ${d} not in range - ${min} \u{2265} ${d} && ${max} \u{2265} ${d}`),;",
    )
    .err()
    .unwrap();
    assert_eq!(diagnostic.message(), "Expression expected",);
}

#[test]
fn should_diagnostic_for_no_equals_sign_in_var_decl() {
    let diagnostic = parse_for_diagnostic("const Methods {\nf: (x, y) => x + y,\n};");
    assert_eq!(diagnostic.message(), "'const' declarations must be initialized");
}

#[test]
fn should_diganotic_when_var_stmts_sep_by_comma() {
    // the grammar engine considers the second `let` here unrecoverable, so
    // the report arrives as the fatal diagnostic rather than in the
    // recovered list
    let diagnostic = parse_ts_module("let a = 0, let b = 1;").err().unwrap();
    assert_eq!(
        diagnostic.message(),
        "Unexpected token `let`. Expected let is reserved in const, let, class declaration"
    );
}

#[test]
fn should_diagnostic_for_exected_expr_type_alias() {
    let diagnostic = parse_for_diagnostic("type T =\n  | unknown\n  { } & unknown;");
    assert_eq!(diagnostic.message(), "Expression expected");
}

#[test]
fn should_diganotic_missing_init_in_using() {
    let diagnostic = parse_for_diagnostic("using test");
    assert_eq!(diagnostic.message(), "Using declaration requires initializer");
}

fn parse_for_diagnostic(text: &str) -> Diagnostic {
    let result = parse_ts_module(text).unwrap();
    result.diagnostics().first().unwrap().to_owned()
}

fn parse_ts_module(text: &str) -> Result<ParsedSource, Diagnostic> {
    parse_module(ParseParams {
        specifier: "my_file.ts".to_string(),
        text_info: SourceTextInfo::from_string(text.to_string()),
        media_type: MediaType::TypeScript,
        capture_tokens: false,
        maybe_syntax: None,
        scope_analysis: false,
    })
}
