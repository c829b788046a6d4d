use proc_bindgen::compile::compile;
use proc_bindgen::errors::BindgenError;
use proc_bindgen::render::{render, Context};
use proc_bindgen::span::{spaces_between, LineColumn, Span};
use proc_bindgen::token::{Delimiter, Token};

fn span(l0: usize, c0: usize, l1: usize, c1: usize) -> Span {
    Span {
        start: LineColumn { line: l0, column: c0 },
        end: LineColumn { line: l1, column: c1 },
    }
}

fn ident(text: &str, l: usize, c0: usize, c1: usize) -> Token {
    Token::Identifier { text: text.to_string(), span: span(l, c0, l, c1) }
}

fn punct(text: &str, l: usize, c0: usize, c1: usize) -> Token {
    Token::Punctuation { text: text.to_string(), span: span(l, c0, l, c1) }
}

fn render_tokens(tokens: Vec<Token>, ctx: &Context) -> Result<String, BindgenError> {
    let compiled = compile(&tokens)?;
    render(&compiled, ctx)
}

#[test]
fn spacing_same_line() {
    let tokens = vec![ident("a", 1, 0, 1), ident("b", 1, 4, 5)];
    let out = render_tokens(tokens, &Context::new()).unwrap();
    assert_eq!(out, "a   b\n");
}

#[test]
fn spacing_zero_gap() {
    let tokens = vec![ident("a", 1, 0, 1), ident("b", 1, 1, 2)];
    let out = render_tokens(tokens, &Context::new()).unwrap();
    assert_eq!(out, "ab\n");
}

#[test]
fn multi_line_fidelity() {
    let tokens = vec![ident("a", 1, 0, 1), ident("b", 3, 2, 3)];
    let out = render_tokens(tokens, &Context::new()).unwrap();
    assert_eq!(out, "a\r\n\r\n  b\n");
    assert_eq!(out.chars().filter(|c| *c == '\n').count(), 3);
}

#[test]
fn variable_substitution() {
    let tokens = vec![
        ident("value", 1, 0, 5),
        punct("=", 1, 6, 7),
        punct("#", 1, 8, 9),
        ident("x", 1, 9, 10),
    ];
    let mut ctx = Context::new();
    ctx.insert("x", "42".to_string());
    let out = render_tokens(tokens, &ctx).unwrap();
    assert_eq!(out, "value = 42\n");
}

#[test]
fn determinism() {
    let tokens = vec![
        ident("value", 1, 0, 5),
        punct("=", 1, 6, 7),
        punct("#", 1, 8, 9),
        ident("x", 1, 9, 10),
    ];
    let mut ctx = Context::new();
    ctx.insert("x", "42".to_string());
    let compiled = compile(&tokens).unwrap();
    let first = render(&compiled, &ctx).unwrap();
    let second = render(&compiled, &ctx).unwrap();
    assert_eq!(first, second);
}

#[test]
fn empty_template_renders_line_break() {
    let out = render_tokens(Vec::new(), &Context::new()).unwrap();
    assert_eq!(out, "\n");
}

#[test]
fn lone_variable_template() {
    let tokens = vec![punct("#", 1, 0, 1), ident("x", 1, 1, 2)];
    let mut ctx = Context::new();
    ctx.insert("x", "42".to_string());
    let out = render_tokens(tokens, &ctx).unwrap();
    assert_eq!(out, "42\n");
}

#[test]
fn group_brackets_are_literal() {
    let tokens = vec![
        ident("f", 1, 0, 1),
        Token::GroupOpen { delimiter: Delimiter::Parenthesis, span: span(1, 1, 1, 2) },
        ident("x", 1, 2, 3),
        Token::GroupClose { delimiter: Delimiter::Parenthesis, span: span(1, 3, 1, 4) },
        Token::GroupOpen { delimiter: Delimiter::Brace, span: span(1, 5, 1, 6) },
        Token::GroupClose { delimiter: Delimiter::Brace, span: span(1, 6, 1, 7) },
    ];
    let out = render_tokens(tokens, &Context::new()).unwrap();
    assert_eq!(out, "f(x) {}\n");
}

#[test]
fn malformed_marker_mid_template() {
    let tokens = vec![punct("#", 2, 3, 4), punct("!", 2, 4, 5)];
    let err = compile(&tokens).unwrap_err();
    assert_eq!(
        err,
        BindgenError::MalformedVariableReference { position: LineColumn { line: 2, column: 3 } }
    );
}

#[test]
fn malformed_marker_at_end() {
    let tokens = vec![ident("a", 1, 0, 1), punct("#", 1, 2, 3)];
    let err = compile(&tokens).unwrap_err();
    assert_eq!(
        err,
        BindgenError::MalformedVariableReference { position: LineColumn { line: 1, column: 2 } }
    );
}

#[test]
fn unresolved_variable_reports_name_and_position() {
    let tokens = vec![punct("#", 4, 7, 8), ident("missing", 4, 8, 15)];
    let err = render_tokens(tokens, &Context::new()).unwrap_err();
    assert_eq!(
        err,
        BindgenError::UnresolvedVariable {
            name: "missing".to_string(),
            position: LineColumn { line: 4, column: 7 },
        }
    );
}

#[test]
fn context_later_binding_wins() {
    let mut ctx = Context::new();
    ctx.insert("x", "1".to_string());
    ctx.insert("x", "2".to_string());
    assert_eq!(ctx.get(&"x".to_string()), Some("2".to_string()));
    assert_eq!(ctx.get(&"y".to_string()), None);
}

#[test]
fn two_variables_in_one_template() {
    let tokens = vec![
        ident("void", 1, 0, 4),
        punct("#", 1, 5, 6),
        ident("extern_fn_name", 1, 6, 20),
        punct("#", 1, 21, 22),
        ident("name", 1, 22, 26),
        punct(";", 1, 26, 27),
    ];
    let mut ctx = Context::new();
    ctx.insert("name", "Foo".to_string());
    ctx.insert("extern_fn_name", "do_with_Foo".to_string());
    let out = render_tokens(tokens, &ctx).unwrap();
    assert_eq!(out, "void do_with_Foo Foo;\n");
}

#[test]
fn variable_on_second_line() {
    let tokens = vec![
        ident("a", 1, 0, 1),
        punct("#", 2, 4, 5),
        ident("x", 2, 5, 6),
        ident("b", 2, 7, 8),
    ];
    let mut ctx = Context::new();
    ctx.insert("x", "X".to_string());
    let out = render_tokens(tokens, &ctx).unwrap();
    assert_eq!(out, "a\r\n    X b\n");
}

#[test]
fn span_accessors() {
    let a = span(1, 0, 1, 4);
    let b = span(2, 3, 2, 7);
    let joined = a.join(b);
    assert_eq!(joined.start(), LineColumn { line: 1, column: 0 });
    assert_eq!(joined.end(), LineColumn { line: 2, column: 7 });
}

#[test]
fn spaces_between_exact_values() {
    assert_eq!(spaces_between(&span(1, 0, 1, 4), &span(1, 7, 1, 9)), "   ");
    assert_eq!(spaces_between(&span(1, 0, 1, 4), &span(1, 4, 1, 5)), "");
    assert_eq!(spaces_between(&span(1, 0, 1, 4), &span(3, 2, 3, 5)), "\r\n\r\n  ");
}
