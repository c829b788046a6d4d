use proc_bindgen::dispatch::{shebang_end, DeclKind, Declaration, MarkerArg, MarkerAttr};
use proc_bindgen::errors::BindgenError;
use proc_bindgen::registry::{BindgenBuilder, GeneratorEntry, ProcBindgen};
use proc_bindgen::sample::{gen_struct, MyProcBindgen};
use proc_bindgen::span::{LineColumn, Span};
use proc_bindgen::token::Token;

fn span(l0: usize, c0: usize, l1: usize, c1: usize) -> Span {
    Span {
        start: LineColumn { line: l0, column: c0 },
        end: LineColumn { line: l1, column: c1 },
    }
}

fn ident(text: &str, l: usize, c0: usize, c1: usize) -> Token {
    Token::Identifier { text: text.to_string(), span: span(l, c0, l, c1) }
}

fn punct(text: &str, l: usize, c0: usize, c1: usize) -> Token {
    Token::Punctuation { text: text.to_string(), span: span(l, c0, l, c1) }
}

fn marked(kind: DeclKind, name: &str, key: &str) -> Declaration {
    Declaration {
        kind,
        name: name.to_string(),
        markers: vec![MarkerAttr { args: vec![MarkerArg::Identifier(key.to_string())] }],
    }
}

fn unmarked(kind: DeclKind, name: &str) -> Declaration {
    Declaration { kind, name: name.to_string(), markers: Vec::new() }
}

fn greeting_template() -> Vec<Token> {
    vec![ident("hello", 1, 0, 5), punct("#", 1, 6, 7), ident("name", 1, 7, 11)]
}

#[test]
fn round_trip_scenario() {
    let bindgen = MyProcBindgen::new();
    let decls = vec![
        marked(DeclKind::Struct, "Foo", "my_bindgen"),
        unmarked(DeclKind::Struct, "Bar"),
    ];
    let (out, err) = bindgen.generate(&decls);
    assert!(err.is_none());
    assert_eq!(out, "void touch_Foo();\n");
}

#[test]
fn skip_without_marker() {
    let bindgen = MyProcBindgen::new();
    let decl = unmarked(DeclKind::Struct, "Bar");
    assert_eq!(bindgen.dispatch_decl(&decl).unwrap(), None);
    let (out, err) = bindgen.generate(&vec![decl]);
    assert!(err.is_none());
    assert_eq!(out, "");
}

#[test]
fn unknown_key_keeps_earlier_output() {
    let bindgen = MyProcBindgen::new();
    let decls = vec![
        marked(DeclKind::Struct, "Foo", "my_bindgen"),
        marked(DeclKind::Struct, "Baz", "my_bindgne"),
    ];
    let (out, err) = bindgen.generate(&decls);
    assert_eq!(out, "void touch_Foo();\n");
    assert_eq!(
        err,
        Some(BindgenError::GeneratorNotFound {
            key: "my_bindgne".to_string(),
            decl: "Baz".to_string(),
        })
    );
}

#[test]
fn kind_mismatch_is_not_found() {
    let bindgen = MyProcBindgen::new();
    let decl = marked(DeclKind::Enum, "Foo", "my_bindgen");
    let err = bindgen.dispatch_decl(&decl).unwrap_err();
    assert_eq!(
        err,
        BindgenError::GeneratorNotFound {
            key: "my_bindgen".to_string(),
            decl: "Foo".to_string(),
        }
    );
}

#[test]
fn malformed_marker_arguments_fail() {
    let bindgen = MyProcBindgen::new();
    let two_args = Declaration {
        kind: DeclKind::Struct,
        name: "Foo".to_string(),
        markers: vec![MarkerAttr {
            args: vec![
                MarkerArg::Identifier("a".to_string()),
                MarkerArg::Identifier("b".to_string()),
            ],
        }],
    };
    assert_eq!(
        bindgen.dispatch_decl(&two_args).unwrap_err(),
        BindgenError::ParseFailure { decl: "Foo".to_string() }
    );
    let non_ident = Declaration {
        kind: DeclKind::Struct,
        name: "Foo".to_string(),
        markers: vec![MarkerAttr { args: vec![MarkerArg::Other("1".to_string())] }],
    };
    assert_eq!(
        bindgen.dispatch_decl(&non_ident).unwrap_err(),
        BindgenError::ParseFailure { decl: "Foo".to_string() }
    );
}

#[test]
fn last_registration_wins() {
    let mut builder = BindgenBuilder::new();
    builder.gen_struct("k", vec![ident("first", 1, 0, 5)]);
    builder.gen_struct("k", vec![ident("second", 1, 0, 6)]);
    let bindgen = builder.build();
    let out = bindgen.dispatch_decl(&marked(DeclKind::Struct, "Foo", "k")).unwrap().unwrap();
    assert_eq!(out, "second\n");
}

#[test]
fn every_kind_has_its_own_bucket() {
    let mut builder = BindgenBuilder::new();
    builder.gen_struct("k", vec![ident("s", 1, 0, 1)]);
    builder.gen_enum("k", vec![ident("e", 1, 0, 1)]);
    builder.gen_fn("k", vec![ident("f", 1, 0, 1)]);
    builder.gen_static("k", vec![ident("g", 1, 0, 1)]);
    builder.gen_type("k", vec![ident("t", 1, 0, 1)]);
    builder.gen_union("k", vec![ident("u", 1, 0, 1)]);
    let bindgen = builder.build();
    let cases = [
        (DeclKind::Struct, "s\n"),
        (DeclKind::Enum, "e\n"),
        (DeclKind::Function, "f\n"),
        (DeclKind::Static, "g\n"),
        (DeclKind::TypeAlias, "t\n"),
        (DeclKind::Union, "u\n"),
    ];
    for (kind, expected) in cases {
        let out = bindgen.dispatch_decl(&marked(kind, "X", "k")).unwrap().unwrap();
        assert_eq!(out, expected);
    }
}

#[test]
fn dispatch_substitutes_declaration_name() {
    let mut builder = BindgenBuilder::new();
    builder.gen_fn("greet", greeting_template());
    let bindgen = builder.build();
    let out = bindgen
        .dispatch_decl(&marked(DeclKind::Function, "World", "greet"))
        .unwrap()
        .unwrap();
    assert_eq!(out, "hello World\n");
}

#[test]
fn template_variable_beyond_name_is_unresolved() {
    let mut builder = BindgenBuilder::new();
    builder.gen_struct("k", vec![punct("#", 1, 0, 1), ident("other", 1, 1, 6)]);
    let bindgen = builder.build();
    let err = bindgen.dispatch_decl(&marked(DeclKind::Struct, "Foo", "k")).unwrap_err();
    assert_eq!(
        err,
        BindgenError::UnresolvedVariable {
            name: "other".to_string(),
            position: LineColumn { line: 1, column: 0 },
        }
    );
}

#[test]
fn generator_entry_builds_same_registry() {
    let bindgen: ProcBindgen = <MyProcBindgen as GeneratorEntry>::new();
    let out = bindgen
        .dispatch_decl(&marked(DeclKind::Struct, "Quux", "my_bindgen"))
        .unwrap()
        .unwrap();
    assert_eq!(out, "void touch_Quux();\n");
}

#[test]
fn sample_generator_function() {
    let out = gen_struct(&unmarked(DeclKind::Struct, "Foo")).unwrap();
    assert_eq!(out, "void touch_Foo();\n");
}

#[test]
fn input_paths_accumulate_in_order() {
    let bindgen = MyProcBindgen::new().input("a.rs").input("b.rs");
    assert_eq!(bindgen.inputs, vec!["a.rs".to_string(), "b.rs".to_string()]);
}

#[test]
fn shebang_line_is_found() {
    let src = b"#!/usr/bin/env run\nfn main() {}\n".to_vec();
    let n = shebang_end(&src);
    assert_eq!(n, 18);
    assert_eq!(src[n], b'\n');
}

#[test]
fn inner_attribute_is_not_a_shebang() {
    let src = b"#![allow(dead_code)]\n".to_vec();
    assert_eq!(shebang_end(&src), 0);
}

#[test]
fn plain_source_is_left_whole() {
    let src = b"fn main() {}\n".to_vec();
    assert_eq!(shebang_end(&src), 0);
}

#[test]
fn shebang_without_newline_takes_all() {
    let src = b"#!/bin/true".to_vec();
    assert_eq!(shebang_end(&src), src.len());
}
