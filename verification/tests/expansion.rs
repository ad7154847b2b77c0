//! Whole-pipeline behavior: synthesis, rendering, errors, idempotence.

use test_vectors::transform::{test_vectors, test_vectors_result};
use test_vectors::{DirRead, EntryInfo, Error, FnArg, ItemFn, Pat, Signature, Span, Token};

fn dir_tokens(value: &str) -> Vec<Token> {
    vec![
        Token::Ident(String::from("dir")),
        Token::Punct('='),
        Token::LitStr(String::from(value)),
    ]
}

fn simple(name: &str, ty: &str) -> FnArg {
    FnArg::Typed {
        pat: Pat::Ident(String::from(name)),
        ty: String::from(ty),
    }
}

fn criterion_f() -> ItemFn {
    ItemFn {
        head: String::new(),
        sig: Signature {
            ident: String::from("f"),
            inputs: vec![simple("input", "&[u8]"), simple("expected", "&[u8]")],
            output: String::new(),
        },
        block: String::from("{ }"),
    }
}

fn corpus_alpha_beta() -> DirRead {
    DirRead::Entries(vec![
        EntryInfo::Entry {
            name: Some(String::from("alpha")),
            is_dir: true,
        },
        EntryInfo::Entry {
            name: Some(String::from("beta")),
            is_dir: true,
        },
    ])
}

#[test]
fn test_round_trip_two_cases() {
    let tokens = dir_tokens("tests/basic");
    let func = criterion_f();
    let read = corpus_alpha_beta();
    let root = Some(String::from(""));

    let e = test_vectors_result(&tokens, &func, &read, &root).unwrap();

    assert_eq!(e.impl_fn.sig.ident, "impl_f");
    assert_eq!(e.impl_fn.block, "{ }");
    assert_eq!(e.tests.len(), 2);

    assert_eq!(e.tests[0].name, "f_alpha");
    assert_eq!(
        e.tests[0].paths,
        vec!["tests/basic/alpha/input", "tests/basic/alpha/expected"]
    );
    assert_eq!(e.tests[1].name, "f_beta");
    assert_eq!(
        e.tests[1].paths,
        vec!["tests/basic/beta/input", "tests/basic/beta/expected"]
    );
}

#[test]
fn test_each_generated_test_references_arity_many_paths() {
    let tokens = dir_tokens("corpus");
    let func = criterion_f();
    let read = corpus_alpha_beta();
    let root = Some(String::from("/proj"));

    let e = test_vectors_result(&tokens, &func, &read, &root).unwrap();

    assert_eq!(e.tests.len(), 2);
    for t in &e.tests {
        assert_eq!(t.paths.len(), 2);
    }
    assert_eq!(e.tests[0].paths[0], "/proj/corpus/alpha/input");
    assert_eq!(e.tests[1].paths[1], "/proj/corpus/beta/expected");
}

#[test]
fn test_empty_corpus_generates_no_tests() {
    let tokens = dir_tokens("corpus");
    let func = criterion_f();
    let read = DirRead::Entries(vec![]);
    let root = Some(String::from("/proj"));

    let e = test_vectors_result(&tokens, &func, &read, &root).unwrap();
    assert_eq!(e.tests.len(), 0);
    assert_eq!(e.impl_fn.sig.ident, "impl_f");

    let out = e.render("load_bytes");
    assert_eq!(out, "fn impl_f(input: &[u8], expected: &[u8]) { }");
}

#[test]
fn test_rendered_output_exact() {
    let tokens = dir_tokens("d");
    let func = ItemFn {
        head: String::new(),
        sig: Signature {
            ident: String::from("f"),
            inputs: vec![simple("x", "&[u8]")],
            output: String::new(),
        },
        block: String::from("{ x; }"),
    };
    let read = DirRead::Entries(vec![EntryInfo::Entry {
        name: Some(String::from("alpha")),
        is_dir: true,
    }]);
    let root = Some(String::from(""));

    let out = test_vectors(&tokens, &func, &read, &root, "load_bytes");
    assert_eq!(
        out,
        "fn impl_f(x: &[u8]) { x; }\n\
         #[test]\n\
         fn f_alpha() {\n    impl_f(::core::convert::TryFrom::try_from(\
         load_bytes!(\"d/alpha/x\") as &[u8]).unwrap())\n}\n"
    );
}

#[test]
fn test_return_type_propagated_to_generated_tests() {
    let tokens = dir_tokens("d");
    let func = ItemFn {
        head: String::new(),
        sig: Signature {
            ident: String::from("f"),
            inputs: vec![simple("x", "&[u8]")],
            output: String::from("-> Result<(), Utf8Error>"),
        },
        block: String::from("{ Ok(()) }"),
    };
    let read = DirRead::Entries(vec![EntryInfo::Entry {
        name: Some(String::from("alpha")),
        is_dir: true,
    }]);
    let root = Some(String::from(""));

    let e = test_vectors_result(&tokens, &func, &read, &root).unwrap();
    assert_eq!(e.tests[0].output, "-> Result<(), Utf8Error>");

    let out = e.render("load_bytes");
    assert_eq!(
        out,
        "fn impl_f(x: &[u8]) -> Result<(), Utf8Error> { Ok(()) }\n\
         #[test]\n\
         fn f_alpha() -> Result<(), Utf8Error> {\n    impl_f(\
         ::core::convert::TryFrom::try_from(load_bytes!(\"d/alpha/x\") as &[u8]).unwrap())\n}\n"
    );
}

#[test]
fn test_zero_argument_criterion_generates_parameterless_calls() {
    let tokens = dir_tokens("d");
    let func = ItemFn {
        head: String::new(),
        sig: Signature {
            ident: String::from("f"),
            inputs: vec![],
            output: String::new(),
        },
        block: String::from("{ }"),
    };
    let read = DirRead::Entries(vec![EntryInfo::Entry {
        name: Some(String::from("alpha")),
        is_dir: true,
    }]);
    let root = Some(String::from(""));

    let e = test_vectors_result(&tokens, &func, &read, &root).unwrap();
    assert_eq!(e.tests[0].paths.len(), 0);
    let out = e.render("load_bytes");
    assert_eq!(
        out,
        "fn impl_f() { }\n#[test]\nfn f_alpha() {\n    impl_f()\n}\n"
    );
}

#[test]
fn test_attributes_and_visibility_preserved() {
    let tokens = dir_tokens("d");
    let func = ItemFn {
        head: String::from("#[allow(dead_code)]\npub "),
        sig: Signature {
            ident: String::from("f"),
            inputs: vec![],
            output: String::new(),
        },
        block: String::from("{ }"),
    };
    let read = DirRead::Entries(vec![]);
    let root = Some(String::from(""));

    let e = test_vectors_result(&tokens, &func, &read, &root).unwrap();
    assert_eq!(e.impl_fn.head, "#[allow(dead_code)]\npub ");
    let out = e.render("load_bytes");
    assert_eq!(out, "#[allow(dead_code)]\npub fn impl_f() { }");
}

#[test]
fn test_receiver_fails_whole_expansion() {
    let tokens = dir_tokens("d");
    let func = ItemFn {
        head: String::new(),
        sig: Signature {
            ident: String::from("f"),
            inputs: vec![FnArg::Receiver(String::from("&mut self"))],
            output: String::new(),
        },
        block: String::from("{ }"),
    };
    let read = corpus_alpha_beta();
    let root = Some(String::from(""));

    let e = test_vectors_result(&tokens, &func, &read, &root).unwrap_err();
    match e {
        Error::Grammar(d) => {
            assert_eq!(d.span, Span::Input);
            assert_eq!(d.message, "test functions may not take receiver: &mut self");
        }
        Error::Validation(_) => panic!("expected a grammar error"),
    }
}

#[test]
fn test_listing_failure_fails_whole_expansion() {
    let tokens = dir_tokens("d");
    let func = criterion_f();
    let read = DirRead::Failed(String::from("corpus directory missing"));
    let root = Some(String::from(""));

    let e = test_vectors_result(&tokens, &func, &read, &root).unwrap_err();
    match e {
        Error::Grammar(d) => {
            assert_eq!(d.span, Span::Args);
            assert_eq!(d.message, "corpus directory missing");
        }
        Error::Validation(_) => panic!("expected a grammar error"),
    }
}

#[test]
fn test_expansion_is_idempotent() {
    let tokens = dir_tokens("tests/basic");
    let func = criterion_f();
    let read = corpus_alpha_beta();
    let root = Some(String::from("/proj"));

    let first = test_vectors(&tokens, &func, &read, &root, "load_bytes");
    let second = test_vectors(&tokens, &func, &read, &root, "load_bytes");
    assert_eq!(first, second);
}

#[test]
fn test_failed_expansion_renders_compile_error() {
    let tokens: Vec<Token> = vec![];
    let func = criterion_f();
    let read = corpus_alpha_beta();
    let root = Some(String::from("/proj"));

    let out = test_vectors(&tokens, &func, &read, &root, "load_bytes");
    assert_eq!(
        out,
        "::core::compile_error! { \"missing required parameter `dir`\" }"
    );
}

#[test]
fn test_compile_error_escapes_message() {
    let e = Error::grammar(Span::Args, String::from("bad \"name\" with \\ slash"));
    let out = e.into_compile_error();
    assert_eq!(
        out,
        "::core::compile_error! { \"bad \\\"name\\\" with \\\\ slash\" }"
    );
}

#[test]
fn test_compile_error_escapes_newline_and_tab() {
    let e = Error::grammar(Span::Args, String::from("line1\nline2\tend"));
    let out = e.into_compile_error();
    assert_eq!(
        out,
        "::core::compile_error! { \"line1\\nline2\\tend\" }"
    );
}

#[test]
fn test_compile_error_escapes_control_characters() {
    let e = Error::grammar(Span::Args, String::from("a\u{1}b\r\u{7f}"));
    let out = e.into_compile_error();
    assert_eq!(
        out,
        "::core::compile_error! { \"a\\u{01}b\\r\\u{7f}\" }"
    );
}

#[test]
fn test_paths_with_quotes_are_escaped_in_render() {
    let tokens = dir_tokens("d\"ir");
    let func = ItemFn {
        head: String::new(),
        sig: Signature {
            ident: String::from("f"),
            inputs: vec![simple("x", "&[u8]")],
            output: String::new(),
        },
        block: String::from("{ }"),
    };
    let read = DirRead::Entries(vec![EntryInfo::Entry {
        name: Some(String::from("alpha")),
        is_dir: true,
    }]);
    let root = Some(String::from(""));

    let out = test_vectors(&tokens, &func, &read, &root, "load_bytes");
    assert!(out.contains("load_bytes!(\"d\\\"ir/alpha/x\")"));
}
