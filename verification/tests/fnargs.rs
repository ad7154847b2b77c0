//! Signature inspector behavior: receivers, patterns, parameter order.

use test_vectors::fnargs::parse_fn_args;
use test_vectors::{FnArg, Pat, Signature};

fn simple(name: &str, ty: &str) -> FnArg {
    FnArg::Typed {
        pat: Pat::Ident(String::from(name)),
        ty: String::from(ty),
    }
}

#[test]
fn test_receiver_fails_with_receiver_diagnostic() {
    let sig = Signature {
        ident: String::from("f"),
        inputs: vec![FnArg::Receiver(String::from("&self"))],
        output: String::new(),
    };
    let e = parse_fn_args(&sig).unwrap_err();
    assert_eq!(e, "test functions may not take receiver: &self");
}

#[test]
fn test_destructured_pattern_fails_with_pattern_diagnostic() {
    let sig = Signature {
        ident: String::from("f"),
        inputs: vec![
            simple("ok", "&[u8]"),
            FnArg::Typed {
                pat: Pat::Other(String::from("(a, b)")),
                ty: String::from("(u8, u8)"),
            },
        ],
        output: String::new(),
    };
    let e = parse_fn_args(&sig).unwrap_err();
    assert_eq!(e, "expected arg identifier, found: (a, b)");
}

#[test]
fn test_simple_identifiers_keep_declaration_order() {
    let sig = Signature {
        ident: String::from("f"),
        inputs: vec![
            simple("input", "&[u8]"),
            simple("expected", "&[u8]"),
            simple("extra", "u32"),
        ],
        output: String::new(),
    };
    let (names, tys) = parse_fn_args(&sig).unwrap();
    assert_eq!(names, vec!["input", "expected", "extra"]);
    assert_eq!(tys, vec!["&[u8]", "&[u8]", "u32"]);
}

#[test]
fn test_no_parameters_accepted() {
    let sig = Signature {
        ident: String::from("f"),
        inputs: vec![],
        output: String::new(),
    };
    let (names, tys) = parse_fn_args(&sig).unwrap();
    assert!(names.is_empty());
    assert!(tys.is_empty());
}
