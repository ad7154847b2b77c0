//! Parsing of the attribute's argument list.
//!
//! The argument grammar is a flat, comma-separated sequence of
//! `identifier = literal` pairs, parsed by a small state machine
//! (awaiting key, awaiting `=`, awaiting value, awaiting `,`).  Exactly one
//! key is recognized, `dir`, whose string value is resolved against the
//! project root directory into an absolute corpus path.

use crate::error::{grammar_at, validation_at, Error, ErrorView, Span};
use crate::text::{join_path, join_path_spec, str_eq};
use vstd::prelude::*;
use vstd::string::StringExecFns;

verus! {

/// One token of the attribute's argument list: an identifier, a punctuation
/// character, a string literal (with its decoded value), some other kind of
/// literal, or a delimited group.
#[derive(Clone, Debug)]
pub enum Token {
    Ident(String),
    Punct(char),
    LitStr(String),
    OtherLit,
    Group,
}

/// The spec-level value of a [`Token`].
pub enum TokenView {
    Ident(Seq<char>),
    Punct(char),
    LitStr(Seq<char>),
    OtherLit,
    Group,
}

impl DeepView for Token {
    type V = TokenView;

    open spec fn deep_view(&self) -> TokenView {
        match self {
            Token::Ident(s) => TokenView::Ident(s@),
            Token::Punct(c) => TokenView::Punct(*c),
            Token::LitStr(s) => TokenView::LitStr(s@),
            Token::OtherLit => TokenView::OtherLit,
            Token::Group => TokenView::Group,
        }
    }
}

/// One `key = value` pair recovered from the argument list, with the token
/// index of its key and of its value.
#[derive(Clone, Debug)]
pub struct Meta {
    pub key: String,
    pub key_at: usize,
    pub value: MetaValue,
    pub value_at: usize,
}

/// The value side of one pair: a string literal or some other literal.
#[derive(Clone, Debug)]
pub enum MetaValue {
    Str(String),
    Other,
}

/// The spec-level value of a [`Meta`].
pub struct MetaView {
    pub key: Seq<char>,
    pub key_at: usize,
    pub value: MetaValueView,
    pub value_at: usize,
}

/// The spec-level value of a [`MetaValue`].
pub enum MetaValueView {
    Str(Seq<char>),
    Other,
}

impl DeepView for MetaValue {
    type V = MetaValueView;

    open spec fn deep_view(&self) -> MetaValueView {
        match self {
            MetaValue::Str(s) => MetaValueView::Str(s@),
            MetaValue::Other => MetaValueView::Other,
        }
    }
}

impl DeepView for Meta {
    type V = MetaView;

    open spec fn deep_view(&self) -> MetaView {
        MetaView {
            key: self.key@,
            key_at: self.key_at,
            value: self.value.deep_view(),
            value_at: self.value_at,
        }
    }
}

/// The parser's state between two tokens of the argument list.
pub enum ParseState {
    AwaitingKey,
    AwaitingEq { key: String, key_at: usize },
    AwaitingValue { key: String, key_at: usize },
    AwaitingComma,
}

/// The spec-level value of a [`ParseState`].
pub enum ParseStateView {
    AwaitingKey,
    AwaitingEq { key: Seq<char>, key_at: usize },
    AwaitingValue { key: Seq<char>, key_at: usize },
    AwaitingComma,
}

impl DeepView for ParseState {
    type V = ParseStateView;

    open spec fn deep_view(&self) -> ParseStateView {
        match self {
            ParseState::AwaitingKey => ParseStateView::AwaitingKey,
            ParseState::AwaitingEq { key, key_at } => ParseStateView::AwaitingEq {
                key: key@,
                key_at: *key_at,
            },
            ParseState::AwaitingValue { key, key_at } => ParseStateView::AwaitingValue {
                key: key@,
                key_at: *key_at,
            },
            ParseState::AwaitingComma => ParseStateView::AwaitingComma,
        }
    }
}

/// One run of the argument state machine from token `i` onward, in state
/// `st` with the pairs `acc` already collected.  An unexpected token class
/// fails at that token; input that ends in the middle of a pair — a key
/// with no `=`, or a `key =` with no value — fails at that pair's key
/// token.  Only a pair boundary (including after a trailing comma) is a
/// valid end.
pub open spec fn run_args_machine(
    tokens: Seq<TokenView>,
    i: int,
    st: ParseStateView,
    acc: Seq<MetaView>,
) -> Result<Seq<MetaView>, ErrorView>
    decreases tokens.len() - i,
{
    if i >= tokens.len() {
        match st {
            ParseStateView::AwaitingKey => Ok(acc),
            ParseStateView::AwaitingComma => Ok(acc),
            ParseStateView::AwaitingEq { key_at, .. } => Err(
                grammar_at(Span::ArgToken(key_at), "expected `=`"@),
            ),
            ParseStateView::AwaitingValue { key_at, .. } => Err(
                grammar_at(Span::ArgToken(key_at), "expected a literal value"@),
            ),
        }
    } else {
        match st {
            ParseStateView::AwaitingKey => match tokens[i] {
                TokenView::Ident(name) => run_args_machine(
                    tokens,
                    i + 1,
                    ParseStateView::AwaitingEq { key: name, key_at: i as usize },
                    acc,
                ),
                _ => Err(grammar_at(Span::ArgToken(i as usize), "expected parameter name"@)),
            },
            ParseStateView::AwaitingEq { key, key_at } => match tokens[i] {
                TokenView::Punct(c) => if c == '=' {
                    run_args_machine(
                        tokens,
                        i + 1,
                        ParseStateView::AwaitingValue { key, key_at },
                        acc,
                    )
                } else {
                    Err(grammar_at(Span::ArgToken(i as usize), "expected `=`"@))
                },
                _ => Err(grammar_at(Span::ArgToken(i as usize), "expected `=`"@)),
            },
            ParseStateView::AwaitingValue { key, key_at } => match tokens[i] {
                TokenView::LitStr(v) => run_args_machine(
                    tokens,
                    i + 1,
                    ParseStateView::AwaitingComma,
                    acc.push(
                        MetaView {
                            key,
                            key_at,
                            value: MetaValueView::Str(v),
                            value_at: i as usize,
                        },
                    ),
                ),
                TokenView::OtherLit => run_args_machine(
                    tokens,
                    i + 1,
                    ParseStateView::AwaitingComma,
                    acc.push(
                        MetaView { key, key_at, value: MetaValueView::Other, value_at: i as usize },
                    ),
                ),
                _ => Err(grammar_at(Span::ArgToken(i as usize), "expected a literal value"@)),
            },
            ParseStateView::AwaitingComma => match tokens[i] {
                TokenView::Punct(c) => if c == ',' {
                    run_args_machine(tokens, i + 1, ParseStateView::AwaitingKey, acc)
                } else {
                    Err(grammar_at(Span::ArgToken(i as usize), "expected `,`"@))
                },
                _ => Err(grammar_at(Span::ArgToken(i as usize), "expected `,`"@)),
            },
        }
    }
}

/// The `key = value` pairs of the argument list, or the first grammar error.
pub open spec fn parse_attribute_args_spec(tokens: Seq<TokenView>) -> Result<
    Seq<MetaView>,
    ErrorView,
> {
    run_args_machine(tokens, 0, ParseStateView::AwaitingKey, Seq::empty())
}

/// Parse the flat `identifier = literal` argument list by the state machine,
/// erroring on any unexpected token class and on input that ends in the
/// middle of a pair.
pub fn parse_attribute_args(tokens: &Vec<Token>) -> (r: Result<Vec<Meta>, Error>)
    ensures
        match r {
            Ok(metas) => parse_attribute_args_spec(tokens.deep_view()) == Ok::<_, ErrorView>(
                metas.deep_view(),
            ),
            Err(e) => parse_attribute_args_spec(tokens.deep_view()) == Err::<Seq<MetaView>, _>(
                e.deep_view(),
            ),
        },
{
    let mut metas: Vec<Meta> = Vec::new();
    let mut state = ParseState::AwaitingKey;
    let mut i: usize = 0;
    proof {
        assert(metas.deep_view() =~= Seq::<MetaView>::empty());
    }
    while i < tokens.len()
        invariant
            i <= tokens.len(),
            run_args_machine(tokens.deep_view(), i as int, state.deep_view(), metas.deep_view())
                == parse_attribute_args_spec(tokens.deep_view()),
        decreases tokens.len() - i,
    {
        let ghost prev_metas = metas.deep_view();
        let t = &tokens[i];
        proof {
            assert(tokens.deep_view()[i as int] == t.deep_view());
        }
        state = match state {
            ParseState::AwaitingKey => match t {
                Token::Ident(name) => ParseState::AwaitingEq { key: name.clone(), key_at: i },
                _ => {
                    return Err(
                        Error::grammar(
                            Span::ArgToken(i),
                            String::from_str("expected parameter name"),
                        ),
                    );
                },
            },
            ParseState::AwaitingEq { key, key_at } => match t {
                Token::Punct(c) => {
                    if *c == '=' {
                        ParseState::AwaitingValue { key, key_at }
                    } else {
                        return Err(
                            Error::grammar(Span::ArgToken(i), String::from_str("expected `=`")),
                        );
                    }
                },
                _ => {
                    return Err(
                        Error::grammar(Span::ArgToken(i), String::from_str("expected `=`")),
                    );
                },
            },
            ParseState::AwaitingValue { key, key_at } => match t {
                Token::LitStr(v) => {
                    metas.push(
                        Meta { key, key_at, value: MetaValue::Str(v.clone()), value_at: i },
                    );
                    ParseState::AwaitingComma
                },
                Token::OtherLit => {
                    metas.push(Meta { key, key_at, value: MetaValue::Other, value_at: i });
                    ParseState::AwaitingComma
                },
                _ => {
                    return Err(
                        Error::grammar(
                            Span::ArgToken(i),
                            String::from_str("expected a literal value"),
                        ),
                    );
                },
            },
            ParseState::AwaitingComma => match t {
                Token::Punct(c) => {
                    if *c == ',' {
                        ParseState::AwaitingKey
                    } else {
                        return Err(
                            Error::grammar(Span::ArgToken(i), String::from_str("expected `,`")),
                        );
                    }
                },
                _ => {
                    return Err(
                        Error::grammar(Span::ArgToken(i), String::from_str("expected `,`")),
                    );
                },
            },
        };
        proof {
            if metas.deep_view() != prev_metas {
                assert(metas.deep_view() =~= prev_metas.push(
                    metas.deep_view()[prev_metas.len() as int],
                ));
            }
        }
        i = i + 1;
    }
    match state {
        ParseState::AwaitingKey => Ok(metas),
        ParseState::AwaitingComma => Ok(metas),
        ParseState::AwaitingEq { key_at, .. } => Err(
            Error::grammar(Span::ArgToken(key_at), String::from_str("expected `=`")),
        ),
        ParseState::AwaitingValue { key_at, .. } => Err(
            Error::grammar(Span::ArgToken(key_at), String::from_str("expected a literal value")),
        ),
    }
}

/// Scan of the collected pairs for the one recognized key, from pair `i`
/// onward with `found` holding an already seen `dir` value: the string value
/// of `dir`, or the first validation error — an unknown key, a non-string
/// value, a duplicate, or, once all pairs are seen, the missing key.
pub open spec fn metas_to_dir_from(
    metas: Seq<MetaView>,
    i: int,
    found: Option<Seq<char>>,
) -> Result<Seq<char>, ErrorView>
    decreases metas.len() - i,
{
    if i >= metas.len() {
        match found {
            Some(d) => Ok(d),
            None => Err(validation_at(Span::Args, "missing required parameter `dir`"@)),
        }
    } else {
        let m = metas[i];
        if m.key != "dir"@ {
            Err(validation_at(Span::ArgToken(m.key_at), "unknown parameter"@))
        } else {
            match m.value {
                MetaValueView::Str(v) => match found {
                    None => metas_to_dir_from(metas, i + 1, Some(v)),
                    Some(_) => Err(
                        validation_at(Span::ArgToken(m.key_at), "duplicate parameter `dir`"@),
                    ),
                },
                MetaValueView::Other => Err(
                    validation_at(
                        Span::ArgToken(m.value_at),
                        "expected a string literal for `dir`"@,
                    ),
                ),
            }
        }
    }
}

/// The string value of the one recognized key `dir`, or the first
/// validation error.
pub open spec fn metas_to_dir_spec(metas: Seq<MetaView>) -> Result<Seq<char>, ErrorView> {
    metas_to_dir_from(metas, 0, None)
}

/// Validate the collected pairs against the recognized parameters and
/// return the supplied `dir` value.
pub fn metas_to_dir(metas: &Vec<Meta>) -> (r: Result<String, Error>)
    ensures
        match r {
            Ok(dir) => metas_to_dir_spec(metas.deep_view()) == Ok::<_, ErrorView>(dir@),
            Err(e) => metas_to_dir_spec(metas.deep_view()) == Err::<Seq<char>, _>(e.deep_view()),
        },
{
    let mut found: Option<String> = None;
    let mut i: usize = 0;
    while i < metas.len()
        invariant
            i <= metas.len(),
            metas_to_dir_from(metas.deep_view(), i as int, found.deep_view())
                == metas_to_dir_spec(metas.deep_view()),
        decreases metas.len() - i,
    {
        let m = &metas[i];
        proof {
            assert(metas.deep_view()[i as int] == m.deep_view());
        }
        if !str_eq(m.key.as_str(), "dir") {
            return Err(
                Error::validation(
                    Span::ArgToken(m.key_at),
                    String::from_str("unknown parameter"),
                ),
            );
        }
        match &m.value {
            MetaValue::Str(v) => match found {
                None => {
                    found = Some(v.clone());
                },
                Some(_) => {
                    return Err(
                        Error::validation(
                            Span::ArgToken(m.key_at),
                            String::from_str("duplicate parameter `dir`"),
                        ),
                    );
                },
            },
            MetaValue::Other => {
                return Err(
                    Error::validation(
                        Span::ArgToken(m.value_at),
                        String::from_str("expected a string literal for `dir`"),
                    ),
                );
            },
        }
        i = i + 1;
    }
    match found {
        Some(dir) => Ok(dir),
        None => Err(
            Error::validation(Span::Args, String::from_str("missing required parameter `dir`")),
        ),
    }
}

/// The typed configuration of one expansion: the corpus directory as an
/// absolute path, the user-supplied value resolved against the project
/// root.  Constructed once per invocation and never re-resolved.
#[derive(Clone, Debug)]
pub struct MacroParams {
    pub dir: String,
}

/// What parsing the argument list yields: the resolved corpus directory, or
/// the first error.  `root` is the project root directory that the build
/// environment supplies; without it resolution fails.
pub open spec fn macro_params_spec(tokens: Seq<TokenView>, root: Option<Seq<char>>) -> Result<
    Seq<char>,
    ErrorView,
> {
    match parse_attribute_args_spec(tokens) {
        Err(e) => Err(e),
        Ok(metas) => match metas_to_dir_spec(metas) {
            Err(e) => Err(e),
            Ok(rel) => match root {
                None => Err(
                    grammar_at(
                        Span::Args,
                        "could not access CARGO_MANIFEST_DIR from environment"@,
                    ),
                ),
                Some(base) => Ok(join_path_spec(base, rel)),
            },
        },
    }
}

impl MacroParams {
    /// Parse the attribute's argument list into the typed configuration,
    /// resolving the supplied relative path against the project root
    /// `root`.
    pub fn parse(tokens: &Vec<Token>, root: &Option<String>) -> (r: Result<MacroParams, Error>)
        ensures
            match r {
                Ok(p) => macro_params_spec(tokens.deep_view(), root.deep_view())
                    == Ok::<_, ErrorView>(p.dir@),
                Err(e) => macro_params_spec(tokens.deep_view(), root.deep_view())
                    == Err::<Seq<char>, _>(e.deep_view()),
            },
    {
        let metas = match parse_attribute_args(tokens) {
            Ok(m) => m,
            Err(e) => {
                return Err(e);
            },
        };
        let rel = match metas_to_dir(&metas) {
            Ok(v) => v,
            Err(e) => {
                return Err(e);
            },
        };
        match root {
            None => Err(
                Error::grammar(
                    Span::Args,
                    String::from_str("could not access CARGO_MANIFEST_DIR from environment"),
                ),
            ),
            Some(base) => Ok(MacroParams { dir: join_path(base.as_str(), rel.as_str()) }),
        }
    }
}

/// Law: an argument list of exactly `dir = "<value>"` parses successfully,
/// and the configured corpus directory is the value resolved against the
/// project root.
pub proof fn lemma_single_dir_accepted(value: Seq<char>, root: Seq<char>)
    ensures
        macro_params_spec(
            seq![TokenView::Ident("dir"@), TokenView::Punct('='), TokenView::LitStr(value)],
            Some(root),
        ) == Ok::<_, ErrorView>(join_path_spec(root, value)),
{
    let tokens = seq![
        TokenView::Ident("dir"@),
        TokenView::Punct('='),
        TokenView::LitStr(value),
    ];
    let meta = MetaView { key: "dir"@, key_at: 0, value: MetaValueView::Str(value), value_at: 2 };
    assert(parse_attribute_args_spec(tokens) == run_args_machine(
        tokens,
        1,
        ParseStateView::AwaitingEq { key: "dir"@, key_at: 0 },
        Seq::empty(),
    ));
    assert(parse_attribute_args_spec(tokens) == run_args_machine(
        tokens,
        2,
        ParseStateView::AwaitingValue { key: "dir"@, key_at: 0 },
        Seq::empty(),
    ));
    assert(parse_attribute_args_spec(tokens) == run_args_machine(
        tokens,
        3,
        ParseStateView::AwaitingComma,
        Seq::empty().push(meta),
    ));
    assert(parse_attribute_args_spec(tokens) == Ok::<_, ErrorView>(Seq::empty().push(meta)));
    assert(metas_to_dir_spec(Seq::empty().push(meta)) == metas_to_dir_from(
        Seq::empty().push(meta),
        1,
        Some(value),
    ));
}

/// Law: `dir = ""` yields the project root itself — joining the empty
/// relative path changes nothing.
pub proof fn lemma_empty_dir_is_root(root: Seq<char>)
    ensures
        macro_params_spec(
            seq![TokenView::Ident("dir"@), TokenView::Punct('='), TokenView::LitStr(""@)],
            Some(root),
        ) == Ok::<_, ErrorView>(root),
{
    lemma_single_dir_accepted(""@, root);
    reveal_strlit("");
    assert(""@.len() == 0);
}

/// Law: a relative path such as `sub/path` resolves below the project
/// root, joined with a single separator.
pub proof fn lemma_relative_dir_resolved(value: Seq<char>, root: Seq<char>)
    requires
        value.len() > 0,
        value[0] != '/',
        root.len() > 0,
        root[root.len() - 1] != '/',
    ensures
        macro_params_spec(
            seq![TokenView::Ident("dir"@), TokenView::Punct('='), TokenView::LitStr(value)],
            Some(root),
        ) == Ok::<_, ErrorView>(root + "/"@ + value),
{
    lemma_single_dir_accepted(value, root);
}

/// Law: an argument list none of whose pairs supplies `dir` always fails:
/// with the unknown-parameter diagnostic at the first foreign key, or,
/// when there are no pairs at all, with the missing-parameter diagnostic.
pub proof fn lemma_missing_dir_rejected(
    tokens: Seq<TokenView>,
    metas: Seq<MetaView>,
    root: Option<Seq<char>>,
)
    requires
        parse_attribute_args_spec(tokens) == Ok::<_, ErrorView>(metas),
        forall|i: int| 0 <= i < metas.len() ==> (#[trigger] metas[i]).key != "dir"@,
    ensures
        macro_params_spec(tokens, root) is Err,
        metas.len() == 0 ==> macro_params_spec(tokens, root) == Err::<Seq<char>, _>(
            validation_at(Span::Args, "missing required parameter `dir`"@),
        ),
{
}

} // verus!
