//! Code synthesis: one emitted test function per corpus case.
//!
//! Expansion combines the parsed configuration, the inspected parameter
//! names, and the enumerated case names: the criterion function is renamed
//! with an `impl_` prefix and re-emitted, and for each case a test function
//! `<basename>_<case>` is synthesized whose single statement calls the
//! renamed function with one argument per parameter: the file at
//! `<dir>/<case>/<argname>`, included at compile time and adapted to the
//! parameter's declared type through the byte-to-argument conversion
//! trait.  A failure at any stage substitutes a diagnostic for the whole
//! emission.

use crate::error::{grammar_at, Error, ErrorView, Span};
use crate::fnargs::{
    fn_args_spec, parse_fn_args, receiver_only_first, FnArg, FnArgView, Pat, PatView, Signature,
    SignatureView,
};
use crate::listdir::{list_dir, list_dir_spec, DirRead, DirReadView};
use crate::params::{macro_params_spec, MacroParams, Token, TokenView};
use crate::text::{escape_spec, escape_text, join_path, join_path_spec};
use vstd::prelude::*;
use vstd::string::StringExecFns;

verus! {

/// The criterion function as expansion sees it: the source text that
/// precedes the `fn` keyword (its attributes and visibility, empty when
/// there are none), its signature, and the source text of its body block.
/// All of it is re-emitted; only the name changes.
#[derive(Clone, Debug)]
pub struct ItemFn {
    pub head: String,
    pub sig: Signature,
    pub block: String,
}

/// The spec-level value of an [`ItemFn`].
pub struct ItemFnView {
    pub head: Seq<char>,
    pub sig: SignatureView,
    pub block: Seq<char>,
}

impl DeepView for ItemFn {
    type V = ItemFnView;

    open spec fn deep_view(&self) -> ItemFnView {
        ItemFnView { head: self.head@, sig: self.sig.deep_view(), block: self.block@ }
    }
}

/// One synthesized test: its name, the return type it propagates, and the
/// file path for each parameter of the criterion function, in declaration
/// order.
#[derive(Clone, Debug)]
pub struct GeneratedTest {
    pub name: String,
    pub output: String,
    pub paths: Vec<String>,
}

/// The spec-level value of a [`GeneratedTest`].
pub struct GeneratedTestView {
    pub name: Seq<char>,
    pub output: Seq<char>,
    pub paths: Seq<Seq<char>>,
}

impl DeepView for GeneratedTest {
    type V = GeneratedTestView;

    open spec fn deep_view(&self) -> GeneratedTestView {
        GeneratedTestView {
            name: self.name@,
            output: self.output@,
            paths: self.paths.deep_view(),
        }
    }
}

/// The outcome of a successful expansion: the renamed criterion function
/// and the synthesized tests, one per case in enumeration order.
#[derive(Clone, Debug)]
pub struct Expansion {
    pub impl_fn: ItemFn,
    pub tests: Vec<GeneratedTest>,
}

/// The spec-level value of an [`Expansion`].
pub struct ExpansionView {
    pub impl_fn: ItemFnView,
    pub tests: Seq<GeneratedTestView>,
}

impl DeepView for Expansion {
    type V = ExpansionView;

    open spec fn deep_view(&self) -> ExpansionView {
        ExpansionView { impl_fn: self.impl_fn.deep_view(), tests: self.tests.deep_view() }
    }
}

/// The criterion function renamed with the `impl_` prefix, otherwise
/// unchanged.
pub open spec fn renamed_fn_view(f: ItemFnView) -> ItemFnView {
    ItemFnView {
        head: f.head,
        sig: SignatureView {
            ident: "impl_"@ + f.sig.ident,
            inputs: f.sig.inputs,
            output: f.sig.output,
        },
        block: f.block,
    }
}

/// The test synthesized for one case: named `<basename>_<case>`, carrying
/// the criterion function's return type, with one path
/// `<dir>/<case>/<argname>` per parameter in declaration order.
pub open spec fn gen_test_view(
    f: ItemFnView,
    dir: Seq<char>,
    names: Seq<Seq<char>>,
    case: Seq<char>,
) -> GeneratedTestView {
    GeneratedTestView {
        name: f.sig.ident + "_"@ + case,
        output: f.sig.output,
        paths: Seq::new(names.len(), |j: int| join_path_spec(join_path_spec(dir, case), names[j])),
    }
}

/// The whole outcome of a successful expansion over the given case names.
pub open spec fn expansion_view(
    f: ItemFnView,
    dir: Seq<char>,
    names: Seq<Seq<char>>,
    cases: Seq<Seq<char>>,
) -> ExpansionView {
    ExpansionView {
        impl_fn: renamed_fn_view(f),
        tests: Seq::new(cases.len(), |i: int| gen_test_view(f, dir, names, cases[i])),
    }
}

/// What expansion yields: the argument list is parsed and resolved, the
/// signature inspected, the corpus enumerated, and the output synthesized;
/// the first failure of any stage becomes the expansion's error.
pub open spec fn test_vectors_result_spec(
    tokens: Seq<TokenView>,
    func: ItemFnView,
    dir_read: DirReadView,
    root: Option<Seq<char>>,
) -> Result<ExpansionView, ErrorView> {
    match macro_params_spec(tokens, root) {
        Err(e) => Err(e),
        Ok(dir) => match fn_args_spec(func.sig.inputs) {
            Err(m) => Err(grammar_at(Span::Input, m)),
            Ok(p) => match list_dir_spec(dir_read) {
                Err(m) => Err(grammar_at(Span::Args, m)),
                Ok(cases) => Ok(expansion_view(func, dir, p.0, cases)),
            },
        },
    }
}

/// A copy of a parameter list, element for element.
fn clone_fnargs(v: &Vec<FnArg>) -> (r: Vec<FnArg>)
    ensures
        r.deep_view() == v.deep_view(),
{
    let mut r: Vec<FnArg> = Vec::new();
    let mut i: usize = 0;
    proof {
        assert(r.deep_view() =~= v.deep_view().take(0));
    }
    while i < v.len()
        invariant
            i <= v.len(),
            r.deep_view() == v.deep_view().take(i as int),
        decreases v.len() - i,
    {
        let ghost prev = r.deep_view();
        match &v[i] {
            FnArg::Receiver(s) => {
                r.push(FnArg::Receiver(s.clone()));
            },
            FnArg::Typed { pat, ty } => {
                let p = match pat {
                    Pat::Ident(s) => Pat::Ident(s.clone()),
                    Pat::Other(s) => Pat::Other(s.clone()),
                };
                r.push(FnArg::Typed { pat: p, ty: ty.clone() });
            },
        }
        proof {
            assert(v.deep_view()[i as int] == v[i as int].deep_view());
            assert(r.deep_view() =~= prev.push(r.deep_view()[prev.len() as int]));
            assert(r.deep_view() =~= v.deep_view().take(i + 1));
        }
        i = i + 1;
    }
    proof {
        assert(v.deep_view().take(v@.len() as int) =~= v.deep_view());
    }
    r
}

/// Synthesize the expansion of one invocation: parse the argument list and
/// resolve the corpus directory against `root`, inspect the criterion
/// function's parameters, enumerate the corpus cases, and emit the renamed
/// original plus one test per case — or the first failure of any stage.
pub fn test_vectors_result(
    tokens: &Vec<Token>,
    func: &ItemFn,
    dir_read: &DirRead,
    root: &Option<String>,
) -> (r: Result<Expansion, Error>)
    requires
        receiver_only_first(func.sig.deep_view().inputs),
    ensures
        match r {
            Ok(e) => test_vectors_result_spec(
                tokens.deep_view(),
                func.deep_view(),
                dir_read.deep_view(),
                root.deep_view(),
            ) == Ok::<_, ErrorView>(e.deep_view()),
            Err(e) => test_vectors_result_spec(
                tokens.deep_view(),
                func.deep_view(),
                dir_read.deep_view(),
                root.deep_view(),
            ) == Err::<ExpansionView, _>(e.deep_view()),
        },
{
    let params = match MacroParams::parse(tokens, root) {
        Ok(p) => p,
        Err(e) => {
            return Err(e);
        },
    };
    let names = match parse_fn_args(&func.sig) {
        Ok(p) => p.0,
        Err(m) => {
            return Err(Error::grammar(Span::Input, m));
        },
    };
    let cases = match list_dir(dir_read) {
        Ok(c) => c,
        Err(m) => {
            return Err(Error::grammar(Span::Args, m));
        },
    };

    let mut impl_name = String::from_str("impl_");
    impl_name.append(func.sig.ident.as_str());
    let impl_fn = ItemFn {
        head: func.head.clone(),
        sig: Signature {
            ident: impl_name,
            inputs: clone_fnargs(&func.sig.inputs),
            output: func.sig.output.clone(),
        },
        block: func.block.clone(),
    };

    let ghost funcv = func.deep_view();
    let ghost dirv = params.dir@;
    let ghost namesv = names.deep_view();
    let ghost casesv = cases.deep_view();

    let mut tests: Vec<GeneratedTest> = Vec::new();
    let mut i: usize = 0;
    while i < cases.len()
        invariant
            i <= cases.len(),
            funcv == func.deep_view(),
            casesv == cases.deep_view(),
            namesv == names.deep_view(),
            dirv == params.dir@,
            tests.deep_view().len() == i,
            forall|ii: int| 0 <= ii < i ==> tests.deep_view()[ii] == gen_test_view(
                funcv,
                dirv,
                namesv,
                casesv[ii],
            ),
        decreases cases.len() - i,
    {
        let case = &cases[i];
        proof {
            assert(casesv[i as int] == case@);
        }
        let casedir = join_path(params.dir.as_str(), case.as_str());

        let mut test_name = func.sig.ident.clone();
        test_name.append("_");
        test_name.append(case.as_str());

        let mut paths: Vec<String> = Vec::new();
        let mut j: usize = 0;
        while j < names.len()
            invariant
                j <= names.len(),
                namesv == names.deep_view(),
                casedir@ == join_path_spec(dirv, casesv[i as int]),
                i < casesv.len(),
                paths.deep_view().len() == j,
                forall|jj: int| 0 <= jj < j ==> paths.deep_view()[jj] == join_path_spec(
                    casedir@,
                    namesv[jj],
                ),
            decreases names.len() - j,
        {
            let ghost prev = paths.deep_view();
            paths.push(join_path(casedir.as_str(), names[j].as_str()));
            proof {
                assert(namesv[j as int] == names[j as int]@);
                assert(paths.deep_view() =~= prev.push(paths.deep_view()[prev.len() as int]));
            }
            j = j + 1;
        }

        let ghost prev_tests = tests.deep_view();
        tests.push(GeneratedTest { name: test_name, output: func.sig.output.clone(), paths });
        proof {
            assert(tests.deep_view() =~= prev_tests.push(
                tests.deep_view()[prev_tests.len() as int],
            ));
            let t = gen_test_view(funcv, dirv, namesv, casesv[i as int]);
            assert(tests.deep_view()[i as int].paths =~= t.paths);
            assert(tests.deep_view()[i as int] == t);
        }
        i = i + 1;
    }

    let expansion = Expansion { impl_fn, tests };
    proof {
        assert(expansion.deep_view().tests =~= expansion_view(funcv, dirv, namesv, casesv).tests);
        assert(expansion.deep_view() == expansion_view(funcv, dirv, namesv, casesv));
    }
    Ok(expansion)
}

/// The source text of one parameter: `pattern: type`, or a receiver as its
/// own text.
pub open spec fn render_input_spec(a: FnArgView) -> Seq<char> {
    match a {
        FnArgView::Receiver(txt) => txt,
        FnArgView::Typed { pat, ty } => (match pat {
            PatView::Ident(n) => n,
            PatView::Other(t) => t,
        }) + ": "@ + ty,
    }
}

/// The comma-separated source text of the first `k` parameters.
pub open spec fn render_inputs_prefix(inputs: Seq<FnArgView>, k: int) -> Seq<char>
    decreases k,
{
    if k <= 0 {
        Seq::empty()
    } else if k == 1 {
        render_input_spec(inputs[0])
    } else {
        render_inputs_prefix(inputs, k - 1) + ", "@ + render_input_spec(inputs[k - 1])
    }
}

/// The return type fragment of a rendered function: nothing for the
/// default return type, otherwise the return type text and a space.
pub open spec fn render_output_spec(output: Seq<char>) -> Seq<char> {
    if output.len() == 0 {
        Seq::empty()
    } else {
        output + " "@
    }
}

/// The source text of the re-emitted criterion function: its attributes
/// and visibility, its signature, and its original body block.
pub open spec fn render_item_fn_spec(f: ItemFnView) -> Seq<char> {
    f.head + "fn "@ + f.sig.ident + "("@ + render_inputs_prefix(
        f.sig.inputs,
        f.sig.inputs.len() as int,
    ) + ") "@ + render_output_spec(f.sig.output) + f.block
}

/// One argument of a generated call: the file-inclusion macro named `mac`
/// applied to the quoted, escaped path, adapted to the parameter's declared
/// type through the byte-to-argument conversion trait.
pub open spec fn render_call_arg_spec(mac: Seq<char>, path: Seq<char>) -> Seq<char> {
    "::core::convert::TryFrom::try_from("@ + mac + "!(\""@ + escape_spec(path)
        + "\") as &[u8]).unwrap()"@
}

/// The comma-separated source text of the first `k` call arguments.
pub open spec fn render_call_args_prefix(mac: Seq<char>, paths: Seq<Seq<char>>, k: int) -> Seq<
    char,
>
    decreases k,
{
    if k <= 0 {
        Seq::empty()
    } else if k == 1 {
        render_call_arg_spec(mac, paths[0])
    } else {
        render_call_args_prefix(mac, paths, k - 1) + ", "@ + render_call_arg_spec(
            mac,
            paths[k - 1],
        )
    }
}

/// The source text of one generated test: a `#[test]` function with no
/// parameters and the propagated return type, whose single statement calls
/// the renamed criterion function with one file inclusion per path.
pub open spec fn render_test_spec(
    t: GeneratedTestView,
    impl_name: Seq<char>,
    mac: Seq<char>,
) -> Seq<char> {
    "#[test]\nfn "@ + t.name + "() "@ + render_output_spec(t.output) + "{\n    "@ + impl_name
        + "("@ + render_call_args_prefix(mac, t.paths, t.paths.len() as int) + ")\n}\n"@
}

/// The emitted output text up to the first `k` generated tests: the
/// renamed criterion function, then one rendered test per case.
pub open spec fn render_expansion_prefix(e: ExpansionView, mac: Seq<char>, k: int) -> Seq<char>
    decreases k,
{
    if k <= 0 {
        render_item_fn_spec(e.impl_fn)
    } else {
        render_expansion_prefix(e, mac, k - 1) + "\n"@ + render_test_spec(
            e.tests[k - 1],
            e.impl_fn.sig.ident,
            mac,
        )
    }
}

/// The whole emitted output text of a successful expansion.
pub open spec fn render_expansion_spec(e: ExpansionView, mac: Seq<char>) -> Seq<char> {
    render_expansion_prefix(e, mac, e.tests.len() as int)
}

/// Render the comma-separated parameter list.
fn render_inputs(inputs: &Vec<FnArg>) -> (r: String)
    ensures
        r@ == render_inputs_prefix(inputs.deep_view(), inputs@.len() as int),
{
    let mut s = String::new();
    let mut i: usize = 0;
    while i < inputs.len()
        invariant
            i <= inputs.len(),
            s@ == render_inputs_prefix(inputs.deep_view(), i as int),
        decreases inputs.len() - i,
    {
        if i > 0 {
            s.append(", ");
        }
        match &inputs[i] {
            FnArg::Receiver(txt) => {
                s.append(txt.as_str());
            },
            FnArg::Typed { pat, ty } => {
                match pat {
                    Pat::Ident(n) => s.append(n.as_str()),
                    Pat::Other(t) => s.append(t.as_str()),
                }
                s.append(": ");
                s.append(ty.as_str());
            },
        }
        proof {
            assert(inputs.deep_view()[i as int] == inputs[i as int].deep_view());
            assert(s@ =~= render_inputs_prefix(inputs.deep_view(), i as int + 1));
        }
        i = i + 1;
    }
    s
}

impl Expansion {
    /// Render the expansion as source text.  `inclusion_macro` names the
    /// host's compile-time file-inclusion macro, applied to each path of
    /// each generated call.
    pub fn render(&self, inclusion_macro: &str) -> (r: String)
        ensures
            r@ == render_expansion_spec(self.deep_view(), inclusion_macro@),
    {
        let mut s = self.impl_fn.head.clone();
        s.append("fn ");
        s.append(self.impl_fn.sig.ident.as_str());
        s.append("(");
        let ins = render_inputs(&self.impl_fn.sig.inputs);
        s.append(ins.as_str());
        s.append(") ");
        if !self.impl_fn.sig.output.as_str().is_empty() {
            s.append(self.impl_fn.sig.output.as_str());
            s.append(" ");
        }
        s.append(self.impl_fn.block.as_str());
        proof {
            assert(s@ =~= render_item_fn_spec(self.deep_view().impl_fn));
        }
        let mut i: usize = 0;
        while i < self.tests.len()
            invariant
                i <= self.tests.len(),
                s@ == render_expansion_prefix(self.deep_view(), inclusion_macro@, i as int),
            decreases self.tests.len() - i,
        {
            let t = &self.tests[i];
            proof {
                assert(self.deep_view().tests[i as int] == t.deep_view());
            }
            s.append("\n");
            s.append("#[test]\nfn ");
            s.append(t.name.as_str());
            s.append("() ");
            if !t.output.as_str().is_empty() {
                s.append(t.output.as_str());
                s.append(" ");
            }
            s.append("{\n    ");
            s.append(self.impl_fn.sig.ident.as_str());
            s.append("(");
            let ghost base = s@;
            let ghost pathsv = t.paths.deep_view();
            let mut j: usize = 0;
            proof {
                assert(s@ =~= base + render_call_args_prefix(inclusion_macro@, pathsv, 0));
            }
            while j < t.paths.len()
                invariant
                    j <= t.paths.len(),
                    pathsv == t.paths.deep_view(),
                    s@ == base + render_call_args_prefix(inclusion_macro@, pathsv, j as int),
                decreases t.paths.len() - j,
            {
                if j > 0 {
                    s.append(", ");
                }
                s.append("::core::convert::TryFrom::try_from(");
                s.append(inclusion_macro);
                s.append("!(\"");
                let esc = escape_text(t.paths[j].as_str());
                s.append(esc.as_str());
                s.append("\") as &[u8]).unwrap()");
                proof {
                    assert(pathsv[j as int] == t.paths[j as int]@);
                    assert(s@ =~= base + render_call_args_prefix(
                        inclusion_macro@,
                        pathsv,
                        j as int + 1,
                    ));
                }
                j = j + 1;
            }
            s.append(")\n}\n");
            proof {
                assert(s@ =~= render_expansion_prefix(
                    self.deep_view(),
                    inclusion_macro@,
                    i as int + 1,
                ));
            }
            i = i + 1;
        }
        s
    }
}

/// The full output text of one invocation: the rendered expansion on
/// success, a `compile_error!` invocation carrying the diagnostic
/// otherwise.
pub open spec fn test_vectors_spec(
    tokens: Seq<TokenView>,
    func: ItemFnView,
    dir_read: DirReadView,
    root: Option<Seq<char>>,
    mac: Seq<char>,
) -> Seq<char> {
    match test_vectors_result_spec(tokens, func, dir_read, root) {
        Ok(e) => render_expansion_spec(e, mac),
        Err(e) => crate::error::compile_error_text(e),
    }
}

/// Expand one invocation to its output text, substituting a diagnostic for
/// the emission when any stage fails.
pub fn test_vectors(
    tokens: &Vec<Token>,
    func: &ItemFn,
    dir_read: &DirRead,
    root: &Option<String>,
    inclusion_macro: &str,
) -> (r: String)
    requires
        receiver_only_first(func.sig.deep_view().inputs),
    ensures
        r@ == test_vectors_spec(
            tokens.deep_view(),
            func.deep_view(),
            dir_read.deep_view(),
            root.deep_view(),
            inclusion_macro@,
        ),
{
    match test_vectors_result(tokens, func, dir_read, root) {
        Ok(e) => e.render(inclusion_macro),
        Err(e) => e.into_compile_error(),
    }
}

/// Law: a successful expansion over a corpus of `N` cases and a criterion
/// function of arity `K` yields exactly `N` generated tests beside the one
/// renamed original, and each generated test references exactly `K` file
/// paths, `<dir>/<case>/<argname>` in parameter order.
pub proof fn lemma_expansion_shape(
    tokens: Seq<TokenView>,
    func: ItemFnView,
    dir_read: DirReadView,
    root: Option<Seq<char>>,
)
    requires
        test_vectors_result_spec(tokens, func, dir_read, root) is Ok,
    ensures
        ({
            let e = test_vectors_result_spec(tokens, func, dir_read, root)->Ok_0;
            let dir = macro_params_spec(tokens, root)->Ok_0;
            let names = fn_args_spec(func.sig.inputs)->Ok_0.0;
            let cases = list_dir_spec(dir_read)->Ok_0;
            &&& e.impl_fn == renamed_fn_view(func)
            &&& e.tests.len() == cases.len()
            &&& forall|i: int| 0 <= i < cases.len() ==> (#[trigger] e.tests[i]).paths.len()
                == names.len()
            &&& forall|i: int, j: int|
                0 <= i < cases.len() && 0 <= j < names.len() ==> e.tests[i].paths[j]
                    == join_path_spec(join_path_spec(dir, cases[i]), names[j])
            &&& forall|i: int| 0 <= i < cases.len() ==> (#[trigger] e.tests[i]).name
                == func.sig.ident + "_"@ + cases[i]
        }),
{
}

/// Law: over an empty corpus — a directory with no entries at all —
/// expansion succeeds and generates no tests; only the renamed original
/// remains.
pub proof fn lemma_empty_corpus(
    tokens: Seq<TokenView>,
    func: ItemFnView,
    root: Option<Seq<char>>,
)
    requires
        macro_params_spec(tokens, root) is Ok,
        fn_args_spec(func.sig.inputs) is Ok,
    ensures
        ({
            let r = test_vectors_result_spec(
                tokens,
                func,
                DirReadView::Entries(Seq::empty()),
                root,
            );
            &&& r is Ok
            &&& r->Ok_0.tests.len() == 0
            &&& r->Ok_0.impl_fn == renamed_fn_view(func)
        }),
{
}

/// Law: expansion is deterministic — re-running it on an unchanged
/// argument list, criterion function and corpus listing yields the
/// identical output text.
pub proof fn lemma_expansion_deterministic(
    tokens1: Seq<TokenView>,
    func1: ItemFnView,
    dir_read1: DirReadView,
    root1: Option<Seq<char>>,
    mac1: Seq<char>,
    tokens2: Seq<TokenView>,
    func2: ItemFnView,
    dir_read2: DirReadView,
    root2: Option<Seq<char>>,
    mac2: Seq<char>,
)
    requires
        tokens1 == tokens2,
        func1 == func2,
        dir_read1 == dir_read2,
        root1 == root2,
        mac1 == mac2,
    ensures
        test_vectors_spec(tokens1, func1, dir_read1, root1, mac1) == test_vectors_spec(
            tokens2,
            func2,
            dir_read2,
            root2,
            mac2,
        ),
{
}

} // verus!
