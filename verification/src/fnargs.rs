//! Inspection of the criterion function's signature.
//!
//! Expansion only targets free functions whose parameters are simple bound
//! identifiers: a receiver, or any other binding pattern, fails with a
//! diagnostic naming the unsupported form.  The inspection is purely
//! syntactic — declared types are carried along as source text, never
//! resolved.

use vstd::prelude::*;
use vstd::string::StringExecFns;

verus! {

/// The binding pattern of one parameter: a simple identifier, or some other
/// pattern, carried as its source text for diagnostics.
#[derive(Clone, Debug)]
pub enum Pat {
    Ident(String),
    Other(String),
}

/// The spec-level value of a [`Pat`].
pub enum PatView {
    Ident(Seq<char>),
    Other(Seq<char>),
}

impl DeepView for Pat {
    type V = PatView;

    open spec fn deep_view(&self) -> PatView {
        match self {
            Pat::Ident(s) => PatView::Ident(s@),
            Pat::Other(s) => PatView::Other(s@),
        }
    }
}

/// One parameter of the criterion function: a receiver (`self` in any of
/// its forms, carried as source text), or a binding pattern with the
/// declared type's source text.
#[derive(Clone, Debug)]
pub enum FnArg {
    Receiver(String),
    Typed { pat: Pat, ty: String },
}

/// The spec-level value of a [`FnArg`].
pub enum FnArgView {
    Receiver(Seq<char>),
    Typed { pat: PatView, ty: Seq<char> },
}

impl DeepView for FnArg {
    type V = FnArgView;

    open spec fn deep_view(&self) -> FnArgView {
        match self {
            FnArg::Receiver(s) => FnArgView::Receiver(s@),
            FnArg::Typed { pat, ty } => FnArgView::Typed { pat: pat.deep_view(), ty: ty@ },
        }
    }
}

/// A function signature, reduced to what expansion needs: the name, the
/// parameters in declaration order, and the return type as source text
/// (empty for the default return type).
#[derive(Clone, Debug)]
pub struct Signature {
    pub ident: String,
    pub inputs: Vec<FnArg>,
    pub output: String,
}

/// The spec-level value of a [`Signature`].
pub struct SignatureView {
    pub ident: Seq<char>,
    pub inputs: Seq<FnArgView>,
    pub output: Seq<char>,
}

impl DeepView for Signature {
    type V = SignatureView;

    open spec fn deep_view(&self) -> SignatureView {
        SignatureView {
            ident: self.ident@,
            inputs: self.inputs.deep_view(),
            output: self.output@,
        }
    }
}

/// A parameter list as the host grammar produces it: a receiver can only be
/// declared first.
pub open spec fn receiver_only_first(inputs: Seq<FnArgView>) -> bool {
    forall|i: int| 1 <= i < inputs.len() ==> !(inputs[i] is Receiver)
}

/// Whether one parameter is a simple bound identifier.
pub open spec fn is_simple_param(a: FnArgView) -> bool {
    a matches FnArgView::Typed { pat: PatView::Ident(_), .. }
}

/// The bound name of a simple parameter.
pub open spec fn param_name(a: FnArgView) -> Seq<char> {
    match a {
        FnArgView::Typed { pat: PatView::Ident(n), .. } => n,
        _ => Seq::empty(),
    }
}

/// The declared type text of a non-receiver parameter.
pub open spec fn param_ty(a: FnArgView) -> Seq<char> {
    match a {
        FnArgView::Typed { ty, .. } => ty,
        _ => Seq::empty(),
    }
}

/// The names and declared types of the first `k` parameters, walked left to
/// right, or the diagnostic message for the leftmost unsupported pattern
/// among them.
pub open spec fn args_prefix(inputs: Seq<FnArgView>, k: int) -> Result<
    (Seq<Seq<char>>, Seq<Seq<char>>),
    Seq<char>,
>
    decreases k,
{
    if k <= 0 {
        Ok((Seq::empty(), Seq::empty()))
    } else {
        match args_prefix(inputs, k - 1) {
            Err(m) => Err(m),
            Ok(p) => match inputs[k - 1] {
                FnArgView::Typed { pat: PatView::Ident(n), ty } => Ok((p.0.push(n), p.1.push(ty))),
                FnArgView::Typed { pat: PatView::Other(txt), .. } => Err(
                    "expected arg identifier, found: "@ + txt,
                ),
                FnArgView::Receiver(txt) => Err("expected arg identifier, found: "@ + txt),
            },
        }
    }
}

/// What inspecting a parameter list yields: a receiver fails with the
/// receiver diagnostic; otherwise the parameters are walked left to right
/// and each must be a simple bound identifier.
pub open spec fn fn_args_spec(inputs: Seq<FnArgView>) -> Result<
    (Seq<Seq<char>>, Seq<Seq<char>>),
    Seq<char>,
> {
    if inputs.len() == 0 {
        Ok((Seq::empty(), Seq::empty()))
    } else {
        match inputs[0] {
            FnArgView::Receiver(txt) => Err("test functions may not take receiver: "@ + txt),
            _ => args_prefix(inputs, inputs.len() as int),
        }
    }
}

/// An error among the first `i` parameters decides the whole walk.
proof fn lemma_args_prefix_err(inputs: Seq<FnArgView>, i: int, j: int)
    requires
        0 <= i <= j,
        args_prefix(inputs, i) is Err,
    ensures
        args_prefix(inputs, j) == args_prefix(inputs, i),
    decreases j - i,
{
    if i < j {
        lemma_args_prefix_err(inputs, i, j - 1);
    }
}

/// A prefix of simple identifier parameters is accepted, with the names and
/// types in declaration order.
pub proof fn lemma_args_prefix_ok(inputs: Seq<FnArgView>, k: int)
    requires
        0 <= k <= inputs.len(),
        forall|j: int| 0 <= j < k ==> is_simple_param(#[trigger] inputs[j]),
    ensures
        args_prefix(inputs, k) == Ok::<_, Seq<char>>(
            (
                Seq::new(k as nat, |j: int| param_name(inputs[j])),
                Seq::new(k as nat, |j: int| param_ty(inputs[j])),
            ),
        ),
    decreases k,
{
    if k > 0 {
        lemma_args_prefix_ok(inputs, k - 1);
        assert(Seq::new((k - 1) as nat, |j: int| param_name(inputs[j])).push(
            param_name(inputs[k - 1]),
        ) =~= Seq::new(k as nat, |j: int| param_name(inputs[j])));
        assert(Seq::new((k - 1) as nat, |j: int| param_ty(inputs[j])).push(param_ty(inputs[k - 1]))
            =~= Seq::new(k as nat, |j: int| param_ty(inputs[j])));
        assert(is_simple_param(inputs[k - 1]));
    } else {
        assert(Seq::new(k as nat, |j: int| param_name(inputs[j])) =~= Seq::empty());
        assert(Seq::new(k as nat, |j: int| param_ty(inputs[j])) =~= Seq::empty());
    }
}

/// Law: a parameter list that declares a receiver always fails, with the
/// receiver-specific diagnostic.
pub proof fn lemma_receiver_rejected(inputs: Seq<FnArgView>, txt: Seq<char>)
    requires
        inputs.len() > 0,
        inputs[0] == FnArgView::Receiver(txt),
    ensures
        fn_args_spec(inputs) == Err::<(Seq<Seq<char>>, Seq<Seq<char>>), _>(
            "test functions may not take receiver: "@ + txt,
        ),
{
}

/// Law: a parameter list without a receiver whose leftmost unsupported
/// parameter is a non-identifier pattern always fails, with the
/// pattern-specific diagnostic naming that pattern.
pub proof fn lemma_pattern_rejected(inputs: Seq<FnArgView>, k: int, txt: Seq<char>)
    requires
        0 <= k < inputs.len(),
        !(inputs[0] is Receiver),
        forall|j: int| 0 <= j < k ==> is_simple_param(#[trigger] inputs[j]),
        inputs[k] matches FnArgView::Typed { pat: PatView::Other(t), .. } && t == txt,
    ensures
        fn_args_spec(inputs) == Err::<(Seq<Seq<char>>, Seq<Seq<char>>), _>(
            "expected arg identifier, found: "@ + txt,
        ),
{
    lemma_args_prefix_ok(inputs, k);
    assert(args_prefix(inputs, k + 1) == Err::<(Seq<Seq<char>>, Seq<Seq<char>>), _>(
        "expected arg identifier, found: "@ + txt,
    ));
    lemma_args_prefix_err(inputs, k + 1, inputs.len() as int);
}

/// Law: a parameter list of simple identifier parameters is always
/// accepted, and the returned names preserve declaration order.
pub proof fn lemma_simple_params_accepted(inputs: Seq<FnArgView>)
    requires
        forall|j: int| 0 <= j < inputs.len() ==> is_simple_param(#[trigger] inputs[j]),
    ensures
        fn_args_spec(inputs) == Ok::<_, Seq<char>>(
            (
                Seq::new(inputs.len(), |j: int| param_name(inputs[j])),
                Seq::new(inputs.len(), |j: int| param_ty(inputs[j])),
            ),
        ),
{
    lemma_args_prefix_ok(inputs, inputs.len() as int);
    if inputs.len() == 0 {
        assert(Seq::new(inputs.len(), |j: int| param_name(inputs[j])) =~= Seq::empty());
        assert(Seq::new(inputs.len(), |j: int| param_ty(inputs[j])) =~= Seq::empty());
    }
}

/// Extract the bound identifier and declared type of one non-receiver
/// parameter.
pub fn parse_fn_arg_name(fnarg: &FnArg) -> (r: Result<(String, String), String>)
    requires
        !(fnarg.deep_view() is Receiver),
    ensures
        match r {
            Ok(p) => fnarg.deep_view() == (FnArgView::Typed {
                pat: PatView::Ident(p.0@),
                ty: p.1@,
            }),
            Err(m) => fnarg.deep_view() matches FnArgView::Typed { pat: PatView::Other(txt), .. }
                && m@ == "expected arg identifier, found: "@ + txt,
        },
{
    match fnarg {
        FnArg::Typed { pat, ty } => match pat {
            Pat::Ident(id) => Ok((id.clone(), ty.clone())),
            Pat::Other(txt) => {
                let mut m = String::from_str("expected arg identifier, found: ");
                m.append(txt.as_str());
                Err(m)
            },
        },
        FnArg::Receiver(_) => unreached(),
    }
}

/// Walk the signature's parameters left to right and return the ordered
/// parameter names with their declared types, rejecting a receiver and any
/// parameter that is not a simple bound identifier.
pub fn parse_fn_args(sig: &Signature) -> (r: Result<(Vec<String>, Vec<String>), String>)
    requires
        receiver_only_first(sig.deep_view().inputs),
    ensures
        match r {
            Ok(p) => fn_args_spec(sig.deep_view().inputs) == Ok::<_, Seq<char>>(
                (p.0.deep_view(), p.1.deep_view()),
            ),
            Err(m) => fn_args_spec(sig.deep_view().inputs) == Err::<
                (Seq<Seq<char>>, Seq<Seq<char>>),
                _,
            >(m@),
        },
{
    let n = sig.inputs.len();
    if n > 0 {
        if let FnArg::Receiver(txt) = &sig.inputs[0] {
            let mut m = String::from_str("test functions may not take receiver: ");
            m.append(txt.as_str());
            return Err(m);
        }
    }
    let mut names: Vec<String> = Vec::new();
    let mut tys: Vec<String> = Vec::new();
    let mut i: usize = 0;
    proof {
        assert(names.deep_view() =~= Seq::<Seq<char>>::empty());
        assert(tys.deep_view() =~= Seq::<Seq<char>>::empty());
    }
    while i < n
        invariant
            i <= n,
            n == sig.inputs@.len(),
            receiver_only_first(sig.deep_view().inputs),
            n > 0 ==> !(sig.deep_view().inputs[0] is Receiver),
            args_prefix(sig.deep_view().inputs, i as int) == Ok::<_, Seq<char>>(
                (names.deep_view(), tys.deep_view()),
            ),
        decreases n - i,
    {
        let ghost prev_names = names.deep_view();
        let ghost prev_tys = tys.deep_view();
        let a = &sig.inputs[i];
        proof {
            assert(sig.deep_view().inputs[i as int] == a.deep_view());
        }
        match parse_fn_arg_name(a) {
            Ok(p) => {
                names.push(p.0);
                tys.push(p.1);
                proof {
                    assert(names.deep_view() =~= prev_names.push(
                        names.deep_view()[prev_names.len() as int],
                    ));
                    assert(tys.deep_view() =~= prev_tys.push(
                        tys.deep_view()[prev_tys.len() as int],
                    ));
                }
            },
            Err(m) => {
                proof {
                    lemma_args_prefix_err(sig.deep_view().inputs, i + 1, n as int);
                }
                return Err(m);
            },
        }
        i = i + 1;
    }
    Ok((names, tys))
}

} // verus!
