//! The binding synthesizer: turns a function signature and an options
//! record into a [`GeneratedBinding`], applying the per-parameter and
//! per-return marshalling policy, and refuses method receivers. Batch
//! synthesis additionally refuses two requests whose exported symbol
//! names collide, since the naming grammar carries no parameter-signature
//! suffix to tell them apart.

use vstd::prelude::*;
use crate::binding::{
    arg_expr, arg_name_spec, binding_params, body_steps, call_args, class_param, conv_step,
    conv_steps, env_param, is_conversion_for, param_jvm_type, ret_steps, spec_binding,
    ArgExpr, ArgExprView, BindingParam, BindingParamView, BindingView, BodyStep, BodyStepView,
    GeneratedBinding, JvmType,
};
use crate::error::GenError;
use crate::mangle::mangle;
use crate::options::{options_from_raw, no_options, BindingOptions, OptionsView, RawOption,
    raw_seq_view};
use crate::signature::{
    has_self, FunctionSignature, ParamKind, ParamKindView, SignatureView, SourceItem,
    SourceItemView,
};
use crate::text::{chars_to_string, push_decimal};

verus! {

/// What synthesis yields for `sig` under `opts`: the binding, unless some
/// parameter is a method receiver.
pub open spec fn spec_synthesize(sig: SignatureView, opts: OptionsView) -> Result<
    BindingView,
    GenError,
> {
    if has_self(sig.params) {
        Err(GenError::UnsupportedSelfParameter)
    } else {
        Ok(spec_binding(sig, opts))
    }
}

/// What synthesis yields for a whole annotated item with its raw option
/// entries: the options are closed first, then a non-function item is
/// refused, then the signature is synthesized.
pub open spec fn spec_synthesize_item(item: SourceItemView, raw: Seq<
    crate::options::RawOptionView,
>) -> Result<BindingView, GenError> {
    match options_from_raw(raw, no_options()) {
        Err(e) => Err(e),
        Ok(opts) => match item {
            SourceItemView::Other => Err(GenError::UnsupportedInputShape),
            SourceItemView::Function { signature } => spec_synthesize(signature, opts),
        },
    }
}

/// The synthetic name for the mapped parameter at position `i`.
fn arg_name(i: usize) -> (r: String)
    ensures
        r@ == arg_name_spec(i as nat),
{
    let mut v: Vec<char> = Vec::new();
    v.push('a');
    v.push('r');
    v.push('g');
    v.push('_');
    proof {
        assert(v@ =~= seq!['a', 'r', 'g', '_']);
    }
    push_decimal(&mut v, i);
    chars_to_string(&v)
}

/// Synthesizes the binding for `sig` under `opts`.
///
/// Succeeds exactly when no parameter is a method receiver; the result is
/// then the binding [`spec_binding`] describes: the mangled exported name,
/// the environment and class handles prepended ahead of one mapped
/// parameter per original parameter, the exported return type, and the
/// ordered body steps. A method receiver is refused as
/// `UnsupportedSelfParameter`, with no partial output.
pub fn synthesize(sig: &FunctionSignature, opts: &BindingOptions) -> (r: Result<
    GeneratedBinding,
    GenError,
>)
    ensures
        r is Ok <==> !has_self(sig@.params),
        r matches Ok(b) ==> b@ == spec_binding(sig@, opts@),
        r matches Err(e) ==> e == GenError::UnsupportedSelfParameter,
{
    let name = mangle(sig.ident.as_str(), opts);
    let mut params: Vec<BindingParam> = Vec::new();
    proof {
        reveal_strlit("env");
        reveal_strlit("class");
        assert("env"@ =~= env_param().name);
        assert("class"@ =~= class_param().name);
    }
    params.push(BindingParam { name: "env".to_owned(), ty: JvmType::Env });
    params.push(BindingParam { name: "class".to_owned(), ty: JvmType::Class });
    let mut body: Vec<BodyStep> = Vec::new();
    let mut args: Vec<ArgExpr> = Vec::new();
    let n: usize = sig.params.len();
    let mut i: usize = 0;
    proof {
        assert(params@.map_values(|p: BindingParam| p@) =~= seq![env_param(), class_param()]
            + Seq::new(0, |j: int| mapped_param(sig@.params, j)));
    }
    while i < n
        invariant
            n == sig.params@.len(),
            i <= n,
            forall|j: int| 0 <= j < i ==> !(sig@.params[j] is SelfParam),
            params@.map_values(|p: BindingParam| p@) == seq![env_param(), class_param()]
                + Seq::new(i as nat, |j: int| mapped_param(sig@.params, j)),
            body@.map_values(|s: BodyStep| s@) == Seq::new(
                i as nat,
                |j: int| conv_step(j as nat, sig@.params[j]),
            ),
            args@.map_values(|a: ArgExpr| a@) == Seq::new(
                i as nat,
                |j: int| arg_expr(j as nat, sig@.params[j]),
            ),
        decreases n - i,
    {
        let ghost prev_params = params@.map_values(|p: BindingParam| p@);
        let ghost prev_body = body@.map_values(|s: BodyStep| s@);
        let ghost prev_args = args@.map_values(|a: ArgExpr| a@);
        match &sig.params[i] {
            ParamKind::SelfParam => {
                proof {
                    assert(sig@.params[i as int] is SelfParam);
                }
                return Err(GenError::UnsupportedSelfParameter);
            },
            ParamKind::Value { ty } => {
                params.push(
                    BindingParam { name: arg_name(i), ty: JvmType::FromValue { ty: ty.clone() } },
                );
                body.push(BodyStep::ConvertOwned { index: i, ty: ty.clone() });
                args.push(ArgExpr::ByValue { index: i });
            },
            ParamKind::Reference { ty, .. } => {
                params.push(
                    BindingParam { name: arg_name(i), ty: JvmType::BorrowValue { ty: ty.clone() } },
                );
                body.push(BodyStep::ConvertToTemp { index: i, ty: ty.clone() });
                args.push(ArgExpr::BorrowedView { index: i, ty: ty.clone() });
            },
        }
        proof {
            assert(sig@.params[i as int] == sig.params@[i as int]@);
            assert(params@.map_values(|p: BindingParam| p@) =~= prev_params.push(
                mapped_param(sig@.params, i as int),
            ));
            assert(body@.map_values(|s: BodyStep| s@) =~= prev_body.push(
                conv_step(i as nat, sig@.params[i as int]),
            ));
            assert(args@.map_values(|a: ArgExpr| a@) =~= prev_args.push(
                arg_expr(i as nat, sig@.params[i as int]),
            ));
            assert(prev_params.push(mapped_param(sig@.params, i as int)) =~= seq![
                env_param(),
                class_param(),
            ] + Seq::new((i + 1) as nat, |j: int| mapped_param(sig@.params, j)));
            assert(prev_body.push(conv_step(i as nat, sig@.params[i as int])) =~= Seq::new(
                (i + 1) as nat,
                |j: int| conv_step(j as nat, sig@.params[j]),
            ));
            assert(prev_args.push(arg_expr(i as nat, sig@.params[i as int])) =~= Seq::new(
                (i + 1) as nat,
                |j: int| arg_expr(j as nat, sig@.params[j]),
            ));
        }
        i = i + 1;
    }
    proof {
        assert(!has_self(sig@.params));
        assert(params@.map_values(|p: BindingParam| p@) =~= binding_params(sig@.params));
        assert(args@.map_values(|a: ArgExpr| a@) =~= call_args(sig@.params));
    }
    let ghost convs = body@.map_values(|s: BodyStep| s@);
    let func = sig.ident.clone();
    body.push(BodyStep::Call { func, args });
    let ret: JvmType = match &sig.ret {
        None => JvmType::Unit,
        Some(t) => {
            body.push(BodyStep::ConvertReturn { ty: t.clone() });
            JvmType::IntoValue { ty: t.clone() }
        },
    };
    proof {
        assert(convs =~= conv_steps(sig@.params));
        assert(body@.map_values(|s: BodyStep| s@) =~= body_steps(sig@));
    }
    let lifetimes = sig.lifetimes.clone();
    proof {
        assert(lifetimes@ =~= sig.lifetimes@);
    }
    let b = GeneratedBinding { name, lifetimes, params, ret, body };
    proof {
        assert(b@ =~= spec_binding(sig@, opts@));
    }
    Ok(b)
}

/// The per-position entry of the mapped parameter list.
pub open spec fn mapped_param(params: Seq<ParamKindView>, i: int) -> BindingParamView {
    BindingParamView { name: arg_name_spec(i as nat), ty: param_jvm_type(params[i]) }
}

/// Synthesizes the binding for one annotated item with its raw option
/// entries: closes the options record, refuses a non-function item as
/// `UnsupportedInputShape`, and otherwise synthesizes the signature.
pub fn synthesize_item(item: &SourceItem, raw: &Vec<RawOption>) -> (r: Result<
    GeneratedBinding,
    GenError,
>)
    ensures
        r is Ok <==> spec_synthesize_item(item@, raw_seq_view(raw@)) is Ok,
        r matches Ok(b) ==> spec_synthesize_item(item@, raw_seq_view(raw@)) == Ok::<
            BindingView,
            GenError,
        >(b@),
        r matches Err(e) ==> spec_synthesize_item(item@, raw_seq_view(raw@)) == Err::<
            BindingView,
            GenError,
        >(e),
{
    let opts = match BindingOptions::from_raw(raw) {
        Err(e) => {
            return Err(e);
        },
        Ok(o) => o,
    };
    match item {
        SourceItem::Other => Err(GenError::UnsupportedInputShape),
        SourceItem::Function { signature } => synthesize(signature, &opts),
    }
}

/// One entry of a batch synthesis: a signature with its options.
#[derive(Clone, Debug, PartialEq)]
pub struct BindingRequest {
    pub signature: FunctionSignature,
    pub options: BindingOptions,
}

/// Mathematical model of a [`BindingRequest`].
pub ghost struct RequestView {
    pub signature: SignatureView,
    pub options: OptionsView,
}

impl View for BindingRequest {
    type V = RequestView;

    open spec fn view(&self) -> RequestView {
        RequestView { signature: self.signature@, options: self.options@ }
    }
}

/// The views of a sequence of requests.
pub open spec fn request_seq_view(reqs: Seq<BindingRequest>) -> Seq<RequestView> {
    reqs.map_values(|r: BindingRequest| r@)
}

/// Whether some earlier binding already exports the same symbol name.
pub open spec fn name_clashes(done: Seq<BindingView>, name: Seq<char>) -> bool {
    exists|k: int| 0 <= k < done.len() && done[k].name == name
}

/// What batch synthesis yields: the bindings of `reqs` in order appended
/// to `done`, unless a request fails or its exported symbol name repeats
/// one already produced, which is refused as `NamingCollision` (the
/// naming grammar carries no parameter-signature suffix, so distinct
/// signatures can collide).
pub open spec fn spec_synthesize_all(reqs: Seq<RequestView>, done: Seq<BindingView>) -> Result<
    Seq<BindingView>,
    GenError,
>
    decreases reqs.len(),
{
    if reqs.len() == 0 {
        Ok(done)
    } else {
        match spec_synthesize(reqs[0].signature, reqs[0].options) {
            Err(e) => Err(e),
            Ok(b) => if name_clashes(done, b.name) {
                Err(GenError::NamingCollision)
            } else {
                spec_synthesize_all(reqs.drop_first(), done.push(b))
            },
        }
    }
}

/// Synthesizes the bindings of all requests, in order, refusing the batch
/// when one request fails or when two requests mangle to the same
/// exported symbol name.
pub fn synthesize_all(reqs: &Vec<BindingRequest>) -> (r: Result<Vec<GeneratedBinding>, GenError>)
    ensures
        r is Ok <==> spec_synthesize_all(request_seq_view(reqs@), Seq::empty()) is Ok,
        r matches Ok(v) ==> spec_synthesize_all(request_seq_view(reqs@), Seq::empty()) == Ok::<
            Seq<BindingView>,
            GenError,
        >(v@.map_values(|b: GeneratedBinding| b@)),
        r matches Err(e) ==> spec_synthesize_all(request_seq_view(reqs@), Seq::empty()) == Err::<
            Seq<BindingView>,
            GenError,
        >(e),
{
    let mut done: Vec<GeneratedBinding> = Vec::new();
    let mut i: usize = 0;
    proof {
        assert(reqs@.skip(0) =~= reqs@);
        assert(done@.map_values(|b: GeneratedBinding| b@) =~= Seq::<BindingView>::empty());
    }
    while i < reqs.len()
        invariant
            i <= reqs@.len(),
            spec_synthesize_all(request_seq_view(reqs@), Seq::empty())
                == spec_synthesize_all(
                request_seq_view(reqs@.skip(i as int)),
                done@.map_values(|b: GeneratedBinding| b@),
            ),
        decreases reqs@.len() - i,
    {
        proof {
            assert(request_seq_view(reqs@.skip(i as int))[0] == reqs@[i as int]@);
            assert(request_seq_view(reqs@.skip(i as int)).drop_first() =~= request_seq_view(
                reqs@.skip(i + 1),
            ));
        }
        let req = &reqs[i];
        let b = match synthesize(&req.signature, &req.options) {
            Err(e) => {
                return Err(e);
            },
            Ok(b) => b,
        };
        let mut k: usize = 0;
        while k < done.len()
            invariant
                k <= done@.len(),
                i < reqs@.len(),
                spec_synthesize_all(request_seq_view(reqs@), Seq::empty())
                    == spec_synthesize_all(
                    request_seq_view(reqs@.skip(i as int)),
                    done@.map_values(|g: GeneratedBinding| g@),
                ),
                !has_self(reqs@[i as int]@.signature.params),
                b@ == spec_binding(reqs@[i as int]@.signature, reqs@[i as int]@.options),
                forall|m: int| 0 <= m < k ==> (#[trigger] done@[m])@.name != b@.name,
            decreases done@.len() - k,
        {
            if done[k].name.eq(&b.name) {
                proof {
                    let dv = done@.map_values(|g: GeneratedBinding| g@);
                    let rv = request_seq_view(reqs@.skip(i as int));
                    assert(dv[k as int].name == b@.name);
                    assert(name_clashes(dv, b@.name));
                    assert(spec_synthesize(rv[0].signature, rv[0].options) == Ok::<
                        BindingView,
                        GenError,
                    >(b@));
                }
                return Err(GenError::NamingCollision);
            }
            k = k + 1;
        }
        let ghost prev_done = done@.map_values(|b: GeneratedBinding| b@);
        proof {
            assert(forall|m: int| 0 <= m < prev_done.len() ==> #[trigger] prev_done[m]
                == done@[m]@);
            assert(!name_clashes(prev_done, b@.name));
        }
        done.push(b);
        proof {
            assert(done@.map_values(|b: GeneratedBinding| b@) =~= prev_done.push(b@));
        }
        i = i + 1;
    }
    proof {
        assert(request_seq_view(reqs@.skip(reqs@.len() as int)) =~= Seq::<RequestView>::empty());
    }
    Ok(done)
}

/// Law: a parameter taken by reference is marshalled in exactly two
/// phases. The body's conversion statement for its position converts the
/// raw foreign value into an owned temporary, no other body step is a
/// conversion for that position, and the forwarding call passes the
/// borrowed view of the temporary, not the temporary itself.
pub proof fn lemma_reference_param_two_phase(sig: SignatureView, opts: OptionsView, i: int)
    requires
        !has_self(sig.params),
        0 <= i < sig.params.len(),
        (sig.params[i] is Reference),
    ensures
        spec_binding(sig, opts).body[i] == (BodyStepView::ConvertToTemp {
            index: i as nat,
            ty: sig.params[i]->Reference_ty,
        }),
        forall|j: int|
            0 <= j < spec_binding(sig, opts).body.len() && j != i ==> !is_conversion_for(
                #[trigger] spec_binding(sig, opts).body[j],
                i as nat,
            ),
        spec_binding(sig, opts).body[sig.params.len() as int] == (BodyStepView::Call {
            func: sig.ident,
            args: call_args(sig.params),
        }),
        call_args(sig.params)[i] == (ArgExprView::BorrowedView {
            index: i as nat,
            ty: sig.params[i]->Reference_ty,
        }),
{
    let b = spec_binding(sig, opts);
    let n: int = sig.params.len() as int;
    assert(b.body[i] == conv_steps(sig.params)[i]);
    assert forall|j: int| 0 <= j < b.body.len() && j != i implies !is_conversion_for(
        #[trigger] b.body[j],
        i as nat,
    ) by {
        if j < n {
            assert(b.body[j] == conv_step(j as nat, sig.params[j]));
            assert(!(sig.params[j] is SelfParam));
        } else if j == n {
            assert(b.body[j] == (BodyStepView::Call { func: sig.ident, args: call_args(
                sig.params,
            ) }));
        } else {
            assert(b.body[j] == ret_steps(sig.ret)[j - n - 1]);
        }
    }
}

/// Law: for a signature with no method receiver, synthesis succeeds and
/// the exported parameter list holds the environment handle, the class
/// handle, and one mapped parameter per original parameter, in order.
pub proof fn lemma_no_self_succeeds(sig: SignatureView, opts: OptionsView)
    requires
        !has_self(sig.params),
    ensures
        spec_synthesize(sig, opts) is Ok,
        spec_synthesize(sig, opts)->Ok_0.params.len() == 2 + sig.params.len(),
        spec_synthesize(sig, opts)->Ok_0.params[0] == env_param(),
        spec_synthesize(sig, opts)->Ok_0.params[1] == class_param(),
        forall|i: int|
            0 <= i < sig.params.len() ==> #[trigger] spec_synthesize(sig, opts)->Ok_0.params[2
                + i] == mapped_param(sig.params, i),
{
}

/// Law: a signature with a method receiver is refused as
/// `UnsupportedSelfParameter`; the result carries no binding at all.
pub proof fn lemma_self_param_rejected(sig: SignatureView, opts: OptionsView)
    requires
        has_self(sig.params),
    ensures
        spec_synthesize(sig, opts) == Err::<BindingView, GenError>(
            GenError::UnsupportedSelfParameter,
        ),
{
}

/// Law: synthesis is deterministic. Any two calls of [`synthesize`] on
/// structurally identical inputs return structurally identical results —
/// there is no hidden state.
pub proof fn lemma_synthesize_deterministic(
    sig1: &FunctionSignature,
    opts1: &BindingOptions,
    sig2: &FunctionSignature,
    opts2: &BindingOptions,
    r1: Result<GeneratedBinding, GenError>,
    r2: Result<GeneratedBinding, GenError>,
)
    requires
        sig1@ == sig2@,
        opts1@ == opts2@,
        call_ensures(synthesize, (sig1, opts1), r1),
        call_ensures(synthesize, (sig2, opts2), r2),
    ensures
        r1 is Ok <==> r2 is Ok,
        r1 matches Ok(b1) ==> r2 matches Ok(b2) && b1@ == b2@,
        r1 matches Err(e1) ==> r2 matches Err(e2) && e1 == e2,
{
}

} // verus!

