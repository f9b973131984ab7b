//! The synthesis output: the exported symbol name, the exported parameter
//! list and return type, and the ordered body steps that marshal values
//! around the forwarding call. This module also gives the spec-level
//! construction of each part, which `synthesize` is proved to follow.

use vstd::prelude::*;
use crate::mangle::{default_package, mangle_spec};
use crate::options::OptionsView;
use crate::signature::{ParamKindView, SignatureView};
use crate::text::dec_spec;

verus! {

/// A foreign-value type expression standing in the exported signature.
#[derive(Clone, Debug, PartialEq)]
pub enum JvmType {
    /// The runtime's environment handle, always the first exported
    /// parameter.
    Env,
    /// The runtime's class/context handle, always the second exported
    /// parameter.
    Class,
    /// The conventional "no value" return marker.
    Unit,
    /// The foreign-value type of the single owned conversion of `ty`.
    FromValue { ty: String },
    /// The foreign-value type of the borrow-capable projection of `ty`.
    BorrowValue { ty: String },
    /// The foreign-value type of the into-foreign conversion of `ty`,
    /// used in return position.
    IntoValue { ty: String },
}

/// Mathematical model of a [`JvmType`].
pub ghost enum JvmTypeView {
    Env,
    Class,
    Unit,
    FromValue { ty: Seq<char> },
    BorrowValue { ty: Seq<char> },
    IntoValue { ty: Seq<char> },
}

impl View for JvmType {
    type V = JvmTypeView;

    open spec fn view(&self) -> JvmTypeView {
        match self {
            JvmType::Env => JvmTypeView::Env,
            JvmType::Class => JvmTypeView::Class,
            JvmType::Unit => JvmTypeView::Unit,
            JvmType::FromValue { ty } => JvmTypeView::FromValue { ty: ty@ },
            JvmType::BorrowValue { ty } => JvmTypeView::BorrowValue { ty: ty@ },
            JvmType::IntoValue { ty } => JvmTypeView::IntoValue { ty: ty@ },
        }
    }
}

/// One entry of the exported parameter list.
#[derive(Clone, Debug, PartialEq)]
pub struct BindingParam {
    pub name: String,
    pub ty: JvmType,
}

/// Mathematical model of a [`BindingParam`].
pub ghost struct BindingParamView {
    pub name: Seq<char>,
    pub ty: JvmTypeView,
}

impl View for BindingParam {
    type V = BindingParamView;

    open spec fn view(&self) -> BindingParamView {
        BindingParamView { name: self.name@, ty: self.ty@ }
    }
}

/// How one synthetic argument is passed in the forwarding call.
#[derive(Clone, Debug, PartialEq)]
pub enum ArgExpr {
    /// The converted owned value is passed directly.
    ByValue { index: usize },
    /// A borrowed view of the owned temporary for position `index` is
    /// taken at call time and passed instead of the temporary itself.
    BorrowedView { index: usize, ty: String },
}

/// Mathematical model of an [`ArgExpr`].
pub ghost enum ArgExprView {
    ByValue { index: nat },
    BorrowedView { index: nat, ty: Seq<char> },
}

impl View for ArgExpr {
    type V = ArgExprView;

    open spec fn view(&self) -> ArgExprView {
        match self {
            ArgExpr::ByValue { index } => ArgExprView::ByValue { index: *index as nat },
            ArgExpr::BorrowedView { index, ty } => ArgExprView::BorrowedView {
                index: *index as nat,
                ty: ty@,
            },
        }
    }
}

/// One step of the generated body.
#[derive(Clone, Debug, PartialEq)]
pub enum BodyStep {
    /// Converts the raw foreign value at `index` directly into the owned
    /// native type `ty`, bound to the synthetic name for `index`.
    ConvertOwned { index: usize, ty: String },
    /// Converts the raw foreign value at `index` into an owned temporary
    /// of `ty`, appropriate for later borrowing, bound to the synthetic
    /// name for `index`.
    ConvertToTemp { index: usize, ty: String },
    /// Invokes the original function with the synthetic arguments, in
    /// original order, threading the environment handle.
    Call { func: String, args: Vec<ArgExpr> },
    /// Wraps the forwarding call's result in the into-foreign conversion
    /// of `ty`.
    ConvertReturn { ty: String },
}

/// Mathematical model of a [`BodyStep`].
pub ghost enum BodyStepView {
    ConvertOwned { index: nat, ty: Seq<char> },
    ConvertToTemp { index: nat, ty: Seq<char> },
    Call { func: Seq<char>, args: Seq<ArgExprView> },
    ConvertReturn { ty: Seq<char> },
}

impl View for BodyStep {
    type V = BodyStepView;

    open spec fn view(&self) -> BodyStepView {
        match self {
            BodyStep::ConvertOwned { index, ty } => BodyStepView::ConvertOwned {
                index: *index as nat,
                ty: ty@,
            },
            BodyStep::ConvertToTemp { index, ty } => BodyStepView::ConvertToTemp {
                index: *index as nat,
                ty: ty@,
            },
            BodyStep::Call { func, args } => BodyStepView::Call {
                func: func@,
                args: args@.map_values(|a: ArgExpr| a@),
            },
            BodyStep::ConvertReturn { ty } => BodyStepView::ConvertReturn { ty: ty@ },
        }
    }
}

/// The synthesized binding descriptor.
#[derive(Clone, Debug, PartialEq)]
pub struct GeneratedBinding {
    /// The exported symbol name.
    pub name: String,
    /// The original function's lifetime parameters, propagated unchanged
    /// (they follow the synthesized environment lifetime).
    pub lifetimes: Vec<String>,
    /// The exported parameter list: environment handle, class handle, then
    /// one entry per original parameter, in order.
    pub params: Vec<BindingParam>,
    /// The exported return type.
    pub ret: JvmType,
    /// The ordered body: one conversion step per parameter, the forwarding
    /// call, then the return conversion if a return type is declared.
    pub body: Vec<BodyStep>,
}

/// Mathematical model of a [`GeneratedBinding`].
#[verifier::ext_equal]
pub ghost struct BindingView {
    pub name: Seq<char>,
    pub lifetimes: Seq<Seq<char>>,
    pub params: Seq<BindingParamView>,
    pub ret: JvmTypeView,
    pub body: Seq<BodyStepView>,
}

impl View for GeneratedBinding {
    type V = BindingView;

    open spec fn view(&self) -> BindingView {
        BindingView {
            name: self.name@,
            lifetimes: self.lifetimes@.map_values(|l: String| l@),
            params: self.params@.map_values(|p: BindingParam| p@),
            ret: self.ret@,
            body: self.body@.map_values(|s: BodyStep| s@),
        }
    }
}

/// The synthetic name for the mapped parameter at position `i`:
/// `arg_<i>`.
pub open spec fn arg_name_spec(i: nat) -> Seq<char> {
    seq!['a', 'r', 'g', '_'] + dec_spec(i)
}

/// The environment-handle entry prepended to every exported parameter
/// list.
pub open spec fn env_param() -> BindingParamView {
    BindingParamView { name: seq!['e', 'n', 'v'], ty: JvmTypeView::Env }
}

/// The class-handle entry prepended after the environment handle.
pub open spec fn class_param() -> BindingParamView {
    BindingParamView { name: seq!['c', 'l', 'a', 's', 's'], ty: JvmTypeView::Class }
}

/// The exported type of one mapped parameter: the borrow-capable
/// projection for a reference, the owned projection otherwise.
pub open spec fn param_jvm_type(p: ParamKindView) -> JvmTypeView {
    match p {
        ParamKindView::Reference { ty, .. } => JvmTypeView::BorrowValue { ty },
        ParamKindView::Value { ty } => JvmTypeView::FromValue { ty },
        // synthesis refuses receivers, so no exported type arises for one
        ParamKindView::SelfParam => arbitrary(),
    }
}

/// The conversion statement for the parameter at position `i`.
pub open spec fn conv_step(i: nat, p: ParamKindView) -> BodyStepView {
    match p {
        ParamKindView::Reference { ty, .. } => BodyStepView::ConvertToTemp { index: i, ty },
        ParamKindView::Value { ty } => BodyStepView::ConvertOwned { index: i, ty },
        // synthesis refuses receivers, so no conversion arises for one
        ParamKindView::SelfParam => arbitrary(),
    }
}

/// How the argument at position `i` is passed in the forwarding call.
pub open spec fn arg_expr(i: nat, p: ParamKindView) -> ArgExprView {
    match p {
        ParamKindView::Reference { ty, .. } => ArgExprView::BorrowedView { index: i, ty },
        _ => ArgExprView::ByValue { index: i },
    }
}

/// The full exported parameter list: environment handle, class handle,
/// then the mapped parameters in original order.
pub open spec fn binding_params(params: Seq<ParamKindView>) -> Seq<BindingParamView> {
    seq![env_param(), class_param()] + Seq::new(
        params.len(),
        |i: int| BindingParamView { name: arg_name_spec(i as nat), ty: param_jvm_type(params[i]) },
    )
}

/// Distinct positions get distinct synthetic names.
pub proof fn lemma_arg_names_injective(i: nat, j: nat)
    requires
        arg_name_spec(i) == arg_name_spec(j),
    ensures
        i == j,
{
    assert(dec_spec(i) =~= arg_name_spec(i).subrange(4, arg_name_spec(i).len() as int));
    assert(dec_spec(j) =~= arg_name_spec(j).subrange(4, arg_name_spec(j).len() as int));
    crate::text::lemma_dec_injective(i, j);
}

/// Law: synthetic parameter names are positionally generated, so the
/// exported parameter list never holds the same name twice.
pub proof fn lemma_param_names_unique(params: Seq<ParamKindView>)
    ensures
        forall|i: int, j: int|
            0 <= i < j < binding_params(params).len() ==> #[trigger] binding_params(
                params,
            )[i].name != #[trigger] binding_params(params)[j].name,
{
    let ps = binding_params(params);
    assert forall|i: int, j: int| 0 <= i < j < ps.len() implies #[trigger] ps[i].name
        != #[trigger] ps[j].name by {
        crate::text::lemma_dec_nonempty((i - 2) as nat);
        crate::text::lemma_dec_nonempty((j - 2) as nat);
        if j >= 2 {
            assert(ps[j].name == arg_name_spec((j - 2) as nat));
            assert(ps[j].name[0] == 'a');
        }
        if i == 0 {
            assert(ps[i].name == env_param().name);
            if j == 1 {
                assert(ps[j].name == class_param().name);
                assert(ps[i].name.len() != ps[j].name.len());
            } else {
                assert(ps[i].name[0] == 'e');
            }
        } else if i == 1 {
            assert(ps[i].name == class_param().name);
            assert(ps[i].name[0] == 'c');
        } else {
            assert(ps[i].name == arg_name_spec((i - 2) as nat));
            if ps[i].name == ps[j].name {
                lemma_arg_names_injective((i - 2) as nat, (j - 2) as nat);
                assert(false);
            }
        }
    }
}

/// The exported return type: the "no value" marker when no return type is
/// declared, else the into-foreign projection of the declared type.
pub open spec fn ret_type(ret: Option<Seq<char>>) -> JvmTypeView {
    match ret {
        None => JvmTypeView::Unit,
        Some(t) => JvmTypeView::IntoValue { ty: t },
    }
}

/// The conversion statements, one per parameter, in original order.
pub open spec fn conv_steps(params: Seq<ParamKindView>) -> Seq<BodyStepView> {
    Seq::new(params.len(), |i: int| conv_step(i as nat, params[i]))
}

/// The forwarding call's arguments, in original order.
pub open spec fn call_args(params: Seq<ParamKindView>) -> Seq<ArgExprView> {
    Seq::new(params.len(), |i: int| arg_expr(i as nat, params[i]))
}

/// The return conversion steps: none without a declared return type.
pub open spec fn ret_steps(ret: Option<Seq<char>>) -> Seq<BodyStepView> {
    match ret {
        None => Seq::empty(),
        Some(t) => seq![BodyStepView::ConvertReturn { ty: t }],
    }
}

/// Whether a body step is a conversion statement for the parameter at
/// position `i`.
pub open spec fn is_conversion_for(s: BodyStepView, i: nat) -> bool {
    match s {
        BodyStepView::ConvertOwned { index, .. } => index == i,
        BodyStepView::ConvertToTemp { index, .. } => index == i,
        _ => false,
    }
}

/// The full ordered body: parameter conversions, the forwarding call, then
/// the return conversion if any.
pub open spec fn body_steps(sig: SignatureView) -> Seq<BodyStepView> {
    conv_steps(sig.params) + seq![
        BodyStepView::Call { func: sig.ident, args: call_args(sig.params) },
    ] + ret_steps(sig.ret)
}

/// The binding synthesized for `sig` under `opts`: a pure function of the
/// two, defined only when no parameter is a method receiver.
pub open spec fn spec_binding(sig: SignatureView, opts: OptionsView) -> BindingView {
    BindingView {
        name: mangle_spec(default_package(), sig.ident, opts),
        lifetimes: sig.lifetimes,
        params: binding_params(sig.params),
        ret: ret_type(sig.ret),
        body: body_steps(sig),
    }
}

} // verus!
