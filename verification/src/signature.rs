//! The structured description of the function being bound, as the front
//! end hands it over: identifier, ordered parameters with their ownership
//! kind, return type, and declared lifetime parameters.

use vstd::prelude::*;

verus! {

/// One parameter of the native function. Type descriptors are carried as
/// the source text of the type.
#[derive(Clone, Debug, PartialEq)]
pub enum ParamKind {
    /// A method receiver. Receiver calling conventions are not
    /// representable by the exported entry-point shape, so synthesis
    /// refuses such a parameter.
    SelfParam,
    /// A parameter taken by value: marshalled with a single owned
    /// conversion.
    Value { ty: String },
    /// A parameter taken by reference (any mutability): marshalled with a
    /// two-phase borrowed conversion. `lifetime` is the borrow's lifetime
    /// name, if one was written.
    Reference { ty: String, lifetime: Option<String> },
}

/// Mathematical model of a [`ParamKind`].
pub ghost enum ParamKindView {
    SelfParam,
    Value { ty: Seq<char> },
    Reference { ty: Seq<char>, lifetime: Option<Seq<char>> },
}

impl View for ParamKind {
    type V = ParamKindView;

    open spec fn view(&self) -> ParamKindView {
        match self {
            ParamKind::SelfParam => ParamKindView::SelfParam,
            ParamKind::Value { ty } => ParamKindView::Value { ty: ty@ },
            ParamKind::Reference { ty, lifetime } => ParamKindView::Reference {
                ty: ty@,
                lifetime: match lifetime {
                    Some(l) => Some(l@),
                    None => None,
                },
            },
        }
    }
}

/// The immutable description of the function being bound.
#[derive(Clone, Debug, PartialEq)]
pub struct FunctionSignature {
    /// The native identifier.
    pub ident: String,
    /// The ordered parameters.
    pub params: Vec<ParamKind>,
    /// The declared return type, or `None` when the function returns
    /// nothing.
    pub ret: Option<String>,
    /// The lifetime parameters declared on the function, in order.
    pub lifetimes: Vec<String>,
}

/// Mathematical model of a [`FunctionSignature`].
#[verifier::ext_equal]
pub ghost struct SignatureView {
    pub ident: Seq<char>,
    pub params: Seq<ParamKindView>,
    pub ret: Option<Seq<char>>,
    pub lifetimes: Seq<Seq<char>>,
}

impl View for FunctionSignature {
    type V = SignatureView;

    open spec fn view(&self) -> SignatureView {
        SignatureView {
            ident: self.ident@,
            params: self.params@.map_values(|p: ParamKind| p@),
            ret: match self.ret {
                Some(ref t) => Some(t@),
                None => None,
            },
            lifetimes: self.lifetimes@.map_values(|l: String| l@),
        }
    }
}

/// Whether some parameter is a method receiver.
pub open spec fn has_self(params: Seq<ParamKindView>) -> bool {
    exists|i: int| 0 <= i < params.len() && params[i] is SelfParam
}

/// The annotated declaration, as far as the core needs to see it: either a
/// function with its parsed signature, or some other kind of item, for
/// which no binding can be synthesized.
#[derive(Clone, Debug, PartialEq)]
pub enum SourceItem {
    Function { signature: FunctionSignature },
    Other,
}

/// Mathematical model of a [`SourceItem`].
pub ghost enum SourceItemView {
    Function { signature: SignatureView },
    Other,
}

impl View for SourceItem {
    type V = SourceItemView;

    open spec fn view(&self) -> SourceItemView {
        match self {
            SourceItem::Function { signature } => SourceItemView::Function {
                signature: signature@,
            },
            SourceItem::Other => SourceItemView::Other,
        }
    }
}

} // verus!
