//! Build-time binding generator for a foreign runtime's native-call
//! convention.
//!
//! Given a structured description of a native function (identifier,
//! parameters, return type, lifetimes) and an options record, the crate
//! derives the exported symbol name under the runtime's name-mangling
//! grammar and synthesizes a binding descriptor: the exported parameter
//! list, the exported return type, and the ordered body steps that marshal
//! each value around a forwarding call to the original function.
//!
//! Parsing source text into [`FunctionSignature`] / [`RawOption`] records
//! and serializing a [`GeneratedBinding`] back into compilable text are the
//! callers' concern; the crate only decides naming and marshalling.

pub mod text;
pub mod error;
pub mod options;
pub mod signature;
pub mod mangle;
pub mod binding;
pub mod synth;

pub use binding::{ArgExpr, BindingParam, BodyStep, GeneratedBinding, JvmType};
pub use synth::{synthesize, synthesize_all, synthesize_item, BindingRequest};
pub use error::GenError;
pub use mangle::{escape_underscores, mangle, mangle_with_package};
pub use options::{BindingOptions, OptionsView, RawOption, RawOptionView};
pub use signature::{FunctionSignature, ParamKind, SourceItem};
pub use text::str_chars;
