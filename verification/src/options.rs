//! The options record: the closed set of overrides a caller may supply,
//! and its construction from the open key/value list the front end hands
//! over.

use vstd::prelude::*;
use crate::error::GenError;
use crate::text::str_eq;

verus! {

/// One raw key/value entry as the front end parsed it. `value` is `None`
/// when the entry's value was not a string literal.
#[derive(Clone, Debug, PartialEq)]
pub struct RawOption {
    pub key: String,
    pub value: Option<String>,
}

/// Mathematical model of a [`RawOption`].
pub ghost struct RawOptionView {
    pub key: Seq<char>,
    pub value: Option<Seq<char>>,
}

impl View for RawOption {
    type V = RawOptionView;

    open spec fn view(&self) -> RawOptionView {
        RawOptionView {
            key: self.key@,
            value: match self.value {
                Some(ref v) => Some(v@),
                None => None,
            },
        }
    }
}

/// The overrides a caller may supply. An unset `class` makes the mangler
/// derive a default class from the function's own identifier; an unset
/// `name` makes it use the identifier verbatim.
#[derive(Clone, Debug, PartialEq)]
pub struct BindingOptions {
    /// Fully-qualified foreign class name, dot-separated.
    pub class: Option<String>,
    /// Override for the exported method's simple name.
    pub name: Option<String>,
}

/// Mathematical model of a [`BindingOptions`].
pub ghost struct OptionsView {
    pub class: Option<Seq<char>>,
    pub name: Option<Seq<char>>,
}

impl View for BindingOptions {
    type V = OptionsView;

    open spec fn view(&self) -> OptionsView {
        OptionsView {
            class: match self.class {
                Some(ref v) => Some(v@),
                None => None,
            },
            name: match self.name {
                Some(ref v) => Some(v@),
                None => None,
            },
        }
    }
}

/// The record with both overrides unset.
pub open spec fn no_options() -> OptionsView {
    OptionsView { class: None, name: None }
}

/// An entry is interpretable when its key is `class` or `name` and its
/// value parsed as a string literal.
pub open spec fn raw_interpretable(o: RawOptionView) -> bool {
    (o.key == "class"@ || o.key == "name"@) && o.value is Some
}

/// The record `acc` updated by one interpretable entry; a later entry for
/// the same key overrides an earlier one.
pub open spec fn apply_raw_option(acc: OptionsView, o: RawOptionView) -> OptionsView {
    if o.key == "class"@ {
        OptionsView { class: o.value, name: acc.name }
    } else {
        OptionsView { class: acc.class, name: o.value }
    }
}

/// Folds the raw entries in order into `acc`; the first entry that cannot
/// be interpreted aborts with `MalformedOptions`.
pub open spec fn options_from_raw(raw: Seq<RawOptionView>, acc: OptionsView) -> Result<
    OptionsView,
    GenError,
>
    decreases raw.len(),
{
    if raw.len() == 0 {
        Ok(acc)
    } else if !raw_interpretable(raw[0]) {
        Err(GenError::MalformedOptions)
    } else {
        options_from_raw(raw.drop_first(), apply_raw_option(acc, raw[0]))
    }
}

/// The views of a sequence of raw entries.
pub open spec fn raw_seq_view(raw: Seq<RawOption>) -> Seq<RawOptionView> {
    raw.map_values(|o: RawOption| o@)
}

impl BindingOptions {
    /// Closes the open key/value list into the fixed record: `class` and
    /// `name` entries (each with a string-literal value) are taken, a later
    /// entry overriding an earlier one; any other entry is refused as
    /// `MalformedOptions` rather than silently ignored.
    pub fn from_raw(raw: &Vec<RawOption>) -> (r: Result<BindingOptions, GenError>)
        ensures
            r matches Ok(o) ==> options_from_raw(raw_seq_view(raw@), no_options()) == Ok::<
                OptionsView,
                GenError,
            >(o@),
            r matches Err(e) ==> options_from_raw(raw_seq_view(raw@), no_options()) == Err::<
                OptionsView,
                GenError,
            >(e),
    {
        let mut acc = BindingOptions { class: None, name: None };
        let mut i: usize = 0;
        proof {
            assert(raw@.skip(0) =~= raw@);
        }
        while i < raw.len()
            invariant
                i <= raw@.len(),
                options_from_raw(raw_seq_view(raw@), no_options()) == options_from_raw(
                    raw_seq_view(raw@.skip(i as int)),
                    acc@,
                ),
            decreases raw@.len() - i,
        {
            proof {
                assert(raw_seq_view(raw@.skip(i as int))[0] == raw@[i as int]@);
                assert(raw_seq_view(raw@.skip(i as int)).drop_first() =~= raw_seq_view(
                    raw@.skip(i + 1),
                ));
            }
            let o = &raw[i];
            let is_class = str_eq(o.key.as_str(), "class");
            let is_name = str_eq(o.key.as_str(), "name");
            if !(is_class || is_name) {
                return Err(GenError::MalformedOptions);
            }
            match &o.value {
                None => {
                    return Err(GenError::MalformedOptions);
                },
                Some(v) => {
                    if is_class {
                        acc = BindingOptions { class: Some(v.clone()), name: acc.name };
                    } else {
                        acc = BindingOptions { class: acc.class, name: Some(v.clone()) };
                    }
                },
            }
            i = i + 1;
        }
        proof {
            assert(raw_seq_view(raw@.skip(raw@.len() as int)) =~= Seq::<RawOptionView>::empty());
        }
        Ok(acc)
    }
}

} // verus!
