//! The name mangler: derives the exported symbol name from the native
//! identifier and the options record, under the foreign runtime's naming
//! grammar. The grammar is bit-exact: every literal underscore in the
//! class path or the method name is escaped to `_1`, literal dots in the
//! class path become plain underscores, and the pieces are joined as
//! `Java_<class-path>_<method-name>`. No parameter-signature suffix is
//! produced; see [`crate::synth::synthesize_all`] for how the resulting
//! collisions are surfaced.

use vstd::prelude::*;
use crate::options::{BindingOptions, OptionsView};
use crate::text::{chars_to_string, push_all, str_chars};

verus! {

/// What the underscore escape makes of one character.
pub open spec fn escape_char(c: char) -> Seq<char> {
    if c == '_' {
        seq!['_', '1']
    } else {
        seq![c]
    }
}

/// `s` with every literal underscore escaped to `_1`.
pub open spec fn escaped(s: Seq<char>) -> Seq<char>
    decreases s.len(),
{
    if s.len() == 0 {
        Seq::empty()
    } else {
        escaped(s.drop_last()) + escape_char(s.last())
    }
}

/// What the qualifier-separator replacement makes of one character.
pub open spec fn dot_char(c: char) -> char {
    if c == '.' {
        '_'
    } else {
        c
    }
}

/// `s` with every literal dot replaced by a single underscore.
pub open spec fn dotted(s: Seq<char>) -> Seq<char> {
    s.map_values(|c: char| dot_char(c))
}

/// ASCII-uppercases `c`; any other character is unchanged.
pub open spec fn upper_char(c: char) -> char {
    if 'a' as int <= c as int && c as int <= 'z' as int {
        ((c as int - 32) as char)
    } else {
        c
    }
}

/// One pass of the upper-camel-case conversion: a boundary is open at the
/// start and after every underscore; underscores are dropped, the first
/// character after an open boundary is ASCII-uppercased, and every other
/// character is copied unchanged.
pub open spec fn camel_rec(s: Seq<char>, boundary: bool) -> Seq<char>
    decreases s.len(),
{
    if s.len() == 0 {
        Seq::empty()
    } else if s[0] == '_' {
        camel_rec(s.drop_first(), true)
    } else if boundary {
        seq![upper_char(s[0])] + camel_rec(s.drop_first(), false)
    } else {
        seq![s[0]] + camel_rec(s.drop_first(), false)
    }
}

/// The upper-camel-case form of `s`.
pub open spec fn camel_of(s: Seq<char>) -> Seq<char> {
    camel_rec(s, true)
}

/// Relies on `case::CaseExt::to_camel` for `str`: starting at a word
/// boundary, it drops each underscore and marks a boundary, ASCII-uppercases
/// the first character after a boundary, and copies every other character
/// unchanged (leading underscores are skipped, which coincides with
/// dropping them at an already-open boundary).
#[verifier::external_body]
fn to_camel(s: &str) -> (r: String)
    ensures
        r@ == camel_of(s@),
{
    case::CaseExt::to_camel(s)
}

/// The constant prefix of every exported symbol name.
pub open spec fn java_prefix() -> Seq<char> {
    seq!['J', 'a', 'v', 'a', '_']
}

/// The default package used when no `class` override is given.
pub open spec fn default_package() -> Seq<char> {
    seq!['r', 'u', 's', 't', '_', 'j', 'e', 'n', 'n', 'y']
}

/// The package-and-class segment of the symbol name: the overriding class
/// path with underscores escaped and then dots turned into separators, or
/// else `<package>_<CamelIdent>` derived from the identifier.
pub open spec fn class_part(
    package: Seq<char>,
    ident: Seq<char>,
    class: Option<Seq<char>>,
) -> Seq<char> {
    match class {
        Some(c) => dotted(escaped(c)),
        None => package + seq!['_'] + escaped(camel_of(ident)),
    }
}

/// The method-name segment: the overriding name, or else the identifier,
/// with underscores escaped.
pub open spec fn name_part(ident: Seq<char>, name: Option<Seq<char>>) -> Seq<char> {
    match name {
        Some(n) => escaped(n),
        None => escaped(ident),
    }
}

/// The exported symbol name for `ident` under `opts`, with the default
/// class derived from `package` when no class override is given.
pub open spec fn mangle_spec(package: Seq<char>, ident: Seq<char>, opts: OptionsView) -> Seq<
    char,
> {
    java_prefix() + class_part(package, ident, opts.class) + seq!['_'] + name_part(
        ident,
        opts.name,
    )
}

/// Appends `escaped(s@)` to `out`.
fn push_escaped(out: &mut Vec<char>, s: &Vec<char>)
    ensures
        final(out)@ == old(out)@ + escaped(s@),
{
    let mut i: usize = 0;
    while i < s.len()
        invariant
            i <= s@.len(),
            out@ == old(out)@ + escaped(s@.take(i as int)),
        decreases s@.len() - i,
    {
        let ghost prev = out@;
        let c = s[i];
        if c == '_' {
            out.push('_');
            out.push('1');
        } else {
            out.push(c);
        }
        proof {
            assert(out@ =~= prev + escape_char(s@[i as int]));
            assert(s@.take(i + 1).drop_last() =~= s@.take(i as int));
            assert(escaped(s@.take(i + 1)) == escaped(s@.take(i as int)) + escape_char(
                s@[i as int],
            ));
            assert(out@ =~= old(out)@ + escaped(s@.take(i + 1)));
        }
        i = i + 1;
    }
    proof {
        assert(s@.take(s@.len() as int) =~= s@);
    }
}

/// Appends `dotted(s@)` to `out`.
fn push_dotted(out: &mut Vec<char>, s: &Vec<char>)
    ensures
        final(out)@ == old(out)@ + dotted(s@),
{
    let mut i: usize = 0;
    while i < s.len()
        invariant
            i <= s@.len(),
            out@ == old(out)@ + dotted(s@.take(i as int)),
        decreases s@.len() - i,
    {
        let ghost prev = out@;
        let c = s[i];
        if c == '.' {
            out.push('_');
        } else {
            out.push(c);
        }
        proof {
            assert(out@ =~= prev.push(dot_char(s@[i as int])));
            assert(dotted(s@.take(i + 1)) =~= dotted(s@.take(i as int)).push(
                dot_char(s@[i as int]),
            ));
            assert(out@ =~= old(out)@ + dotted(s@.take(i + 1)));
        }
        i = i + 1;
    }
    proof {
        assert(s@.take(s@.len() as int) =~= s@);
    }
}

/// Mangles `id` under `opts`, deriving the default class from `package`
/// when no class override is given. Total and deterministic: the result is
/// a pure function of the arguments.
pub fn mangle_with_package(package: &str, id: &str, opts: &BindingOptions) -> (r: String)
    ensures
        r@ == mangle_spec(package@, id@, opts@),
{
    let mut out: Vec<char> = Vec::new();
    out.push('J');
    out.push('a');
    out.push('v');
    out.push('a');
    out.push('_');
    proof {
        assert(out@ =~= java_prefix());
    }
    match &opts.class {
        Some(c) => {
            let cv = str_chars(c.as_str());
            let mut esc: Vec<char> = Vec::new();
            push_escaped(&mut esc, &cv);
            push_dotted(&mut out, &esc);
        },
        None => {
            let pv = str_chars(package);
            push_all(&mut out, &pv);
            out.push('_');
            proof {
                assert(out@ =~= java_prefix() + (package@ + seq!['_']));
            }
            let cam = to_camel(id);
            let camv = str_chars(cam.as_str());
            push_escaped(&mut out, &camv);
            proof {
                assert(out@ =~= java_prefix() + class_part(package@, id@, opts@.class));
            }
        },
    }
    proof {
        assert(out@ == java_prefix() + class_part(package@, id@, opts@.class));
    }
    out.push('_');
    let ghost mid = out@;
    match &opts.name {
        Some(n) => {
            let nv = str_chars(n.as_str());
            push_escaped(&mut out, &nv);
        },
        None => {
            let iv = str_chars(id);
            push_escaped(&mut out, &iv);
        },
    }
    proof {
        assert(mid =~= java_prefix() + class_part(package@, id@, opts@.class) + seq!['_']);
        assert(out@ =~= mangle_spec(package@, id@, opts@));
    }
    chars_to_string(&out)
}

/// Mangles `id` under `opts` with the standard default package.
pub fn mangle(id: &str, opts: &BindingOptions) -> (r: String)
    ensures
        r@ == mangle_spec(default_package(), id@, opts@),
{
    proof {
        reveal_strlit("rust_jenny");
        assert("rust_jenny"@ =~= default_package());
    }
    mangle_with_package("rust_jenny", id, opts)
}

/// `s` with every underscore escaped to `_1`, as a standalone transform.
pub fn escape_underscores(s: &str) -> (r: String)
    ensures
        r@ == escaped(s@),
{
    let sv = str_chars(s);
    let mut out: Vec<char> = Vec::new();
    push_escaped(&mut out, &sv);
    chars_to_string(&out)
}

/// Law: the underscore escape leaves a string already free of underscores
/// unchanged, so applying it a second time to such a string is a no-op.
pub proof fn lemma_escape_no_underscore(s: Seq<char>)
    requires
        forall|i: int| 0 <= i < s.len() ==> s[i] != '_',
    ensures
        escaped(s) == s,
    decreases s.len(),
{
    if s.len() == 0 {
        assert(escaped(s) =~= s);
    } else {
        lemma_escape_no_underscore(s.drop_last());
        assert(escaped(s) =~= s);
    }
}

/// The camel-case conversion never emits an underscore.
pub proof fn lemma_camel_no_underscore(s: Seq<char>, boundary: bool)
    ensures
        forall|i: int|
            0 <= i < camel_rec(s, boundary).len() ==> camel_rec(s, boundary)[i] != '_',
    decreases s.len(),
{
    if s.len() == 0 {
    } else if s[0] == '_' {
        lemma_camel_no_underscore(s.drop_first(), true);
        assert(camel_rec(s, boundary) == camel_rec(s.drop_first(), true));
        assert forall|i: int| 0 <= i < camel_rec(s, boundary).len() implies camel_rec(
            s,
            boundary,
        )[i] != '_' by {
            assert(camel_rec(s, boundary)[i] == camel_rec(s.drop_first(), true)[i]);
        }
    } else {
        lemma_camel_no_underscore(s.drop_first(), false);
        let head = if boundary {
            upper_char(s[0])
        } else {
            s[0]
        };
        let tail = camel_rec(s.drop_first(), false);
        assert(upper_char(s[0]) != '_');
        assert(camel_rec(s, boundary) == seq![head] + tail);
        assert forall|i: int| 0 <= i < camel_rec(s, boundary).len() implies camel_rec(
            s,
            boundary,
        )[i] != '_' by {
            if i == 0 {
                assert(camel_rec(s, boundary)[0] == head);
            } else {
                assert(camel_rec(s, boundary)[i] == tail[i - 1]);
            }
        }
    }
}

/// Law: for an identifier free of underscores and no overrides, the
/// exported symbol is `Java_<package>_<CamelIdent>_<ident>`, with the
/// camel-cased identifier and the identifier itself appearing verbatim.
pub proof fn lemma_mangle_default(package: Seq<char>, id: Seq<char>)
    requires
        forall|i: int| 0 <= i < id.len() ==> id[i] != '_',
    ensures
        mangle_spec(package, id, OptionsView { class: None, name: None }) == java_prefix()
            + package + seq!['_'] + camel_of(id) + seq!['_'] + id,
{
    lemma_camel_no_underscore(id, true);
    lemma_escape_no_underscore(camel_of(id));
    lemma_escape_no_underscore(id);
    assert(mangle_spec(package, id, OptionsView { class: None, name: None }) =~= java_prefix()
        + package + seq!['_'] + camel_of(id) + seq!['_'] + id);
}

} // verus!
