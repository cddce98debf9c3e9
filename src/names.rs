//! Naming conventions for type parameters.
use vstd::prelude::*;

use crate::ast::Pos;
use crate::errors::NamingError;

verus! {

/// What `str::to_lowercase` returns for a string: the Unicode lower-case
/// mapping of each of its characters, concatenated.
pub uninterp spec fn lower_of(s: Seq<char>) -> Seq<char>;

/// Relies on `str::to_lowercase`: its result depends on the characters of
/// the argument alone, and an empty string stays empty.
#[verifier::external_body]
pub(crate) fn lowercase(s: &str) -> (r: String)
    ensures
        r@ == lower_of(s@),
        s@.len() == 0 ==> r@.len() == 0,
{
    s.to_lowercase()
}

/// The name that stands for an unnamed placeholder parameter.
pub open spec fn wildcard_name() -> Seq<char> {
    seq!['_']
}

/// The reserved self-type name, in lower case.
pub open spec fn this_name() -> Seq<char> {
    seq!['t', 'h', 'i', 's']
}

/// Whether a name begins with an upper-case `T`.
pub open spec fn starts_with_t(name: Seq<char>) -> bool {
    name.len() > 0 && name[0] == 'T'
}

pub fn is_wildcard(name: &str) -> (r: bool)
    ensures
        r == (name@ == wildcard_name()),
{
    let n: usize = name.unicode_len();
    if n != 1 {
        return false;
    }
    let c = name.get_char(0);
    proof {
        if c == '_' {
            assert(name@ =~= wildcard_name());
        }
    }
    c == '_'
}

pub fn is_this(lowered: &str) -> (r: bool)
    ensures
        r == (lowered@ == this_name()),
{
    let n: usize = lowered.unicode_len();
    if n != 4 {
        return false;
    }
    let r = lowered.get_char(0) == 't' && lowered.get_char(1) == 'h' && lowered.get_char(2) == 'i'
        && lowered.get_char(3) == 's';
    proof {
        if r {
            assert(lowered@ =~= this_name());
        }
    }
    r
}

pub fn is_t_prefixed(name: &str) -> (r: bool)
    ensures
        r == starts_with_t(name@),
{
    let n: usize = name.unicode_len();
    n > 0 && name.get_char(0) == 'T'
}

/// The naming-convention error of a type parameter, if any, given its name
/// and the lower-case form of that name. The rules are tried in order and
/// the first that applies wins: the reserved self-type name; a wildcard
/// where it is not allowed (anywhere but as a concrete parameter of a
/// higher-kinded parameter); a name that is empty or does not start with
/// `T`.
pub open spec fn name_error(
    pos: Pos,
    name: Seq<char>,
    lowered: Seq<char>,
    nested: bool,
    is_hk: bool,
) -> Option<NamingError> {
    if lowered == this_name() {
        Some(NamingError::ThisReserved(pos))
    } else if name == wildcard_name() && (!nested || is_hk) {
        Some(NamingError::WildcardHintDisallowed(pos))
    } else if !starts_with_t(name) {
        Some(NamingError::StartWithT(pos))
    } else {
        None
    }
}

/// Applies the naming conventions to a type parameter whose name is `name`
/// and whose lower-case form is `lowered`.
pub fn check_tparam_name(pos: &Pos, name: &str, lowered: &str, nested: bool, is_hk: bool) -> (r:
    Option<NamingError>)
    ensures
        r == name_error(*pos, name@, lowered@, nested, is_hk),
{
    if is_this(lowered) {
        Some(NamingError::ThisReserved(*pos))
    } else if is_wildcard(name) && (!nested || is_hk) {
        Some(NamingError::WildcardHintDisallowed(*pos))
    } else if !is_t_prefixed(name) {
        Some(NamingError::StartWithT(*pos))
    } else {
        None
    }
}

/// Applies the naming conventions to a type parameter's name, lower-casing
/// it for the reserved-name test.
pub fn tparam_name_error(pos: &Pos, name: &str, nested: bool, is_hk: bool) -> (r: Option<
    NamingError,
>)
    ensures
        r == name_error(*pos, name@, lower_of(name@), nested, is_hk),
{
    let lowered = lowercase(name);
    check_tparam_name(pos, name, lowered.as_str(), nested, is_hk)
}

} // verus!
