//! Interned names.
//!
//! Names of types, fields and registers are `ustr::Ustr` handles. What the
//! library says of a handle is the text that it stands for, [`name_text`].

use ustr::Ustr;
use vstd::prelude::*;

verus! {

/// `ustr::Ustr`: a handle for a string in a global cache.
#[verifier::external_type_specification]
#[verifier::external_body]
pub struct ExUstr(ustr::Ustr);

/// The characters of the string that a handle stands for.
pub uninterp spec fn name_text(name: Ustr) -> Seq<char>;

/// Calls `ustr::Ustr::from`, which finds the string in the cache or adds it.
/// Claims that the handle stands for the string it was made from.
#[verifier::external_body]
pub(crate) fn intern(text: &str) -> (name: Ustr)
    ensures
        name_text(name) == text@,
{
    Ustr::from(text)
}

/// Calls `ustr::Ustr::as_str`. Claims that it gives back the string that the
/// handle stands for.
#[verifier::external_body]
pub(crate) fn name_str(name: &Ustr) -> (text: &'static str)
    ensures
        text@ == name_text(*name),
{
    name.as_str()
}

/// Calls `==` on two `ustr::Ustr`, which compares the handles. Claims that
/// handles are equal exactly when their strings are: the cache holds one copy
/// of each string.
#[verifier::external_body]
pub(crate) fn same_name(a: Ustr, b: Ustr) -> (same: bool)
    ensures
        same == (name_text(a) == name_text(b)),
{
    a == b
}

} // verus!
