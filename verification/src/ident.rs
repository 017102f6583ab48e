//! Identifiers: which names can be written as one.

use crate::error::result_view;
use crate::error::ErrorKind;
use crate::error::GenError;
use crate::error::GenErrorView;
use vstd::prelude::*;
use vstd::string::StrSliceExecFns;

verus! {

/// A letter of the basic alphabet, or an underscore.
pub open spec fn is_ident_start(c: char) -> bool {
    c == '_' || ('a' <= c && c <= 'z') || ('A' <= c && c <= 'Z')
}

/// A letter of the basic alphabet, a digit, or an underscore.
pub open spec fn is_ident_continue(c: char) -> bool {
    is_ident_start(c) || ('0' <= c && c <= '9')
}

/// `name` can be written as an identifier: it is not empty, starts with
/// a letter or an underscore, and goes on with letters, digits and
/// underscores.
pub open spec fn is_identifier(name: Seq<char>) -> bool {
    &&& name.len() > 0
    &&& is_ident_start(name[0])
    &&& forall|i: int| 1 <= i < name.len() ==> is_ident_continue(#[trigger] name[i])
}

/// `name` where it is an identifier, an error that carries it where it
/// is not.
pub open spec fn checked_identifier(name: Seq<char>) -> Result<Seq<char>, GenErrorView> {
    if is_identifier(name) {
        Ok(name)
    } else {
        Err(GenErrorView::of(ErrorKind::InvalidIdentifier, name))
    }
}

fn ident_start(c: char) -> (r: bool)
    ensures
        r == is_ident_start(c),
{
    c == '_' || ('a' <= c && c <= 'z') || ('A' <= c && c <= 'Z')
}

fn ident_continue(c: char) -> (r: bool)
    ensures
        r == is_ident_continue(c),
{
    ident_start(c) || ('0' <= c && c <= '9')
}

/// Whether `name` can be written as an identifier.
pub fn is_valid_identifier(name: &str) -> (r: bool)
    ensures
        r == is_identifier(name@),
{
    let len = name.unicode_len();
    if len == 0 {
        return false;
    }
    if !ident_start(name.get_char(0)) {
        return false;
    }
    let mut i: usize = 1;
    while i < len
        invariant
            1 <= i <= len,
            len == name@.len(),
            forall|j: int| 1 <= j < i ==> is_ident_continue(#[trigger] name@[j]),
        decreases len - i,
    {
        if !ident_continue(name.get_char(i)) {
            return false;
        }
        i = i + 1;
    }
    true
}

/// Accepts a name that is an identifier and rejects one that is not.
pub fn check_identifier(name: String) -> (r: Result<String, GenError>)
    ensures
        result_view(r) == checked_identifier(name@),
{
    if is_valid_identifier(name.as_str()) {
        Ok(name)
    } else {
        Err(GenError::new(ErrorKind::InvalidIdentifier, name))
    }
}

} // verus!
