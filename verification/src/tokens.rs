//! Token-level well-formedness of generated text, put to the
//! `proc_macro2` lexer.

use std::str::FromStr;
use vstd::prelude::*;

verus! {

/// Calls `proc_macro2::TokenStream::from_str` on `text` and reports
/// whether it returned a token stream rather than a lexing error.
/// Nothing is claimed of the answer: which parser decides depends on
/// whether the process is expanding a macro, so the same text may be
/// accepted at one time and refused at another. The crate's
/// documentation reserves that some lexing errors panic instead of being
/// returned; the library hands it nothing but the type expressions that
/// `ty_to_rust_type` builds.
#[verifier::external_body]
pub(crate) fn lexes_as_tokens(text: &str) -> bool {
    proc_macro2::TokenStream::from_str(text).is_ok()
}

} // verus!
