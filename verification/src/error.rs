//! The ways in which generation is abandoned.

use vstd::prelude::*;
use vstd::string::StringExecFns;

verus! {

/// What kind of schema defect ended generation.
#[derive(Clone, Copy, Debug, PartialEq, Eq, Structural)]
pub enum ErrorKind {
    /// A primitive kind that the target language has no type for; the
    /// name is the kind's name in the schema language.
    UnsupportedType,
    /// A type expression that is not a sequence of target-language tokens;
    /// the name is the expression.
    MalformedType,
    /// A name that cannot be written as an identifier; the name is the
    /// text that would have been written.
    InvalidIdentifier,
    /// A reference to a name that the definition table does not hold.
    UnresolvedType,
    /// A reference back to a definition that is still being resolved.
    CyclicType,
    /// An enum definition where an account needs a struct.
    UnexpectedEnumAccount,
    /// An alias definition where an account needs a struct.
    UnexpectedAliasAccount,
}

/// A fatal schema defect: its kind, the name it is about, and the account
/// type or instruction in which it was met, where there is one.
#[derive(Debug, PartialEq, Eq)]
pub struct GenError {
    pub kind: ErrorKind,
    pub name: String,
    pub owner: Option<String>,
}

pub struct GenErrorView {
    pub kind: ErrorKind,
    pub name: Seq<char>,
    pub owner: Option<Seq<char>>,
}

impl View for GenError {
    type V = GenErrorView;

    open spec fn view(&self) -> GenErrorView {
        GenErrorView {
            kind: self.kind,
            name: self.name@,
            owner: match self.owner {
                Some(owner) => Some(owner@),
                None => None,
            },
        }
    }
}

/// What went wrong, without the name.
pub open spec fn reason(kind: ErrorKind) -> Seq<char> {
    match kind {
        ErrorKind::UnsupportedType => "unsupported type: "@,
        ErrorKind::MalformedType => "malformed type: "@,
        ErrorKind::InvalidIdentifier => "invalid identifier: "@,
        ErrorKind::UnresolvedType => "unresolved type: "@,
        ErrorKind::CyclicType => "cyclic type: "@,
        ErrorKind::UnexpectedEnumAccount => "unexpected enum account: "@,
        ErrorKind::UnexpectedAliasAccount => "unexpected alias account: "@,
    }
}

impl GenErrorView {
    /// An error about `name`, met outside any account type or
    /// instruction.
    pub open spec fn of(kind: ErrorKind, name: Seq<char>) -> GenErrorView {
        GenErrorView { kind, name, owner: None }
    }

    /// The same error, met in the account type or instruction `owner`.
    pub open spec fn within(self, owner: Seq<char>) -> GenErrorView {
        GenErrorView { kind: self.kind, name: self.name, owner: Some(owner) }
    }

    /// The text shown to a user: the reason, the name, and where it was
    /// met.
    pub open spec fn message(self) -> Seq<char> {
        reason(self.kind) + self.name + (match self.owner {
            Some(owner) => " in "@ + owner,
            None => Seq::empty(),
        })
    }
}

impl GenError {
    /// An error about `name`, met outside any account type or
    /// instruction.
    pub fn new(kind: ErrorKind, name: String) -> (r: GenError)
        ensures
            r@ == GenErrorView::of(kind, name@),
    {
        GenError { kind, name, owner: None }
    }

    /// The same error, met in the account type or instruction `owner`.
    pub fn within(self, owner: &str) -> (r: GenError)
        ensures
            r@ == self@.within(owner@),
    {
        GenError { kind: self.kind, name: self.name, owner: Some(owner.to_owned()) }
    }

    /// The text shown to a user.
    pub fn message(&self) -> (r: String)
        ensures
            r@ == self@.message(),
    {
        let reason = match self.kind {
            ErrorKind::UnsupportedType => "unsupported type: ",
            ErrorKind::MalformedType => "malformed type: ",
            ErrorKind::InvalidIdentifier => "invalid identifier: ",
            ErrorKind::UnresolvedType => "unresolved type: ",
            ErrorKind::CyclicType => "cyclic type: ",
            ErrorKind::UnexpectedEnumAccount => "unexpected enum account: ",
            ErrorKind::UnexpectedAliasAccount => "unexpected alias account: ",
        };
        let mut out = reason.to_owned();
        out.append(self.name.as_str());
        match &self.owner {
            Some(owner) => {
                out.append(" in ");
                out.append(owner.as_str());
                assert(out@ =~= self@.message());
            },
            None => {
                assert(out@ =~= self@.message());
            },
        }
        out
    }
}

/// The view of an outcome: the view of the value, or of the error.
pub open spec fn result_view<T: View>(r: Result<T, GenError>) -> Result<T::V, GenErrorView> {
    match r {
        Ok(v) => Ok(v@),
        Err(e) => Err(e@),
    }
}

/// Two outcomes that meet the same expectation are alike: both succeed
/// with the same text, or both fail with the same error.
pub proof fn lemma_same_outcome(
    first: Result<String, GenError>,
    second: Result<String, GenError>,
    expected: Result<Seq<char>, GenErrorView>,
)
    requires
        result_view(first) == expected,
        result_view(second) == expected,
    ensures
        first is Ok <==> second is Ok,
        first is Ok ==> first->Ok_0@ == second->Ok_0@,
        first is Err ==> first->Err_0@ == second->Err_0@,
{
}

} // verus!
