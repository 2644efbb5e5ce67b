//! The failure taxonomy of a parse. Every converter fails fast: the first
//! error aborts the whole parse and no partial object model is ever
//! returned.

use vstd::prelude::*;
use vstd::string::*;

verus! {

/// A structured parse failure.
#[derive(Debug, PartialEq)]
pub enum FomError {
    /// Malformed XML, reported by the external tree parser and passed
    /// through unchanged.
    Syntax(String),
    /// A mandatory schema path has no corresponding element or attribute;
    /// carries the exact dotted path, e.g. `objects.objectClass.name`.
    MissingRequiredField(String),
    /// A closed-vocabulary field holds a token outside the known set;
    /// carries the offending token.
    UnrecognizedValue(String),
    /// A numeric or boolean field's text does not parse as that type;
    /// carries the offending text.
    MalformedScalar(String),
}

/// The mathematical image of a parse failure.
pub enum ErrView {
    Syntax(Seq<char>),
    MissingRequiredField(Seq<char>),
    UnrecognizedValue(Seq<char>),
    MalformedScalar(Seq<char>),
}

impl View for FomError {
    type V = ErrView;

    open spec fn view(&self) -> ErrView {
        match self {
            FomError::Syntax(s) => ErrView::Syntax(s@),
            FomError::MissingRequiredField(s) => ErrView::MissingRequiredField(s@),
            FomError::UnrecognizedValue(s) => ErrView::UnrecognizedValue(s@),
            FomError::MalformedScalar(s) => ErrView::MalformedScalar(s@),
        }
    }
}

impl DeepView for FomError {
    type V = ErrView;

    open spec fn deep_view(&self) -> ErrView {
        self.view()
    }
}

/// The mathematical image of a converter's result: the deep view of the
/// value on success, the error's view on failure.
pub open spec fn parsed<T: DeepView>(r: Result<T, FomError>) -> Result<T::V, ErrView> {
    match r {
        Ok(x) => Ok(x.deep_view()),
        Err(e) => Err(e@),
    }
}

impl FomError {
    /// A Missing-Required-Field failure naming the given dotted schema
    /// path.
    pub fn missing(path: &str) -> (r: FomError)
        ensures
            r@ == ErrView::MissingRequiredField(path@),
    {
        FomError::MissingRequiredField(String::from_str(path))
    }

    /// An Unrecognized-Value failure carrying the offending token.
    pub fn unrecognized(token: String) -> (r: FomError)
        ensures
            r@ == ErrView::UnrecognizedValue(token@),
    {
        FomError::UnrecognizedValue(token)
    }

    /// A Malformed-Scalar failure carrying the offending text.
    pub fn malformed(text: String) -> (r: FomError)
        ensures
            r@ == ErrView::MalformedScalar(text@),
    {
        FomError::MalformedScalar(text)
    }

    /// A human-readable account of the failure: a fixed phrase naming
    /// the error kind, followed by the carried path, token or text.
    pub fn message(&self) -> (r: String)
        ensures
            match self {
                FomError::Syntax(s) => r@ == "syntax error: "@ + s@,
                FomError::MissingRequiredField(p) => r@ == "missing required field: "@ + p@,
                FomError::UnrecognizedValue(t) => r@ == "unrecognized value: "@ + t@,
                FomError::MalformedScalar(t) => r@ == "malformed scalar: "@ + t@,
            },
    {
        match self {
            FomError::Syntax(s) => String::from_str("syntax error: ").concat(s.as_str()),
            FomError::MissingRequiredField(p) => String::from_str(
                "missing required field: ",
            ).concat(p.as_str()),
            FomError::UnrecognizedValue(t) => String::from_str(
                "unrecognized value: ",
            ).concat(t.as_str()),
            FomError::MalformedScalar(t) => String::from_str(
                "malformed scalar: ",
            ).concat(t.as_str()),
        }
    }
}

} // verus!
