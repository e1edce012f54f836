//! Why a table definition could not be translated.

use vstd::prelude::*;

verus! {

/// A translation either yields a whole schema or one of these; there is no
/// partial result.
#[derive(Debug, PartialEq, Eq)]
pub enum TranslationError {
    /// The statement is not a table definition.
    UnsupportedStatement,
    /// A column's type matches no classification rule. Carries the type
    /// spelling exactly as it was given.
    UnsupportedType(String),
}

/// A translation error as mathematical data.
pub enum TranslationErrorView {
    UnsupportedStatement,
    UnsupportedType(Seq<char>),
}

impl View for TranslationError {
    type V = TranslationErrorView;

    open spec fn view(&self) -> TranslationErrorView {
        match self {
            TranslationError::UnsupportedStatement => TranslationErrorView::UnsupportedStatement,
            TranslationError::UnsupportedType(spelling) => TranslationErrorView::UnsupportedType(
                spelling@,
            ),
        }
    }
}

} // verus!
