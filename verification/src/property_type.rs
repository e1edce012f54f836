//! The canonical property types and the classification of SQL column types.

use crate::error::{TranslationError, TranslationErrorView};
use crate::text::{
    ascii_upper, ascii_upper_idempotent, ascii_uppercase, contains, ends_with,
    eq_ignoring_ascii_case, eq_ignoring_case_iff_same_uppercase, has_substring, is_exactly,
    starts_with, uppercase_chars,
};
use vstd::prelude::*;

verus! {

/// Canonical schema type of a column.
#[derive(Debug, Clone, Copy, PartialEq, Eq, Structural)]
pub enum PropertyType {
    String,
    Number,
    Integer,
    Boolean,
}

impl PropertyType {
    /// The lower-case name under which the type is shown and serialized.
    pub open spec fn canonical_name(self) -> Seq<char> {
        match self {
            PropertyType::String => "string"@,
            PropertyType::Number => "number"@,
            PropertyType::Integer => "integer"@,
            PropertyType::Boolean => "boolean"@,
        }
    }

    /// The property type of a column type spelling, if any rule matches.
    ///
    /// The spelling is upper-cased first. The rules are tried in this order,
    /// and the first that matches decides: the conventional boolean spelling
    /// `TINYINT(1)`, the integer families, the fractional families, and the
    /// textual and temporal ones.
    pub open spec fn classify(spelling: Seq<char>) -> Option<PropertyType> {
        let upper = ascii_uppercase(spelling);
        if upper =~= "TINYINT(1)"@ {
            Some(PropertyType::Boolean)
        } else if "INT"@.is_prefix_of(upper) || "BIGINT"@.is_prefix_of(upper)
            || "TINYINT"@.is_prefix_of(upper) || "SMALLINT"@.is_prefix_of(upper) {
            Some(PropertyType::Integer)
        } else if "DECIMAL"@.is_prefix_of(upper) || "FLOAT"@.is_prefix_of(upper) {
            Some(PropertyType::Number)
        } else if "VARCHAR"@.is_prefix_of(upper) || "TEXT"@.is_suffix_of(upper) || has_substring(
            upper,
            "DATE"@,
        ) || has_substring(upper, "TIME"@) {
            Some(PropertyType::String)
        } else {
            None
        }
    }

    /// The canonical name as an owned string.
    pub fn to_string(&self) -> (name: String)
        ensures
            name@ == self.canonical_name(),
    {
        match self {
            PropertyType::String => "string".to_owned(),
            PropertyType::Number => "number".to_owned(),
            PropertyType::Integer => "integer".to_owned(),
            PropertyType::Boolean => "boolean".to_owned(),
        }
    }

    /// Classifies a column type spelling as the parser renders it, such as
    /// `INT`, `VARCHAR(255)` or `DECIMAL(10,2)`, in any letter case.
    ///
    /// Fails with `UnsupportedType`, which carries `input_str` unchanged,
    /// exactly when no rule matches.
    pub fn from_mysql_column_definition(input_str: &str) -> (result: Result<
        PropertyType,
        TranslationError,
    >)
        ensures
            Self::classify(input_str@) matches Some(property_type) ==> result == Ok::<
                PropertyType,
                TranslationError,
            >(property_type),
            Self::classify(input_str@) is None ==> (result matches Err(error) && error@
                == TranslationErrorView::UnsupportedType(input_str@)),
    {
        let upper = uppercase_chars(input_str);
        if is_exactly(&upper, "TINYINT(1)") {
            Ok(PropertyType::Boolean)
        } else if starts_with(&upper, "INT") || starts_with(&upper, "BIGINT") || starts_with(
            &upper,
            "TINYINT",
        ) || starts_with(&upper, "SMALLINT") {
            Ok(PropertyType::Integer)
        } else if starts_with(&upper, "DECIMAL") || starts_with(&upper, "FLOAT") {
            Ok(PropertyType::Number)
        } else if starts_with(&upper, "VARCHAR") || ends_with(&upper, "TEXT") || contains(
            &upper,
            "DATE",
        ) || contains(&upper, "TIME") {
            Ok(PropertyType::String)
        } else {
            Err(TranslationError::UnsupportedType(input_str.to_owned()))
        }
    }
}

/// Classification is case-insensitive: spellings that differ only in the
/// case of ASCII letters classify alike.
pub proof fn classification_ignores_case(a: Seq<char>, b: Seq<char>)
    requires
        eq_ignoring_ascii_case(a, b),
    ensures
        PropertyType::classify(a) == PropertyType::classify(b),
{
    eq_ignoring_case_iff_same_uppercase(a, b);
}

/// A spelling classifies as its upper-case form does.
pub proof fn classification_of_uppercase(spelling: Seq<char>)
    ensures
        PropertyType::classify(ascii_uppercase(spelling)) == PropertyType::classify(spelling),
{
    let upper = ascii_uppercase(spelling);
    assert forall|i: int| 0 <= i < upper.len() implies ascii_upper(#[trigger] upper[i])
        == ascii_upper(spelling[i]) by {
        ascii_upper_idempotent(spelling[i]);
    }
    classification_ignores_case(upper, spelling);
}

/// The exact spelling `TINYINT(1)` takes priority over the integer family
/// it belongs to: it is a boolean, in any letter case, and nothing else is.
pub proof fn boolean_iff_tinyint_1(spelling: Seq<char>)
    ensures
        PropertyType::classify(spelling) == Some(PropertyType::Boolean) <==> ascii_uppercase(
            spelling,
        ) == "TINYINT(1)"@,
        PropertyType::classify("TINYINT(1)"@) == Some(PropertyType::Boolean),
{
    reveal_strlit("TINYINT(1)");
}

/// Every spelling that begins with `TINYINT`, in any letter case, and is not
/// `TINYINT(1)` is an integer.
pub proof fn other_tinyint_is_integer(spelling: Seq<char>)
    requires
        "TINYINT"@.is_prefix_of(ascii_uppercase(spelling)),
        ascii_uppercase(spelling) != "TINYINT(1)"@,
    ensures
        PropertyType::classify(spelling) == Some(PropertyType::Integer),
{
}

} // verus!
