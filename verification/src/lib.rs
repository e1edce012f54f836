//! Translation of a parsed `CREATE TABLE` statement into an ordered schema:
//! each column's SQL type is classified into a canonical property type, its
//! explicit nullability is read from its constraint options, and the
//! descriptors are stored under the column names in declaration order.

pub mod ast;
pub mod column;
pub mod error;
pub mod mapping;
pub mod property_item;
pub mod property_type;
pub mod schema;
pub mod text;

use crate::ast::{
    column_options, declared_columns, describe_within_reach, described_columns,
    is_writable_within_reach, options_of, table_columns, writable_within_reach,
};
use crate::column::{declared_nullability, explicit_nullability};
use crate::error::TranslationError;
use crate::property_item::PropertyItem;
use crate::schema::{build_property_list, outcome, translation, translation_stops_at_its_reach};
use linear_map::LinearMap;
use sqlparser::ast::{ColumnDef, Statement};
use vstd::prelude::*;

verus! {

/// The types of the columns that a translation of the statement reads can
/// be written out. This holds of every statement that is no table
/// definition.
pub open spec fn has_writable_types(statement: Statement) -> bool {
    declared_columns(statement) matches Some(columns) ==> writable_within_reach(columns)
}

/// The explicit nullability of a parsed column: `Some(true)` where the first
/// marker among its options is `NULL`, `Some(false)` where it is `NOT NULL`,
/// `None` where the options hold neither.
pub fn is_column_nullable(column: &ColumnDef) -> (nullable: Option<bool>)
    ensures
        nullable == explicit_nullability(column_options(*column)),
{
    let options = options_of(column);
    declared_nullability(&options)
}

/// Translates a parsed statement into the ordered mapping from column name
/// to property descriptor.
///
/// Fails with `UnsupportedStatement` exactly when the statement is not a
/// table definition. A table definition translates as its columns do: the
/// first column whose type matches no classification rule fails the whole
/// translation with `UnsupportedType`, and no partial mapping is returned.
///
/// The types of the columns up to the first unsupported one must be ones
/// that can be written out. `try_convert_mysql_statement_to_property_list`
/// takes any statement.
pub fn convert_mysql_statement_to_property_list(statement: &Statement) -> (result: Result<
    LinearMap<String, PropertyItem>,
    TranslationError,
>)
    requires
        has_writable_types(*statement),
    ensures
        declared_columns(*statement) is None <==> result matches Err(
            TranslationError::UnsupportedStatement,
        ),
        declared_columns(*statement) matches Some(columns) ==> outcome(result) == translation(
            described_columns(columns),
        ),
{
    match table_columns(statement) {
        Some(columns) => {
            let descriptors = describe_within_reach(columns);
            proof {
                translation_stops_at_its_reach(described_columns(columns@));
            }
            build_property_list(&descriptors)
        },
        None => Err(TranslationError::UnsupportedStatement),
    }
}

/// Translates a parsed statement as `convert_mysql_statement_to_property_list`
/// does, after looking at the types of the columns that the translation
/// reads: returns `None`, and translates nothing, exactly when one of them
/// cannot be written out.
pub fn try_convert_mysql_statement_to_property_list(statement: &Statement) -> (result: Option<
    Result<LinearMap<String, PropertyItem>, TranslationError>,
>)
    ensures
        result is Some <==> has_writable_types(*statement),
        result is Some && declared_columns(*statement) is None ==> result->0 matches Err(
            TranslationError::UnsupportedStatement,
        ),
        result is Some && declared_columns(*statement) is Some ==> outcome(result->0)
            == translation(described_columns(declared_columns(*statement)->0)),
{
    let writable = match table_columns(statement) {
        Some(columns) => is_writable_within_reach(columns),
        None => true,
    };
    if writable {
        Some(convert_mysql_statement_to_property_list(statement))
    } else {
        None
    }
}

} // verus!
