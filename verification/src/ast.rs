//! What the translation reads of a parsed statement.
//!
//! A parsed statement is a value of `sqlparser`'s syntax tree, which the
//! verifier does not look into. The parts that the translation reads are
//! named here, and the functions that read them are believed, not proved:
//! each says which field or function of `sqlparser` stands behind it.
//!
//! `sqlparser` writes a type out through `Display`, and that panics on an
//! identifier whose quote style is none of the four it knows. The fields of
//! the syntax tree are public, so such an identifier can be built by hand.
//! A type is therefore written out only where its identifiers are known to
//! have quote styles that can be written, which `has_writable_type` tells.

use crate::column::{column_views, ColumnDescriptor, ColumnDescriptorView, ConstraintOption};
use crate::property_type::PropertyType;
use crate::schema::{first_unsupported_is_first, property_of, reach};
use sqlparser::ast::{ColumnDef, ColumnOption, DataType, Statement};
use vstd::prelude::*;

verus! {

/// `sqlparser::ast::Statement`, taken as an opaque value.
#[verifier::external_type_specification]
#[verifier::external_body]
pub struct ExStatement(sqlparser::ast::Statement);

/// `sqlparser::ast::ColumnDef`, taken as an opaque value.
#[verifier::external_type_specification]
#[verifier::external_body]
pub struct ExColumnDef(sqlparser::ast::ColumnDef);

/// `sqlparser::ast::DataType`, taken as an opaque value.
#[verifier::external_type_specification]
#[verifier::external_body]
pub struct ExDataType(sqlparser::ast::DataType);

/// The column definitions of a table definition, in declaration order;
/// `None` for every other kind of statement.
pub uninterp spec fn declared_columns(statement: Statement) -> Option<Seq<ColumnDef>>;

/// The name of a column, without quotes.
pub uninterp spec fn column_name(column: ColumnDef) -> Seq<char>;

/// The type of a column.
pub uninterp spec fn column_data_type(column: ColumnDef) -> DataType;

/// The constraint options of a column, in declaration order.
pub uninterp spec fn column_options(column: ColumnDef) -> Seq<ConstraintOption>;

/// The element type of an array type that gives one; `None` for every other
/// type.
pub uninterp spec fn element_type(data_type: DataType) -> Option<DataType>;

/// How many array types are nested in a type, itself counted.
pub uninterp spec fn array_depth(data_type: DataType) -> nat;

/// The quote style of each identifier in the name of a custom type, in
/// order; empty for every other type.
pub uninterp spec fn name_quotes(data_type: DataType) -> Seq<Option<char>>;

/// The spelling of a type as the parser writes it out.
pub uninterp spec fn type_spelling(data_type: DataType) -> Seq<char>;

/// The quote styles that `sqlparser` can write: none, or one of `"`, `'`,
/// `` ` `` and `[`.
pub open spec fn is_known_quote(quote: Option<char>) -> bool {
    quote matches Some(c) ==> c == '"' || c == '\'' || c == '`' || c == '['
}

/// Every quote style of the list can be written.
pub open spec fn are_known_quotes(quotes: Seq<Option<char>>) -> bool {
    forall|i: int| 0 <= i < quotes.len() ==> is_known_quote(#[trigger] quotes[i])
}

/// The type can be written out: the identifiers of its name, or of the name
/// of the type that its array types end in, have quote styles that
/// `sqlparser` can write.
pub open spec fn is_writable(data_type: DataType) -> bool
    decreases array_depth(data_type),
{
    match element_type(data_type) {
        Some(element) => array_depth(element) < array_depth(data_type) && is_writable(element),
        None => are_known_quotes(name_quotes(data_type)),
    }
}

/// The type of the column can be written out.
pub open spec fn type_is_writable(column: ColumnDef) -> bool {
    is_writable(column_data_type(column))
}

/// What a parsed column definition holds, as plain data.
pub open spec fn described(column: ColumnDef) -> ColumnDescriptorView {
    ColumnDescriptorView {
        name: column_name(column),
        type_spelling: type_spelling(column_data_type(column)),
        options: column_options(column),
    }
}

/// What a list of parsed column definitions holds, in the same order.
pub open spec fn described_columns(columns: Seq<ColumnDef>) -> Seq<ColumnDescriptorView> {
    columns.map_values(|column: ColumnDef| described(column))
}

/// The type of each column within the reach of a translation can be
/// written out. The columns after the first unsupported one are not read,
/// so nothing is asked of them.
pub open spec fn writable_within_reach(columns: Seq<ColumnDef>) -> bool {
    forall|i: int|
        0 <= i < reach(described_columns(columns)) ==> type_is_writable(#[trigger] columns[i])
}

/// Tells a `Statement::CreateTable` from the other variants of
/// `sqlparser::ast::Statement` and borrows its `columns` field.
#[verifier::external_body]
pub(crate) fn table_columns(statement: &Statement) -> (columns: Option<&Vec<ColumnDef>>)
    ensures
        columns matches Some(defs) ==> declared_columns(*statement) == Some(defs@),
        columns is None ==> declared_columns(*statement) is None,
{
    match statement {
        Statement::CreateTable { columns, .. } => Some(columns),
        _ => None,
    }
}

/// Copies the `name.value` field of a `sqlparser::ast::ColumnDef`.
#[verifier::external_body]
pub(crate) fn name_of(column: &ColumnDef) -> (name: String)
    ensures
        name@ == column_name(*column),
{
    column.name.value.clone()
}

/// Borrows the `data_type` field of a `sqlparser::ast::ColumnDef`.
#[verifier::external_body]
pub(crate) fn data_type_of(column: &ColumnDef) -> (data_type: &DataType)
    ensures
        *data_type == column_data_type(*column),
{
    &column.data_type
}

/// Walks the `options` field of a `sqlparser::ast::ColumnDef` and tells, for
/// each `ColumnOptionDef` in turn, whether its `option` is
/// `ColumnOption::Null`, `ColumnOption::NotNull` or any other variant.
#[verifier::external_body]
pub(crate) fn options_of(column: &ColumnDef) -> (options: Vec<ConstraintOption>)
    ensures
        options@ == column_options(*column),
{
    column.options.iter().map(|def| match def.option {
        ColumnOption::Null => ConstraintOption::Null,
        ColumnOption::NotNull => ConstraintOption::NotNull,
        _ => ConstraintOption::Other,
    }).collect()
}

/// Tells a `DataType::Array` that holds an element type from the other
/// values of `sqlparser::ast::DataType` and borrows the boxed element type,
/// which is a part of the array type and so nests one array type fewer.
#[verifier::external_body]
pub(crate) fn element_type_of(data_type: &DataType) -> (element: Option<&DataType>)
    ensures
        element matches Some(inner) ==> element_type(*data_type) == Some(*inner) && array_depth(
            *inner,
        ) < array_depth(*data_type),
        element is None ==> element_type(*data_type) is None,
{
    match data_type {
        DataType::Array(Some(element)) => Some(element),
        _ => None,
    }
}

/// Tells a `DataType::Custom` from the other variants of
/// `sqlparser::ast::DataType` and copies the `quote_style` field of each
/// `Ident` of its `ObjectName`.
#[verifier::external_body]
pub(crate) fn name_quotes_of(data_type: &DataType) -> (quotes: Vec<Option<char>>)
    ensures
        quotes@ == name_quotes(*data_type),
{
    match data_type {
        DataType::Custom(name, _) => name.0.iter().map(|ident| ident.quote_style).collect(),
        _ => Vec::new(),
    }
}

/// Writes a `sqlparser::ast::DataType` out through its `Display` impl. The
/// text depends on the data type alone.
///
/// The impl writes fixed words, numbers and strings, but for two variants:
/// `Array` with an element type writes the element type in the same way,
/// and `Custom` writes each `Ident` of its name through the `Display` impl
/// of `Ident`, which panics on a quote style other than the four it knows.
#[verifier::external_body]
pub(crate) fn type_spelling_of(data_type: &DataType) -> (spelling: String)
    requires
        is_writable(*data_type),
    ensures
        spelling@ == type_spelling(*data_type),
{
    data_type.to_string()
}

/// Whether every quote style of the list is one that `sqlparser` can write.
pub fn known_quotes(quotes: &Vec<Option<char>>) -> (known: bool)
    ensures
        known == are_known_quotes(quotes@),
{
    let mut i: usize = 0;
    while i < quotes.len()
        invariant
            i <= quotes.len(),
            forall|j: int| 0 <= j < i ==> is_known_quote(#[trigger] quotes@[j]),
        decreases quotes.len() - i,
    {
        match quotes[i] {
            Some(c) => {
                if c != '"' && c != '\'' && c != '`' && c != '[' {
                    return false;
                }
            },
            None => {},
        }
        i += 1;
    }
    true
}

/// Whether the type of the column can be written out.
pub fn has_writable_type(column: &ColumnDef) -> (writable: bool)
    ensures
        writable == type_is_writable(*column),
{
    let mut data_type = data_type_of(column);
    loop
        invariant
            is_writable(*data_type) == type_is_writable(*column),
        decreases array_depth(*data_type),
    {
        match element_type_of(data_type) {
            Some(element) => {
                data_type = element;
            },
            None => {
                let quotes = name_quotes_of(data_type);
                return known_quotes(&quotes);
            },
        }
    }
}

/// Reads a parsed column definition into a descriptor. The type of the
/// column must be one that can be written out.
pub fn describe_column(column: &ColumnDef) -> (descriptor: ColumnDescriptor)
    requires
        type_is_writable(*column),
    ensures
        descriptor@ == described(*column),
{
    ColumnDescriptor {
        name: name_of(column),
        type_spelling: type_spelling_of(data_type_of(column)),
        options: options_of(column),
    }
}

/// While every column before `index` is supported, a translation reads the
/// column at `index`. It stops there if that column is unsupported, and has
/// read all columns if that column is supported and the last.
proof fn reach_goes_on(columns: Seq<ColumnDef>, index: int)
    requires
        0 <= index < columns.len(),
        forall|j: int| 0 <= j < index ==> property_of(described(#[trigger] columns[j])) is Some,
    ensures
        index < reach(described_columns(columns)) <= columns.len(),
        property_of(described(columns[index])) is None ==> reach(described_columns(columns))
            == index + 1,
        property_of(described(columns[index])) is Some && index + 1 == columns.len() ==> reach(
            described_columns(columns),
        ) == columns.len(),
{
    let views = described_columns(columns);
    first_unsupported_is_first(views);
    assert(views[index] == described(columns[index]));
    assert forall|j: int| 0 <= j < index implies property_of(#[trigger] views[j]) is Some by {
        assert(views[j] == described(columns[j]));
    }
}

/// Whether the type of each column within the reach of a translation can be
/// written out.
pub fn is_writable_within_reach(columns: &Vec<ColumnDef>) -> (writable: bool)
    ensures
        writable == writable_within_reach(columns@),
{
    let mut i: usize = 0;
    while i < columns.len()
        invariant
            i <= columns.len(),
            forall|j: int| 0 <= j < i ==> type_is_writable(#[trigger] columns@[j]),
            forall|j: int| 0 <= j < i ==> property_of(described(#[trigger] columns@[j])) is Some,
        decreases columns.len() - i,
    {
        proof {
            reach_goes_on(columns@, i as int);
        }
        if !has_writable_type(&columns[i]) {
            return false;
        }
        let spelling = type_spelling_of(data_type_of(&columns[i]));
        if PropertyType::from_mysql_column_definition(spelling.as_str()).is_err() {
            return true;
        }
        i += 1;
    }
    proof {
        first_unsupported_is_first(described_columns(columns@));
    }
    true
}

/// Reads the parsed column definitions within the reach of a translation
/// into descriptors, keeping their order. Their types must be ones that can
/// be written out.
pub fn describe_within_reach(columns: &Vec<ColumnDef>) -> (descriptors: Vec<ColumnDescriptor>)
    requires
        writable_within_reach(columns@),
    ensures
        column_views(descriptors@) == described_columns(columns@).take(
            reach(described_columns(columns@)),
        ),
{
    let ghost views = described_columns(columns@);
    let mut descriptors: Vec<ColumnDescriptor> = Vec::new();
    let mut i: usize = 0;
    while i < columns.len()
        invariant
            i <= columns.len(),
            writable_within_reach(columns@),
            views == described_columns(columns@),
            descriptors@.len() == i,
            forall|j: int| 0 <= j < i ==> (#[trigger] descriptors@[j])@ == described(columns@[j]),
            forall|j: int| 0 <= j < i ==> property_of(described(#[trigger] columns@[j])) is Some,
        decreases columns.len() - i,
    {
        proof {
            reach_goes_on(columns@, i as int);
        }
        let descriptor = describe_column(&columns[i]);
        let supported = PropertyType::from_mysql_column_definition(
            descriptor.type_spelling.as_str(),
        ).is_ok();
        descriptors.push(descriptor);
        if !supported {
            assert(column_views(descriptors@) =~= views.take(reach(views)));
            return descriptors;
        }
        i += 1;
    }
    proof {
        if columns.len() > 0 {
            reach_goes_on(columns@, columns.len() - 1);
        }
        first_unsupported_is_first(views);
    }
    descriptors
}

} // verus!
