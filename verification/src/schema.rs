//! The translation of the columns of a table definition into a schema, and
//! the rendering of a schema for serialization.

use crate::column::{
    column_views, declared_nullability, explicit_nullability, ColumnDescriptor,
    ColumnDescriptorView,
};
use crate::error::{TranslationError, TranslationErrorView};
use crate::mapping::{
    empty_mapping, entries_of, entry_names, entry_views, insert_entry, map_entries, with_entry,
    with_entry_holds_item, with_entry_keeps_others, with_entry_names, Entry,
};
use crate::property_item::{
    field_value, field_views, rendered_record_fields, FieldValueView, PropertyItem, Record,
    RecordField,
};
use crate::property_type::PropertyType;
use linear_map::LinearMap;
use vstd::prelude::*;

verus! {

/// The descriptor that a column translates to, if its type is supported.
pub open spec fn property_of(column: ColumnDescriptorView) -> Option<PropertyItem> {
    match PropertyType::classify(column.type_spelling) {
        Some(data_type) => Some(
            PropertyItem { data_type, nullable: explicit_nullability(column.options) },
        ),
        None => None,
    }
}

/// The index of the first column whose type is not supported.
pub open spec fn first_unsupported(columns: Seq<ColumnDescriptorView>) -> Option<int> {
    columns.map_values(|column: ColumnDescriptorView| property_of(column) is Some).index_of_first(
        false,
    )
}

/// Each column's name with its descriptor, in declaration order. It is
/// meant for columns that are all supported.
pub open spec fn declared_entries(columns: Seq<ColumnDescriptorView>) -> Seq<Entry> {
    columns.map_values(|column: ColumnDescriptorView| (column.name, property_of(column)->0))
}

/// The entries of a mapping in which the declared ones were stored one
/// after the other.
pub open spec fn stored_entries(declared: Seq<Entry>) -> Seq<Entry>
    decreases declared.len(),
{
    if declared.len() == 0 {
        Seq::empty()
    } else {
        with_entry(stored_entries(declared.drop_last()), declared.last().0, declared.last().1)
    }
}

/// What a list of columns translates to: the type spelling of the first
/// unsupported column, or the entries that all of them leave.
pub open spec fn translation(columns: Seq<ColumnDescriptorView>) -> Result<
    Seq<Entry>,
    TranslationErrorView,
> {
    match first_unsupported(columns) {
        Some(index) => Err(TranslationErrorView::UnsupportedType(columns[index].type_spelling)),
        None => Ok(stored_entries(declared_entries(columns))),
    }
}

/// A result of a translation as mathematical data.
pub open spec fn outcome(
    result: Result<LinearMap<String, PropertyItem>, TranslationError>,
) -> Result<Seq<Entry>, TranslationErrorView> {
    match result {
        Ok(map) => Ok(map_entries(map)),
        Err(error) => Err(error@),
    }
}

/// The first unsupported column is unsupported and comes after supported
/// columns only; where there is none, every column is supported.
pub proof fn first_unsupported_is_first(columns: Seq<ColumnDescriptorView>)
    ensures
        first_unsupported(columns) matches Some(index) ==> 0 <= index < columns.len()
            && property_of(columns[index]) is None && forall|j: int|
            0 <= j < index ==> property_of(#[trigger] columns[j]) is Some,
        first_unsupported(columns) is None ==> forall|j: int|
            0 <= j < columns.len() ==> property_of(#[trigger] columns[j]) is Some,
{
    let supported = columns.map_values(
        |column: ColumnDescriptorView| property_of(column) is Some,
    );
    supported.index_of_first_ensures(false);
    match supported.index_of_first(false) {
        Some(index) => {
            assert forall|j: int| 0 <= j < index implies property_of(
                #[trigger] columns[j],
            ) is Some by {
                assert(supported[j] != false);
            }
        },
        None => {
            assert forall|j: int| 0 <= j < columns.len() implies property_of(
                #[trigger] columns[j],
            ) is Some by {
                assert(supported.contains(supported[j]));
            }
        },
    }
}

/// A column whose type matches no classification rule fails the translation
/// of the whole table, whatever the other columns are. The error carries the
/// type spelling of the first such column.
pub proof fn unsupported_column_fails_translation(columns: Seq<ColumnDescriptorView>, index: int)
    requires
        0 <= index < columns.len(),
        PropertyType::classify(columns[index].type_spelling) is None,
    ensures
        first_unsupported(columns) matches Some(first) && 0 <= first <= index && translation(
            columns,
        ) == Err::<Seq<Entry>, TranslationErrorView>(
            TranslationErrorView::UnsupportedType(columns[first].type_spelling),
        ),
{
    first_unsupported_is_first(columns);
}

/// A translation succeeds exactly when every column's type is supported.
pub proof fn translation_succeeds_iff_all_supported(columns: Seq<ColumnDescriptorView>)
    ensures
        translation(columns) is Ok <==> forall|j: int|
            0 <= j < columns.len() ==> PropertyType::classify(
                (#[trigger] columns[j]).type_spelling,
            ) is Some,
{
    first_unsupported_is_first(columns);
}

/// How far into the columns a translation reads: up to the first
/// unsupported column, that one included, or to the end.
pub open spec fn reach(columns: Seq<ColumnDescriptorView>) -> int {
    match first_unsupported(columns) {
        Some(index) => index + 1,
        None => columns.len() as int,
    }
}

/// The columns after the first unsupported one have no part in a
/// translation.
pub proof fn translation_stops_at_its_reach(columns: Seq<ColumnDescriptorView>)
    ensures
        0 <= reach(columns) <= columns.len(),
        translation(columns.take(reach(columns))) == translation(columns),
{
    let read = columns.take(reach(columns));
    first_unsupported_is_first(columns);
    first_unsupported_is_first(read);
    match first_unsupported(columns) {
        Some(index) => {
            assert(read[index] == columns[index]);
            assert forall|j: int| 0 <= j < index implies property_of(
                #[trigger] read[j],
            ) is Some by {
                assert(read[j] == columns[j]);
            }
        },
        None => {
            assert(read =~= columns);
        },
    }
}

/// The names of a list, each at the place of its first occurrence.
pub open spec fn first_occurrences(names: Seq<Seq<char>>) -> Seq<Seq<char>>
    decreases names.len(),
{
    if names.len() == 0 {
        Seq::empty()
    } else if names.drop_last().contains(names.last()) {
        first_occurrences(names.drop_last())
    } else {
        first_occurrences(names.drop_last()).push(names.last())
    }
}

/// Dropping later occurrences neither loses a name nor adds one.
pub proof fn first_occurrences_same_names(names: Seq<Seq<char>>, name: Seq<char>)
    ensures
        first_occurrences(names).contains(name) <==> names.contains(name),
    decreases names.len(),
{
    if names.len() > 0 {
        let earlier = names.drop_last();
        first_occurrences_same_names(earlier, name);
        let kept = first_occurrences(earlier);
        if names.contains(name) {
            let i = choose|i: int| 0 <= i < names.len() && names[i] == name;
            if i < names.len() - 1 {
                assert(earlier[i] == name);
            } else if !earlier.contains(names.last()) {
                assert(kept.push(names.last())[kept.len() as int] == name);
            }
            if kept.contains(name) && !earlier.contains(names.last()) {
                let k = choose|k: int| 0 <= k < kept.len() && kept[k] == name;
                assert(kept.push(names.last())[k] == name);
            }
        }
    }
}

/// No name stands twice among the first occurrences.
pub proof fn first_occurrences_are_distinct(names: Seq<Seq<char>>)
    ensures
        first_occurrences(names).no_duplicates(),
    decreases names.len(),
{
    if names.len() > 0 {
        let earlier = names.drop_last();
        first_occurrences_are_distinct(earlier);
        first_occurrences_same_names(earlier, names.last());
    }
}

/// The names of a mapping are the declared names in the order of their
/// first declaration.
pub proof fn stored_names_follow_declaration(declared: Seq<Entry>)
    ensures
        entry_names(stored_entries(declared)) == first_occurrences(entry_names(declared)),
    decreases declared.len(),
{
    if declared.len() > 0 {
        let earlier = declared.drop_last();
        let last = declared.last();
        stored_names_follow_declaration(earlier);
        with_entry_names(stored_entries(earlier), last.0, last.1);
        first_occurrences_same_names(entry_names(earlier), last.0);
        assert(entry_names(declared).drop_last() =~= entry_names(earlier));
    }
}

/// No name stands twice in a mapping.
pub proof fn stored_names_are_distinct(declared: Seq<Entry>)
    ensures
        entry_names(stored_entries(declared)).no_duplicates(),
{
    stored_names_follow_declaration(declared);
    first_occurrences_are_distinct(entry_names(declared));
}

/// Of the entries declared under one name, the mapping holds the last.
pub proof fn last_declaration_is_stored(declared: Seq<Entry>, index: int)
    requires
        0 <= index < declared.len(),
        forall|j: int|
            index < j < declared.len() ==> (#[trigger] declared[j]).0 != declared[index].0,
    ensures
        stored_entries(declared).contains(declared[index]),
    decreases declared.len(),
{
    let earlier = declared.drop_last();
    let last = declared.last();
    if index == declared.len() - 1 {
        with_entry_holds_item(stored_entries(earlier), last.0, last.1);
    } else {
        last_declaration_is_stored(earlier, index);
        with_entry_keeps_others(stored_entries(earlier), last.0, last.1, declared[index]);
    }
}

/// Entries declared under pairwise different names are stored as they were
/// declared: all of them, in declaration order.
pub proof fn distinct_names_are_stored_in_order(declared: Seq<Entry>)
    requires
        entry_names(declared).no_duplicates(),
    ensures
        stored_entries(declared) == declared,
    decreases declared.len(),
{
    if declared.len() > 0 {
        let earlier = declared.drop_last();
        let last = declared.last();
        let names = entry_names(declared);
        assert forall|i: int, j: int|
            0 <= i < earlier.len() && 0 <= j < earlier.len() && i != j implies entry_names(
            earlier,
        )[i] != entry_names(earlier)[j] by {
            assert(names[i] == entry_names(earlier)[i]);
            assert(names[j] == entry_names(earlier)[j]);
        }
        distinct_names_are_stored_in_order(earlier);
        entry_names(earlier).index_of_first_ensures(last.0);
        if entry_names(earlier).contains(last.0) {
            let i = choose|i: int| 0 <= i < earlier.len() && entry_names(earlier)[i] == last.0;
            assert(names[i] == last.0);
            assert(names[declared.len() - 1] == last.0);
        }
    }
}

/// The order of the columns is the order of the mapping: a translation of
/// columns with pairwise different names holds one entry for each column,
/// in declaration order.
pub proof fn translation_keeps_declaration_order(columns: Seq<ColumnDescriptorView>)
    requires
        translation(columns) is Ok,
        entry_names(declared_entries(columns)).no_duplicates(),
    ensures
        translation(columns) == Ok::<Seq<Entry>, TranslationErrorView>(declared_entries(columns)),
{
    distinct_names_are_stored_in_order(declared_entries(columns));
}

/// Whatever the names of the columns, the names of a translation are those
/// of the columns in the order of their first declaration, each once.
pub proof fn translation_names_follow_declaration(columns: Seq<ColumnDescriptorView>)
    requires
        translation(columns) is Ok,
    ensures
        entry_names(translation(columns)->Ok_0) == first_occurrences(
            entry_names(declared_entries(columns)),
        ),
        entry_names(translation(columns)->Ok_0).no_duplicates(),
{
    stored_names_follow_declaration(declared_entries(columns));
    stored_names_are_distinct(declared_entries(columns));
}

/// Of the columns declared under one name, a translation holds the
/// descriptor of the last.
pub proof fn translation_holds_last_declaration(columns: Seq<ColumnDescriptorView>, index: int)
    requires
        translation(columns) is Ok,
        0 <= index < columns.len(),
        forall|j: int|
            index < j < columns.len() ==> (#[trigger] columns[j]).name != columns[index].name,
    ensures
        translation(columns)->Ok_0.contains((columns[index].name, property_of(columns[index])->0)),
{
    last_declaration_is_stored(declared_entries(columns), index);
}

/// Translates the columns of a table definition into the ordered mapping
/// from column name to property descriptor.
///
/// The columns are taken in declaration order, and each is stored under its
/// name; a name that comes again replaces the descriptor stored under it.
/// The first column whose type is not supported fails the whole translation
/// with `UnsupportedType` and the spelling of that type.
pub fn build_property_list(columns: &Vec<ColumnDescriptor>) -> (result: Result<
    LinearMap<String, PropertyItem>,
    TranslationError,
>)
    ensures
        outcome(result) == translation(column_views(columns@)),
{
    let ghost views = column_views(columns@);
    let ghost declared = declared_entries(views);
    let mut properties = empty_mapping();
    let mut i: usize = 0;
    while i < columns.len()
        invariant
            i <= columns.len(),
            views == column_views(columns@),
            declared == declared_entries(views),
            forall|j: int| 0 <= j < i ==> property_of(#[trigger] views[j]) is Some,
            map_entries(properties) == stored_entries(declared.take(i as int)),
        decreases columns.len() - i,
    {
        let column = &columns[i];
        assert(declared.take(i + 1).drop_last() =~= declared.take(i as int));
        match PropertyType::from_mysql_column_definition(column.type_spelling.as_str()) {
            Ok(data_type) => {
                let nullable = declared_nullability(&column.options);
                let item = PropertyItem { data_type, nullable };
                assert(declared.take(i + 1).last() == (column.name@, item));
                insert_entry(&mut properties, column.name.clone(), item);
            },
            Err(error) => {
                proof {
                    first_unsupported_is_first(views);
                }
                return Err(error);
            },
        }
        i += 1;
    }
    proof {
        first_unsupported_is_first(views);
        assert(declared.take(i as int) =~= declared);
    }
    Ok(properties)
}

/// The nullability that a column declares is the one its record shows: a
/// column without a marker renders without a `nullable` field, and a column
/// with one renders the field with what its first marker says.
pub proof fn column_nullability_is_rendered(column: ColumnDescriptorView)
    requires
        property_of(column) is Some,
    ensures
        explicit_nullability(column.options) matches Some(flag) ==> field_value(
            property_of(column)->0.rendered(),
            "nullable"@,
        ) == Some(FieldValueView::Flag(flag)),
        explicit_nullability(column.options) is None ==> field_value(
            property_of(column)->0.rendered(),
            "nullable"@,
        ) is None,
{
    rendered_record_fields(property_of(column)->0);
}

/// One property of a rendered schema: the column name it is keyed by and
/// the fields of its record.
#[derive(Debug, PartialEq, Eq)]
pub struct RenderedProperty {
    pub name: String,
    pub fields: Vec<RecordField>,
}

impl View for RenderedProperty {
    type V = (Seq<char>, Record);

    open spec fn view(&self) -> (Seq<char>, Record) {
        (self.name@, field_views(self.fields@))
    }
}

/// The views of a list of rendered properties.
pub open spec fn property_views(rendered: Seq<RenderedProperty>) -> Seq<(Seq<char>, Record)> {
    rendered.map_values(|property: RenderedProperty| property@)
}

/// The record that a mapping renders as: one field for each entry, in the
/// order of the entries, keyed by the column name and holding the rendered
/// descriptor.
pub open spec fn rendered_entries(entries: Seq<Entry>) -> Seq<(Seq<char>, Record)> {
    entries.map_values(|entry: Entry| (entry.0, entry.1.rendered()))
}

/// Renders a mapping for serialization, keeping the order of its entries.
pub fn render_property_list(properties: &LinearMap<String, PropertyItem>) -> (rendered: Vec<
    RenderedProperty,
>)
    ensures
        property_views(rendered@) == rendered_entries(map_entries(*properties)),
{
    let entries = entries_of(properties);
    let ghost model = entry_views(entries@);
    let mut rendered: Vec<RenderedProperty> = Vec::new();
    let mut i: usize = 0;
    while i < entries.len()
        invariant
            i <= entries.len(),
            rendered@.len() == i,
            model == entry_views(entries@),
            forall|j: int|
                0 <= j < i ==> (#[trigger] rendered@[j])@ == (model[j].0, model[j].1.rendered()),
        decreases entries.len() - i,
    {
        let name = entries[i].0.clone();
        let fields = entries[i].1.render();
        rendered.push(RenderedProperty { name, fields });
        i += 1;
    }
    rendered
}

} // verus!
