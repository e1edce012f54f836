//! The descriptor of one column in a schema, and the record it renders as.

use crate::property_type::PropertyType;
use vstd::prelude::*;

verus! {

/// The type of a column and what is known of its nullability. `nullable` is
/// `None` where the column definition has no explicit marker: nothing is
/// known, which is not the same as nullable.
#[derive(Debug, Clone, Copy, PartialEq, Eq)]
pub struct PropertyItem {
    pub data_type: PropertyType,
    pub nullable: Option<bool>,
}

/// The value of one field of a rendered record.
#[derive(Debug, PartialEq, Eq)]
pub enum FieldValue {
    Text(String),
    Flag(bool),
}

/// A field value as mathematical data.
pub enum FieldValueView {
    Text(Seq<char>),
    Flag(bool),
}

impl View for FieldValue {
    type V = FieldValueView;

    open spec fn view(&self) -> FieldValueView {
        match self {
            FieldValue::Text(text) => FieldValueView::Text(text@),
            FieldValue::Flag(flag) => FieldValueView::Flag(*flag),
        }
    }
}

/// One field of a rendered record: the key it is labelled with and its value.
#[derive(Debug, PartialEq, Eq)]
pub struct RecordField {
    pub key: String,
    pub value: FieldValue,
}

/// A rendered record as mathematical data: its fields in order, each a key
/// with its value.
pub type Record = Seq<(Seq<char>, FieldValueView)>;

impl View for RecordField {
    type V = (Seq<char>, FieldValueView);

    open spec fn view(&self) -> (Seq<char>, FieldValueView) {
        (self.key@, self.value@)
    }
}

/// The views of a list of fields.
pub open spec fn field_views(fields: Seq<RecordField>) -> Record {
    fields.map_values(|field: RecordField| field@)
}

/// The value of the first field of a record that is labelled `key`, or
/// `None` where the record has no such field.
pub open spec fn field_value(record: Record, key: Seq<char>) -> Option<FieldValueView> {
    match record.map_values(|field: (Seq<char>, FieldValueView)| field.0).index_of_first(key) {
        Some(index) => Some(record[index].1),
        None => None,
    }
}

impl PropertyItem {
    /// The record that the descriptor renders as. Its first field is
    /// labelled `type` and holds the canonical name of the property type.
    /// A field labelled `nullable` follows where the nullability is known,
    /// and holds it; where it is not known, the record has no such field.
    pub open spec fn rendered(self) -> Record {
        let type_field = ("type"@, FieldValueView::Text(self.data_type.canonical_name()));
        match self.nullable {
            Some(flag) => seq![type_field, ("nullable"@, FieldValueView::Flag(flag))],
            None => seq![type_field],
        }
    }

    /// Renders the descriptor as a record.
    pub fn render(&self) -> (fields: Vec<RecordField>)
        ensures
            field_views(fields@) == self.rendered(),
    {
        let mut fields: Vec<RecordField> = Vec::new();
        fields.push(
            RecordField {
                key: "type".to_owned(),
                value: FieldValue::Text(self.data_type.to_string()),
            },
        );
        match self.nullable {
            Some(flag) => {
                fields.push(
                    RecordField { key: "nullable".to_owned(), value: FieldValue::Flag(flag) },
                );
            },
            None => {},
        }
        fields
    }
}

/// A rendered record always tells the type, under the key `type`. It tells
/// the nullability, under the key `nullable`, exactly when that is known:
/// the field is absent for a descriptor whose nullability is unknown.
pub proof fn rendered_record_fields(item: PropertyItem)
    ensures
        field_value(item.rendered(), "type"@) == Some(
            FieldValueView::Text(item.data_type.canonical_name()),
        ),
        item.nullable matches Some(flag) ==> field_value(item.rendered(), "nullable"@) == Some(
            FieldValueView::Flag(flag),
        ),
        item.nullable is None ==> field_value(item.rendered(), "nullable"@) is None,
{
    reveal_strlit("type");
    reveal_strlit("nullable");
    let record = item.rendered();
    let keys = record.map_values(|field: (Seq<char>, FieldValueView)| field.0);
    assert("type"@ != "nullable"@) by {
        assert("type"@.len() != "nullable"@.len());
    }
    assert(keys[0] == "type"@);
    keys.index_of_first_ensures("type"@);
    keys.index_of_first_ensures("nullable"@);
    if item.nullable is Some {
        assert(keys[1] == "nullable"@);
    }
}

} // verus!
