//! Columns of a table definition as plain values, and the nullability that
//! their constraint options declare.

use vstd::prelude::*;

verus! {

/// What one constraint option of a column says about nullability.
#[derive(Debug, Clone, Copy, PartialEq, Eq, Structural)]
pub enum ConstraintOption {
    /// The explicit marker that the column accepts nulls.
    Null,
    /// The explicit marker that the column rejects nulls.
    NotNull,
    /// Any option that says nothing about nulls.
    Other,
}

/// One column of a table definition: its name, the spelling of its type and
/// its constraint options in declaration order.
#[derive(Debug, PartialEq, Eq)]
pub struct ColumnDescriptor {
    pub name: String,
    pub type_spelling: String,
    pub options: Vec<ConstraintOption>,
}

/// A column descriptor as mathematical data.
pub struct ColumnDescriptorView {
    pub name: Seq<char>,
    pub type_spelling: Seq<char>,
    pub options: Seq<ConstraintOption>,
}

impl View for ColumnDescriptor {
    type V = ColumnDescriptorView;

    open spec fn view(&self) -> ColumnDescriptorView {
        ColumnDescriptorView {
            name: self.name@,
            type_spelling: self.type_spelling@,
            options: self.options@,
        }
    }
}

/// The explicit nullability that a list of constraint options declares: that
/// of its first marker, or `None` where it holds no marker.
pub open spec fn explicit_nullability(options: Seq<ConstraintOption>) -> Option<bool>
    decreases options.len(),
{
    if options.len() == 0 {
        None
    } else {
        match options[0] {
            ConstraintOption::Null => Some(true),
            ConstraintOption::NotNull => Some(false),
            ConstraintOption::Other => explicit_nullability(options.drop_first()),
        }
    }
}

/// The first marker of a list decides, whatever follows it.
pub proof fn first_marker_decides(options: Seq<ConstraintOption>, index: int)
    requires
        0 <= index < options.len(),
        options[index] != ConstraintOption::Other,
        forall|j: int| 0 <= j < index ==> options[j] == ConstraintOption::Other,
    ensures
        explicit_nullability(options) == Some(options[index] == ConstraintOption::Null),
    decreases index,
{
    if index > 0 {
        let rest = options.drop_first();
        first_marker_decides(rest, index - 1);
    }
}

/// A list without a marker declares nothing, and only such a list.
pub proof fn unmarked_iff_unknown(options: Seq<ConstraintOption>)
    ensures
        explicit_nullability(options) is None <==> forall|j: int|
            0 <= j < options.len() ==> options[j] == ConstraintOption::Other,
    decreases options.len(),
{
    if options.len() > 0 {
        let rest = options.drop_first();
        unmarked_iff_unknown(rest);
        if explicit_nullability(options) is None {
            assert forall|j: int| 0 <= j < options.len() implies options[j]
                == ConstraintOption::Other by {
                if j > 0 {
                    assert(rest[j - 1] == options[j]);
                }
            }
        }
    }
}

/// The explicit nullability that constraint options declare: `Some(true)`
/// where their first marker is `Null`, `Some(false)` where it is `NotNull`,
/// `None` where they hold no marker. Options after the first marker are not
/// looked at, so a later, conflicting marker is passed over.
pub fn declared_nullability(options: &Vec<ConstraintOption>) -> (nullable: Option<bool>)
    ensures
        nullable == explicit_nullability(options@),
{
    let mut i: usize = 0;
    assert(options@.skip(0) == options@);
    while i < options.len()
        invariant
            i <= options.len(),
            explicit_nullability(options@) == explicit_nullability(options@.skip(i as int)),
        decreases options.len() - i,
    {
        let ghost rest = options@.skip(i as int);
        assert(rest.drop_first() == options@.skip(i + 1));
        match options[i] {
            ConstraintOption::Null => {
                return Some(true);
            },
            ConstraintOption::NotNull => {
                return Some(false);
            },
            ConstraintOption::Other => {},
        }
        i += 1;
    }
    None
}

/// The views of a list of columns.
pub open spec fn column_views(columns: Seq<ColumnDescriptor>) -> Seq<ColumnDescriptorView> {
    columns.map_values(|column: ColumnDescriptor| column@)
}

} // verus!
