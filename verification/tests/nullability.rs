use sql_ddl_to_schema::ast::{describe_column, describe_within_reach};
use sql_ddl_to_schema::column::{declared_nullability, ColumnDescriptor, ConstraintOption};
use sql_ddl_to_schema::is_column_nullable;
use sqlparser::ast::{
    ColumnDef, ColumnOption, ColumnOptionDef, DataType, Expr, Ident, Statement, Value,
};
use sqlparser::dialect::MySqlDialect;
use sqlparser::parser::Parser;

fn column_with(options: Vec<ColumnOption>) -> ColumnDef {
    ColumnDef {
        name: Ident::new("c"),
        data_type: DataType::Int(None),
        collation: None,
        options: options
            .into_iter()
            .map(|option| ColumnOptionDef { name: None, option })
            .collect(),
    }
}

fn default_zero() -> ColumnOption {
    ColumnOption::Default(Expr::Value(Value::Number(String::from("0"), false)))
}

fn parsed_columns(sql: &str) -> Vec<ColumnDef> {
    let statements = Parser::parse_sql(&MySqlDialect {}, sql).unwrap();
    match statements.into_iter().next().unwrap() {
        Statement::CreateTable { columns, .. } => columns,
        other => panic!("not a table definition: {}", other),
    }
}

#[test]
fn no_options_is_unknown() {
    assert_eq!(declared_nullability(&vec![]), None);
    assert_eq!(is_column_nullable(&column_with(vec![])), None);
}

#[test]
fn options_without_marker_are_unknown() {
    assert_eq!(declared_nullability(&vec![ConstraintOption::Other]), None);
    assert_eq!(
        declared_nullability(&vec![ConstraintOption::Other, ConstraintOption::Other]),
        None
    );
    assert_eq!(
        is_column_nullable(&column_with(vec![
            default_zero(),
            ColumnOption::Unique { is_primary: true },
            ColumnOption::Comment(String::from("not null")),
        ])),
        None
    );
}

#[test]
fn null_marker_is_nullable() {
    assert_eq!(declared_nullability(&vec![ConstraintOption::Null]), Some(true));
    assert_eq!(is_column_nullable(&column_with(vec![ColumnOption::Null])), Some(true));
}

#[test]
fn not_null_marker_is_not_nullable() {
    assert_eq!(declared_nullability(&vec![ConstraintOption::NotNull]), Some(false));
    assert_eq!(is_column_nullable(&column_with(vec![ColumnOption::NotNull])), Some(false));
}

#[test]
fn marker_is_found_after_other_options() {
    assert_eq!(
        declared_nullability(&vec![
            ConstraintOption::Other,
            ConstraintOption::Other,
            ConstraintOption::NotNull,
        ]),
        Some(false)
    );
    assert_eq!(
        is_column_nullable(&column_with(vec![
            default_zero(),
            ColumnOption::Unique { is_primary: false },
            ColumnOption::Null,
            default_zero(),
        ])),
        Some(true)
    );
}

#[test]
fn first_of_two_conflicting_markers_wins() {
    assert_eq!(
        declared_nullability(&vec![ConstraintOption::Null, ConstraintOption::NotNull]),
        Some(true)
    );
    assert_eq!(
        declared_nullability(&vec![
            ConstraintOption::Other,
            ConstraintOption::NotNull,
            ConstraintOption::Null,
        ]),
        Some(false)
    );
    assert_eq!(
        is_column_nullable(&column_with(vec![ColumnOption::Null, ColumnOption::NotNull])),
        Some(true)
    );
    assert_eq!(
        is_column_nullable(&column_with(vec![
            default_zero(),
            ColumnOption::NotNull,
            ColumnOption::Null,
        ])),
        Some(false)
    );
}

#[test]
fn nullability_of_parsed_columns() {
    let columns = parsed_columns(
        "CREATE TABLE t (a int, b int null, c int not null, d int default 0 not null, \
         e int primary key)",
    );
    assert_eq!(columns.len(), 5);
    assert_eq!(is_column_nullable(&columns[0]), None);
    assert_eq!(is_column_nullable(&columns[1]), Some(true));
    assert_eq!(is_column_nullable(&columns[2]), Some(false));
    assert_eq!(is_column_nullable(&columns[3]), Some(false));
    assert_eq!(is_column_nullable(&columns[4]), None);
}

#[test]
fn described_column_holds_name_spelling_and_options() {
    let columns = parsed_columns(
        "CREATE TABLE t (`Last Name` varchar(255) default 'x' not null, Height decimal(10,2))",
    );
    let last_name = describe_column(&columns[0]);
    assert_eq!(last_name.name, "Last Name");
    assert_eq!(last_name.type_spelling, "VARCHAR(255)");
    assert_eq!(last_name.options, vec![ConstraintOption::Other, ConstraintOption::NotNull]);
    let height = describe_column(&columns[1]);
    assert_eq!(height.name, "Height");
    assert_eq!(height.type_spelling, "DECIMAL(10,2)");
    assert_eq!(height.options, vec![]);
}

#[test]
fn described_columns_keep_their_order() {
    let columns = parsed_columns("CREATE TABLE t (b int not null, a text, c blob null)");
    assert_eq!(
        describe_within_reach(&columns),
        vec![
            ColumnDescriptor {
                name: String::from("b"),
                type_spelling: String::from("INT"),
                options: vec![ConstraintOption::NotNull],
            },
            ColumnDescriptor {
                name: String::from("a"),
                type_spelling: String::from("TEXT"),
                options: vec![],
            },
            ColumnDescriptor {
                name: String::from("c"),
                type_spelling: String::from("BLOB"),
                options: vec![ConstraintOption::Null],
            },
        ]
    );
    assert_eq!(describe_within_reach(&vec![]), vec![]);
}

#[test]
fn columns_after_the_first_unsupported_one_are_not_described() {
    let columns = parsed_columns("CREATE TABLE t (a int, b blob, c text, d json)");
    assert_eq!(
        describe_within_reach(&columns),
        vec![
            ColumnDescriptor {
                name: String::from("a"),
                type_spelling: String::from("INT"),
                options: vec![],
            },
            ColumnDescriptor {
                name: String::from("b"),
                type_spelling: String::from("BLOB"),
                options: vec![],
            },
        ]
    );
    let columns = parsed_columns("CREATE TABLE t (a uuid, b int)");
    assert_eq!(
        describe_within_reach(&columns),
        vec![ColumnDescriptor {
            name: String::from("a"),
            type_spelling: String::from("UUID"),
            options: vec![],
        }]
    );
}
