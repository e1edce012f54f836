use sql_ddl_to_schema::error::TranslationError;
use sql_ddl_to_schema::property_type::PropertyType;

fn classify(spelling: &str) -> Result<PropertyType, TranslationError> {
    PropertyType::from_mysql_column_definition(spelling)
}

fn unsupported(spelling: &str) -> Result<PropertyType, TranslationError> {
    Err(TranslationError::UnsupportedType(String::from(spelling)))
}

#[test]
fn tinyint_1_is_boolean() {
    assert_eq!(classify("TINYINT(1)"), Ok(PropertyType::Boolean));
    assert_eq!(classify("tinyint(1)"), Ok(PropertyType::Boolean));
    assert_eq!(classify("TinyInt(1)"), Ok(PropertyType::Boolean));
}

#[test]
fn other_tinyint_spellings_are_integers() {
    assert_eq!(classify("TINYINT(4)"), Ok(PropertyType::Integer));
    assert_eq!(classify("TINYINT"), Ok(PropertyType::Integer));
    assert_eq!(classify("tinyint(10)"), Ok(PropertyType::Integer));
    assert_eq!(classify("TINYINT(1) UNSIGNED"), Ok(PropertyType::Integer));
    assert_eq!(classify("TINYINT(1) "), Ok(PropertyType::Integer));
    assert_eq!(classify("TINYINT(1"), Ok(PropertyType::Integer));
}

#[test]
fn integer_families_by_prefix() {
    assert_eq!(classify("INT"), Ok(PropertyType::Integer));
    assert_eq!(classify("INT(11)"), Ok(PropertyType::Integer));
    assert_eq!(classify("INT UNSIGNED"), Ok(PropertyType::Integer));
    assert_eq!(classify("INTEGER"), Ok(PropertyType::Integer));
    assert_eq!(classify("BIGINT"), Ok(PropertyType::Integer));
    assert_eq!(classify("BIGINT(20)"), Ok(PropertyType::Integer));
    assert_eq!(classify("SMALLINT"), Ok(PropertyType::Integer));
    assert_eq!(classify("SMALLINT(5) UNSIGNED"), Ok(PropertyType::Integer));
}

#[test]
fn fractional_families_by_prefix() {
    assert_eq!(classify("DECIMAL"), Ok(PropertyType::Number));
    assert_eq!(classify("DECIMAL(10,2)"), Ok(PropertyType::Number));
    assert_eq!(classify("FLOAT"), Ok(PropertyType::Number));
    assert_eq!(classify("FLOAT(8)"), Ok(PropertyType::Number));
}

#[test]
fn textual_and_temporal_spellings_are_strings() {
    assert_eq!(classify("VARCHAR"), Ok(PropertyType::String));
    assert_eq!(classify("VARCHAR(255)"), Ok(PropertyType::String));
    assert_eq!(classify("TEXT"), Ok(PropertyType::String));
    assert_eq!(classify("LONGTEXT"), Ok(PropertyType::String));
    assert_eq!(classify("MEDIUMTEXT"), Ok(PropertyType::String));
    assert_eq!(classify("DATE"), Ok(PropertyType::String));
    assert_eq!(classify("DATETIME"), Ok(PropertyType::String));
    assert_eq!(classify("TIME"), Ok(PropertyType::String));
    assert_eq!(classify("TIMESTAMP"), Ok(PropertyType::String));
    assert_eq!(classify("TIMESTAMP WITH TIME ZONE"), Ok(PropertyType::String));
    assert_eq!(classify("MY_UPDATE_STAMP"), Ok(PropertyType::String));
}

#[test]
fn classification_is_case_insensitive() {
    assert_eq!(classify("varchar(255)"), classify("VARCHAR(255)"));
    assert_eq!(classify("varchar(255)"), Ok(PropertyType::String));
    assert_eq!(classify("VarChar(255)"), Ok(PropertyType::String));
    assert_eq!(classify("int"), Ok(PropertyType::Integer));
    assert_eq!(classify("bigInt(20)"), Ok(PropertyType::Integer));
    assert_eq!(classify("decimal(10,2)"), Ok(PropertyType::Number));
    assert_eq!(classify("Float"), Ok(PropertyType::Number));
    assert_eq!(classify("longText"), Ok(PropertyType::String));
    assert_eq!(classify("dateTime"), Ok(PropertyType::String));
    assert_eq!(classify("timestamp"), Ok(PropertyType::String));
}

#[test]
fn earlier_rules_take_priority() {
    // An integer prefix wins over a later textual or temporal match.
    assert_eq!(classify("INT_DATE"), Ok(PropertyType::Integer));
    assert_eq!(classify("INTTEXT"), Ok(PropertyType::Integer));
    // A fractional prefix wins over a later temporal match.
    assert_eq!(classify("FLOATTIME"), Ok(PropertyType::Number));
    assert_eq!(classify("DECIMAL TEXT"), Ok(PropertyType::Number));
}

#[test]
fn prefix_rules_do_not_match_inside_or_at_the_end() {
    assert_eq!(classify("MEDIUMINT"), unsupported("MEDIUMINT"));
    assert_eq!(classify("UNSIGNED INT"), unsupported("UNSIGNED INT"));
    assert_eq!(classify(" INT"), unsupported(" INT"));
    assert_eq!(classify("NVARCHAR(10)"), unsupported("NVARCHAR(10)"));
    assert_eq!(classify("DOUBLE"), unsupported("DOUBLE"));
    assert_eq!(classify("IN"), unsupported("IN"));
}

#[test]
fn suffix_rule_does_not_match_at_the_start_or_inside() {
    assert_eq!(classify("TEXTUAL"), unsupported("TEXTUAL"));
    assert_eq!(classify("TEXT(10)"), unsupported("TEXT(10)"));
    assert_eq!(classify("EXT"), unsupported("EXT"));
}

#[test]
fn substring_rules_match_anywhere() {
    assert_eq!(classify("XDATEX"), Ok(PropertyType::String));
    assert_eq!(classify("XXTIME"), Ok(PropertyType::String));
    assert_eq!(classify("TIMEXX"), Ok(PropertyType::String));
    assert_eq!(classify("DAT"), unsupported("DAT"));
    assert_eq!(classify("TIM"), unsupported("TIM"));
    assert_eq!(classify("DA TE"), unsupported("DA TE"));
}

#[test]
fn unsupported_spelling_is_carried_unmodified() {
    assert_eq!(classify("Blob"), unsupported("Blob"));
    assert_eq!(classify("boolean"), unsupported("boolean"));
    assert_eq!(classify("NUMERIC(10,2)"), unsupported("NUMERIC(10,2)"));
    assert_eq!(classify("geometry"), unsupported("geometry"));
    assert_eq!(classify("  json  "), unsupported("  json  "));
}

#[test]
fn empty_spelling_is_unsupported() {
    assert_eq!(classify(""), unsupported(""));
}

#[test]
fn only_ascii_letters_are_folded() {
    // U+0131, the dotless i, is no ASCII letter: it stays as it is.
    assert_eq!(classify("\u{131}nt"), unsupported("\u{131}nt"));
    // U+FF29, the full-width I, is no ASCII letter either.
    assert_eq!(classify("\u{ff29}NT"), unsupported("\u{ff29}NT"));
    // Characters wider than one byte do not disturb the search around them.
    assert_eq!(classify("\u{e9}t\u{e9} date"), Ok(PropertyType::String));
    assert_eq!(classify("\u{1f600}text"), Ok(PropertyType::String));
    assert_eq!(classify("int\u{1f600}"), Ok(PropertyType::Integer));
}

#[test]
fn characters_next_to_the_letters_are_not_folded() {
    // '`' and '{' stand just outside 'a'..='z', '@' and '[' outside 'A'..='Z'.
    assert_eq!(classify("`NT"), unsupported("`NT"));
    assert_eq!(classify("{NT"), unsupported("{NT"));
    assert_eq!(classify("@NT"), unsupported("@NT"));
    assert_eq!(classify("[NT"), unsupported("[NT"));
    assert_eq!(classify("azAZ int"), unsupported("azAZ int"));
    assert_eq!(classify("zdatez"), Ok(PropertyType::String));
}

#[test]
fn canonical_names() {
    assert_eq!(PropertyType::String.to_string(), "string");
    assert_eq!(PropertyType::Number.to_string(), "number");
    assert_eq!(PropertyType::Integer.to_string(), "integer");
    assert_eq!(PropertyType::Boolean.to_string(), "boolean");
}
