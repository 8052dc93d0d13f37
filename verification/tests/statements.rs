use rapidquery::backend::{PyQueryStatement, PySchemaStatement};
use rapidquery::column::convert::{
    convert_to_column_type, PlainColumn, ScaledColumn, SizedColumn, TypeDeclaration,
};
use rapidquery::column::types::{interval_constant, into_pginterval, PyColumnTypeMeta};
use rapidquery::column::{ColumnFamily, ColumnType, PgInterval, StringLen};
use rapidquery::common::PyAsteriskType;
use rapidquery::index::IndexOptions;
use rapidquery::table::ops::{
    PyAlterTableDropColumnOption, PyAlterTableDropForeignKeyOption, PyAlterTableOptionMeta,
    PyAlterTableRenameColumnOption,
};

#[test]
fn rename_column_option_holds_both_names() {
    let (option, _base) =
        PyAlterTableRenameColumnOption::new("old name".to_string(), "new\"name".to_string());
    assert_eq!(option.from_name(), "old name");
    assert_eq!(option.to_name(), "new\"name");
    assert_eq!(
        option.__repr__(),
        "<AlterTableRenameColumnOption from_name=\"old name\" to_name=\"new\\\"name\">"
    );
}

#[test]
fn drop_column_option_holds_the_name() {
    let (option, base) = PyAlterTableDropColumnOption::new("age".to_string());
    assert_eq!(base, PyAlterTableOptionMeta);
    assert_eq!(option.name(), "age");
    assert_eq!(option.__repr__(), "<AlterTableDropColumnOption \"age\">");
}

#[test]
fn drop_foreign_key_option_holds_the_name() {
    let (option, _base) = PyAlterTableDropForeignKeyOption::new("fk_user\n".to_string());
    assert_eq!(option.name(), "fk_user\n");
    assert_eq!(option.__repr__(), "<AlterTableDropForeignKeyOption \"fk_user\\n\">");
}

#[test]
fn marker_types_are_plain() {
    assert_eq!(PySchemaStatement, PySchemaStatement::default());
    assert_eq!(PyQueryStatement, PyQueryStatement::default());
    assert_eq!(PyAsteriskType {}, PyAsteriskType::default());
    assert_eq!(PyColumnTypeMeta {}, PyColumnTypeMeta::default());
}

#[test]
fn index_options_are_single_bits() {
    assert_eq!(IndexOptions::Primary.bit(), 1);
    assert_eq!(IndexOptions::Unique.bit(), 2);
    assert_eq!(IndexOptions::IfNotExists.bit(), 4);
    assert_eq!(IndexOptions::NullsNotDistinct.bit(), 8);
    let bits = IndexOptions::Unique.apply(0, true);
    let bits = IndexOptions::NullsNotDistinct.apply(bits, true);
    assert_eq!(bits, 10);
    assert!(IndexOptions::Unique.is_set(bits));
    assert!(!IndexOptions::Primary.is_set(bits));
    let bits = IndexOptions::Unique.apply(bits, false);
    assert_eq!(bits, 8);
    assert!(IndexOptions::Primary < IndexOptions::Unique);
}

#[test]
fn interval_constants_count_from_zero() {
    assert_eq!(into_pginterval(0), Ok(PgInterval::Year));
    assert_eq!(into_pginterval(6), Ok(PgInterval::YearToMonth));
    assert_eq!(into_pginterval(12), Ok(PgInterval::MinuteToSecond));
    assert_eq!(into_pginterval(13), Err(()));
    assert_eq!(into_pginterval(255), Err(()));
    for constant in 0..=12u8 {
        assert_eq!(interval_constant(into_pginterval(constant).unwrap()), constant);
    }
}

#[test]
fn plain_declarations_declare_their_type() {
    assert_eq!(
        convert_to_column_type(&TypeDeclaration::Plain(PlainColumn::BigInteger)),
        Some(ColumnType::BigInteger)
    );
    assert_eq!(
        convert_to_column_type(&TypeDeclaration::Plain(PlainColumn::TimestampWithTimeZone)),
        Some(ColumnType::TimestampWithTimeZone)
    );
    assert_eq!(
        convert_to_column_type(&TypeDeclaration::Plain(PlainColumn::LTree)),
        Some(ColumnType::LTree)
    );
    assert_eq!(convert_to_column_type(&TypeDeclaration::Foreign), None);
}

#[test]
fn sized_declarations_default_their_length() {
    let sized = |column, length| convert_to_column_type(&TypeDeclaration::Sized(column, length));
    assert_eq!(sized(SizedColumn::Char, 0), Some(ColumnType::Char(None)));
    assert_eq!(sized(SizedColumn::Char, 3), Some(ColumnType::Char(Some(3))));
    assert_eq!(sized(SizedColumn::String, 0), Some(ColumnType::String(StringLen::Unbounded)));
    assert_eq!(sized(SizedColumn::String, 9), Some(ColumnType::String(StringLen::N(9))));
    assert_eq!(sized(SizedColumn::Binary, 0), Some(ColumnType::Binary(1)));
    assert_eq!(sized(SizedColumn::Binary, 16), Some(ColumnType::Binary(16)));
    assert_eq!(sized(SizedColumn::VarBinary, 0), Some(ColumnType::VarBinary(StringLen::Unbounded)));
    assert_eq!(sized(SizedColumn::Bit, 0), Some(ColumnType::Bit(None)));
    assert_eq!(sized(SizedColumn::VarBit, 0), Some(ColumnType::VarBit(1)));
    assert_eq!(sized(SizedColumn::VarBit, 7), Some(ColumnType::VarBit(7)));
    assert_eq!(sized(SizedColumn::Vector, 3), Some(ColumnType::Vector(Some(3))));
}

#[test]
fn scaled_declarations_need_both_numbers() {
    let scaled = |column, p, s| convert_to_column_type(&TypeDeclaration::Scaled(column, p, s));
    assert_eq!(scaled(ScaledColumn::Decimal, 10, 2), Some(ColumnType::Decimal(Some((10, 2)))));
    assert_eq!(scaled(ScaledColumn::Decimal, 10, 0), Some(ColumnType::Decimal(None)));
    assert_eq!(scaled(ScaledColumn::Money, 0, 2), Some(ColumnType::Money(None)));
    assert_eq!(scaled(ScaledColumn::Money, 19, 4), Some(ColumnType::Money(Some((19, 4)))));
}

#[test]
fn compound_declarations_declare_compound_types() {
    let mood = TypeDeclaration::Enum {
        name: "mood".to_string(),
        variants: vec!["happy".to_string(), "sad".to_string()],
    };
    assert_eq!(
        convert_to_column_type(&mood),
        Some(ColumnType::Enum {
            name: "mood".to_string(),
            variants: vec!["happy".to_string(), "sad".to_string()],
        })
    );
    let interval = TypeDeclaration::Interval(Some(PgInterval::Day), Some(3));
    assert_eq!(
        convert_to_column_type(&interval),
        Some(ColumnType::Interval(Some(PgInterval::Day), Some(3)))
    );
    let array = TypeDeclaration::Array(Box::new(TypeDeclaration::Array(Box::new(mood))));
    let ty = convert_to_column_type(&array).unwrap();
    assert_eq!(ty.family(), ColumnFamily::Array);
    assert!(ty.is_supported());
    assert_eq!(ty.clone(), ty);
    let foreign = TypeDeclaration::Array(Box::new(TypeDeclaration::Foreign));
    assert_eq!(convert_to_column_type(&foreign), None);
}

#[test]
fn custom_types_are_not_supported() {
    let custom = ColumnType::Custom("geometry".to_string());
    assert_eq!(custom.family(), ColumnFamily::Custom);
    assert!(!custom.is_supported());
    assert!(!ColumnType::Array(Box::new(custom)).is_supported());
    assert!(ColumnType::Array(Box::new(ColumnType::Json)).is_supported());
    assert_eq!(ColumnType::Year.family(), ColumnFamily::Signed);
    assert_eq!(ColumnType::Interval(None, None).family(), ColumnFamily::Text);
    assert_eq!(ColumnType::VarBit(1).family(), ColumnFamily::Binary);
}

#[test]
fn enumerated_types_hold_their_variants_sorted_and_once() {
    let variants = vec!["sad", "happy", "sad", "Zed", "happy", "h\u{e4}ppy", "ha"];
    let made = TypeDeclaration::enumeration(
        "mood".to_string(),
        variants.iter().map(|v| v.to_string()).collect(),
    );
    assert_eq!(
        made,
        Ok(TypeDeclaration::Enum {
            name: "mood".to_string(),
            variants: vec!["Zed", "ha", "happy", "h\u{e4}ppy", "sad"]
                .iter()
                .map(|v| v.to_string())
                .collect(),
        })
    );
    let one = TypeDeclaration::enumeration("one".to_string(), vec!["x".to_string()]);
    assert_eq!(
        one,
        Ok(TypeDeclaration::Enum { name: "one".to_string(), variants: vec!["x".to_string()] })
    );
}

#[test]
fn enumerated_types_need_a_variant() {
    assert_eq!(
        TypeDeclaration::enumeration("mood".to_string(), vec![]),
        Err("variants cannot be empty".to_string())
    );
}
