use dml_tools::sql::{Field, FieldAttributes, FieldType, ObjectPath, Table, TypeWriter};
use dml_tools::type_writers::{Mysql, Postgresql, Sqlite};

fn test_table_with_writer_to_string(writer: &dyn TypeWriter) -> String {
    let fields = vec![
        Field::new("id", &FieldAttributes::new_nn(FieldType::AutoInc)),
        Field::new("age", &FieldAttributes::new(FieldType::Int)),
        Field::new("year_of_birth", &FieldAttributes::new(FieldType::BigInt)),
        Field::new("name", &FieldAttributes::new(FieldType::Txt)),
        Field::new("weight", &FieldAttributes::new(FieldType::Dbl)),
        Field::new("is_married", &FieldAttributes::new(FieldType::Bool)),
    ];
    let table = Table::new(&ObjectPath::new_table("myschema", "mytable"), fields, None).unwrap();
    table.to_sql(writer)
}

#[test]
fn writers_test_writer_postgresql() {
    let writer = Box::new(Postgresql {});
    assert_eq!(
        test_table_with_writer_to_string(writer.as_ref()),
        "CREATE TABLE myschema.mytable (
  id serial NOT NULL,
  age int NULL,
  year_of_birth bigint NULL,
  name text NULL,
  weight double precision NULL,
  is_married bool NULL
);"
    );
}

#[test]
fn writers_test_writer_mysql() {
    let writer = Box::new(Mysql {});
    assert_eq!(
        test_table_with_writer_to_string(writer.as_ref()),
        "CREATE TABLE myschema.mytable (
  id integer auto_increment NOT NULL,
  age int NULL,
  year_of_birth bigint NULL,
  name text NULL,
  weight double NULL,
  is_married bit NULL
);"
    );
}

#[test]
fn writers_test_writer_sqlite() {
    let writer = Box::new(Sqlite {});
    assert_eq!(
        test_table_with_writer_to_string(writer.as_ref()),
        "CREATE TABLE mytable (
  id integer primary key autoincrement NOT NULL,
  age integer NULL,
  year_of_birth integer NULL,
  name text NULL,
  weight real NULL,
  is_married integer NULL
);"
    );
}

#[test]
fn boxed_dialect_renders_as_the_dialect_it_holds() {
    let boxed: Box<dyn TypeWriter> = Box::new(Sqlite {});
    assert_eq!(
        test_table_with_writer_to_string(&boxed),
        test_table_with_writer_to_string(&Sqlite {})
    );
    assert_eq!(boxed.id(), "sqlite");
    assert_eq!(boxed.schema(&ObjectPath::new_table("a", "b")), "b");
    assert_eq!(Postgresql {}.schema(&ObjectPath::new_table("a", "b")), "a.b");
    assert_eq!(Mysql {}.schema(&ObjectPath::new_table_only("b")), "b");
}
