use dml_tools::sql::{
    DBObject, FKOn, Field, FieldAttributes, FieldType, ForeignKey, Grant, GrantType, Index,
    ObjectPath, ObjectType, Owner, PrimaryKey, Schema, Table, UniqueKey,
};
use dml_tools::type_writers::Postgresql;
use dml_tools::Loader;
use dml_tools::Processor;

const SERIALIZED: &str = "\
- tag: Schema
  name: my_schema
  owner: rw_user
- tag: Grant
  permission: Usage
  to: ro_user
  on:
    schema: null
    name: my_schema
    otype: Schema
- tag: Table
  path:
    schema: my_schema
    name: my_table
    otype: Table
  fields:
  - name: a_field
    attributes: {}
  fks: null
- tag: Owner
  to: rw_user
  of:
    schema: my_schema
    name: my_table
    otype: Table
- tag: Index
  table:
    schema: my_schema
    name: my_table
    otype: Table
  fields:
  - a_field
  - another_field
- tag: UniqueKey
  name: my_unique_key
  fields:
  - uk_field
  - another_uk_field
- tag: PrimaryKey
  name: my_pk
  fields:
  - pk_field
- tag: ForeignKey
  table:
    schema: schema1
    name: my_table
    otype: Table
  fields:
  - field1
  - field2
  ref_table:
    schema: schema1
    name: my_reftable
    otype: Table
  ref_fields:
  - rfield1
  - rfield2
  on_delete: Restrict
  on_update: Cascade
";

fn one_of_each_kind() -> Vec<DBObject> {
    let table_path = ObjectPath::new_table("my_schema", "my_table");
    let index_fields = vec!["a_field".to_string(), "another_field".to_string()];
    let index = Index::new(&table_path, &index_fields);
    let uk = UniqueKey {
        name: "my_unique_key".to_string(),
        fields: vec!["uk_field".to_string(), "another_uk_field".to_string()],
    };
    let pk = PrimaryKey { name: "my_pk".to_string(), fields: vec!["pk_field".to_string()] };
    let fk = ForeignKey {
        table: ObjectPath::new_table("schema1", "my_table"),
        fields: vec!["field1".to_string(), "field2".to_string()],
        ref_table: ObjectPath::new_table("schema1", "my_reftable"),
        ref_fields: vec!["rfield1".to_string(), "rfield2".to_string()],
        on_delete: FKOn::Restrict,
        on_update: FKOn::Cascade,
    };
    let fields = vec![Field::new("a_field", &FieldAttributes::new(FieldType::Txt))];
    let table = Table::new(&table_path, fields, None).unwrap();
    vec![
        DBObject::Schema(Schema::new("my_schema", "rw_user")),
        DBObject::Grant(Grant::new(
            GrantType::Usage,
            "ro_user",
            &ObjectPath::new_table_only("my_schema"),
        )),
        DBObject::Table(table),
        DBObject::Owner(Owner::new("rw_user", &table_path)),
        DBObject::Index(index),
        DBObject::UniqueKey(uk),
        DBObject::PrimaryKey(pk),
        DBObject::ForeignKey(fk),
    ]
}

#[test]
fn test_deserialization() {
    let loader = Loader::new(SERIALIZED).unwrap();
    let proc = Processor::new_with_objects(loader.objects(), Postgresql {});

    let num_proc_objects = proc.objects().len();
    assert_eq!(num_proc_objects, loader.objects().len());
    assert_eq!(num_proc_objects, 8);
}

#[test]
fn loaded_objects_are_the_ones_described() {
    let loader = Loader::new(SERIALIZED).unwrap();
    let expected = one_of_each_kind();
    assert_eq!(loader.objects().len(), expected.len());
    for (a, b) in loader.objects().iter().zip(expected.iter()) {
        assert_eq!(format!("{:?}", a), format!("{:?}", b));
    }
    match &loader.objects()[1] {
        DBObject::Grant(g) => {
            assert_eq!(g.on.schema, None);
            assert_eq!(g.on.otype, ObjectType::Schema);
            assert_eq!(g.permission, GrantType::Usage);
        }
        other => panic!("not a grant: {:?}", other),
    }
    match &loader.objects()[7] {
        DBObject::ForeignKey(k) => {
            assert_eq!(k.on_delete, FKOn::Restrict);
            assert_eq!(k.on_update, FKOn::Cascade);
        }
        other => panic!("not a foreign key: {:?}", other),
    }
}

#[test]
fn loader_keeps_objects_in_order() {
    let loader = Loader::from_objects(one_of_each_kind());
    let objects = loader.objects();
    assert!(matches!(objects[0], DBObject::Schema(_)));
    assert!(matches!(objects[2], DBObject::Table(_)));
    assert!(matches!(objects[7], DBObject::ForeignKey(_)));
    let proc = Processor::new_with_objects(objects, Postgresql {});
    let copies = proc.objects();
    assert_eq!(copies.len(), objects.len());
    for (a, b) in objects.iter().zip(copies.iter()) {
        assert_eq!(format!("{:?}", a), format!("{:?}", b));
    }
}

#[test]
fn trailing_attachments_give_no_statement() {
    let loader = Loader::new(SERIALIZED).unwrap();
    let proc = Processor::new_with_objects(loader.objects(), Postgresql {});
    let sqls = proc.sql_statements();
    assert_eq!(
        sqls,
        vec![
            "CREATE SCHEMA my_schema AUTHORIZATION rw_user;".to_string(),
            "GRANT USAGE ON SCHEMA my_schema TO ro_user;".to_string(),
            "CREATE TABLE my_schema.my_table (\n  a_field text NULL\n);".to_string(),
            "ALTER TABLE my_schema.my_table OWNER TO rw_user;".to_string(),
            "CREATE INDEX my_table_a_field_another_field_idx ON my_schema.my_table USING btree (a_field,another_field);".to_string(),
        ]
    );
}
