use dml_tools::assign::AsgFields;
use dml_tools::sql::{
    DBObject, FKOn, Field, FieldAttributes, FieldType, ForeignKey, ObjectPath, PrimaryKey, Table,
    TableError, UniqueKey,
};
use dml_tools::type_writers::{Mysql, Postgresql, Sqlite};

const TEST_TABLES: &str = "\
basic:
  id:
    primary_key: true
    empty: false
  pk: {}
  ws:
    primary_key: true
  gallo:
    type: int
    roster: true
    index: true
  vivo:
    type: bool
    defval: 'true'
    index: true
  tel:
    meta_name: TEL
";

const TEST_TABLE_SQL: &str = "CREATE TABLE demo.prueba (
  id text NOT NULL,
  pk text NULL,
  ws text NULL,
  gallo int NULL,
  vivo bool NULL DEFAULT true,
  tel text NULL,
  CONSTRAINT prueba_id_ws_pk PRIMARY KEY (id,ws),
  CONSTRAINT prueba_cache_ws_id_user_id_fk FOREIGN KEY (ws_id,user_id) REFERENCES demo.cache (ws,user) ON DELETE RESTRICT ON UPDATE RESTRICT
);";

const TEST_TABLE_IDX_SQL: &str =
    "CREATE INDEX prueba_gallo_vivo_idx ON demo.prueba USING btree (gallo,vivo);";

fn demo_key(table_path: &ObjectPath) -> ForeignKey {
    ForeignKey {
        table: table_path.to_owned(),
        fields: vec!["ws_id".to_owned(), "user_id".to_owned()],
        ref_table: ObjectPath::new_table("demo", "cache"),
        ref_fields: vec!["ws".to_owned(), "user".to_owned()],
        on_delete: FKOn::Restrict,
        on_update: FKOn::Restrict,
    }
}

#[test]
fn test_tables() {
    let afields = AsgFields::from_yaml(TEST_TABLES).expect("to open test-tables.yaml");
    let fields = afields.basic;
    let table_path = ObjectPath::new_table("demo", "prueba");
    let fk = demo_key(&table_path);
    let tbl = Table::new(&table_path, fields, Some(vec![fk])).unwrap();
    let type_writer = Box::new(Postgresql {});
    let (left, right) = (tbl.to_sql(type_writer.as_ref()), TEST_TABLE_SQL.to_string());
    assert_eq!(left, right);
    let indexes = tbl.indexes().expect("indexed fields");
    assert_eq!(indexes.len(), 1);
    assert_eq!(indexes[0].to_sql(type_writer.as_ref()), TEST_TABLE_IDX_SQL);
}

#[test]
fn table_without_indexed_fields_has_no_index() {
    let fields = vec![
        Field::new("a", &FieldAttributes::new(FieldType::Int)),
        Field::new("b", &FieldAttributes::new_pk(FieldType::Int)),
    ];
    let tbl = Table::new(&ObjectPath::new_table("s", "t"), fields, None).unwrap();
    assert!(tbl.indexes().is_none());
}

#[test]
fn auto_increment_primary_key_follows_the_dialect() {
    let fields = vec![
        Field::new("id", &FieldAttributes::new_pk(FieldType::AutoInc)),
        Field::new("ws", &FieldAttributes::new_pk(FieldType::Txt)),
    ];
    let tbl = Table::new(&ObjectPath::new_table("demo", "t"), fields, None).unwrap();
    assert_eq!(
        tbl.to_sql(&Postgresql {}),
        "CREATE TABLE demo.t (\n  id serial NOT NULL,\n  ws text NOT NULL,\n  CONSTRAINT t_id_ws_pk PRIMARY KEY (id,ws)\n);"
    );
    assert_eq!(
        tbl.to_sql(&Mysql {}),
        "CREATE TABLE demo.t (\n  id integer auto_increment NOT NULL,\n  ws text NOT NULL,\n  CONSTRAINT t_id_ws_pk PRIMARY KEY (id,ws)\n);"
    );
    assert_eq!(
        tbl.to_sql(&Sqlite {}),
        "CREATE TABLE t (\n  id integer primary key autoincrement NOT NULL,\n  ws text NOT NULL,\n  CONSTRAINT t_ws_pk PRIMARY KEY (ws)\n);"
    );
}

#[test]
fn lone_auto_increment_primary_key_gives_no_clause_in_sqlite() {
    let fields = vec![Field::new("id", &FieldAttributes::new_pk(FieldType::AutoInc))];
    let tbl = Table::new(&ObjectPath::new_table("demo", "t"), fields, None).unwrap();
    assert_eq!(
        tbl.to_sql(&Sqlite {}),
        "CREATE TABLE t (\n  id integer primary key autoincrement NOT NULL\n);"
    );
    assert_eq!(
        tbl.to_sql(&Postgresql {}),
        "CREATE TABLE demo.t (\n  id serial NOT NULL,\n  CONSTRAINT t_id_pk PRIMARY KEY (id)\n);"
    );
}

#[test]
fn unique_key_follows_primary_key() {
    let fields = vec![
        Field::new("workspace", &FieldAttributes::new_uk_pk(FieldType::Txt)),
        Field::new("user_name", &FieldAttributes::new_uk(FieldType::Txt)),
    ];
    let tbl = Table::new(&ObjectPath::new_table("my_schema", "users"), fields, None).unwrap();
    assert_eq!(
        tbl.to_sql(&Postgresql {}),
        "CREATE TABLE my_schema.users (\n  workspace text NOT NULL,\n  user_name text NULL,\n  CONSTRAINT users_workspace_pk PRIMARY KEY (workspace),\n  CONSTRAINT users_workspace_user_name_uk UNIQUE (workspace,user_name)\n);"
    );
}

#[test]
fn duplicate_field_names_are_rejected() {
    let fields = vec![
        Field::new("a", &FieldAttributes::new(FieldType::Int)),
        Field::new("b", &FieldAttributes::new(FieldType::Int)),
        Field::new("a", &FieldAttributes::new(FieldType::Txt)),
        Field::new("c", &FieldAttributes::new(FieldType::Txt)),
        Field::new("b", &FieldAttributes::new(FieldType::Txt)),
        Field::new("a", &FieldAttributes::new(FieldType::Txt)),
    ];
    match Table::new(&ObjectPath::new_table("demo", "t"), fields, None) {
        Err(TableError::DuplicateFields { table, fields }) => {
            assert_eq!(table, "demo.t");
            assert_eq!(fields, vec!["a".to_string(), "b".to_string(), "a".to_string()]);
        }
        other => panic!("not rejected for duplicates: {:?}", other),
    }
}

#[test]
fn foreign_key_of_another_table_is_rejected() {
    let path = ObjectPath::new_table("demo", "prueba");
    let good = demo_key(&path);
    let bad = demo_key(&ObjectPath::new_table("demo", "other"));
    let worse = demo_key(&ObjectPath::new_table("elsewhere", "prueba"));
    let fields = vec![Field::new("a", &FieldAttributes::new(FieldType::Int))];
    match Table::new(&path, fields, Some(vec![good, bad, worse])) {
        Err(TableError::ForeignKeyMismatch { table, foreign_key }) => {
            assert_eq!(table, "demo.prueba");
            assert_eq!(foreign_key, "demo.other");
        }
        other => panic!("not rejected for its foreign key: {:?}", other),
    }
}

#[test]
fn duplicates_are_reported_before_foreign_keys() {
    let path = ObjectPath::new_table("demo", "prueba");
    let bad = demo_key(&ObjectPath::new_table("demo", "other"));
    let fields = vec![
        Field::new("a", &FieldAttributes::new(FieldType::Int)),
        Field::new("a", &FieldAttributes::new(FieldType::Int)),
    ];
    let error = Table::new(&path, fields, Some(vec![bad])).unwrap_err();
    assert!(matches!(error, TableError::DuplicateFields { .. }));
    assert_eq!(error.to_string(), "demo.prueba has duplicated fields: a");
}

#[test]
fn table_error_messages() {
    let e = TableError::DuplicateFields {
        table: "demo.t".to_string(),
        fields: vec!["a".to_string(), "b".to_string()],
    };
    assert_eq!(e.to_string(), "demo.t has duplicated fields: a, b");
    let e = TableError::ForeignKeyMismatch {
        table: "demo.t".to_string(),
        foreign_key: "demo.u".to_string(),
    };
    assert_eq!(e.to_string(), "demo.u is not a valid fk for demo.t");
}

#[test]
fn kind_of_the_foreign_key_path_counts() {
    let path = ObjectPath::new_table("demo", "prueba");
    let as_sequence = demo_key(&ObjectPath::new_sequence("demo", "prueba"));
    let fields = vec![Field::new("a", &FieldAttributes::new(FieldType::Int))];
    assert!(Table::new(&path, fields, Some(vec![as_sequence])).is_err());
}

#[test]
fn schema_of_the_foreign_key_path_counts() {
    let bare = ObjectPath { schema: None, name: "prueba".to_string(), otype: dml_tools::sql::ObjectType::Table };
    let blank = ObjectPath {
        schema: Some(String::new()),
        name: "prueba".to_string(),
        otype: dml_tools::sql::ObjectType::Table,
    };
    let fields = || vec![Field::new("a", &FieldAttributes::new(FieldType::Int))];
    match Table::new(&bare, fields(), Some(vec![demo_key(&blank)])) {
        Err(TableError::ForeignKeyMismatch { table, foreign_key }) => {
            assert_eq!(table, "prueba");
            assert_eq!(foreign_key, ".prueba");
        }
        other => panic!("not rejected for its foreign key: {:?}", other),
    }
    assert!(Table::new(&blank, fields(), Some(vec![demo_key(&bare)])).is_err());
    let built = Table::new(&bare, fields(), Some(vec![demo_key(&bare)])).unwrap();
    assert!(built.fks.unwrap().iter().all(|k| k.table.is_equal(&built.path)));
    assert!(Table::new(&blank, fields(), Some(vec![demo_key(&blank)])).is_ok());
}

#[test]
fn table_without_fields() {
    let tbl = Table::new(&ObjectPath::new_table("demo", "t"), Vec::new(), None).unwrap();
    assert_eq!(tbl.to_sql(&Postgresql {}), "CREATE TABLE demo.t (\n  \n);");
}

#[test]
fn extra_clauses_follow_the_tables_own_constraints() {
    let path = ObjectPath::new_table("demo", "prueba");
    let fields = vec![Field::new("id", &FieldAttributes::new_pk(FieldType::Int))];
    let tbl = Table::new(&path, fields, None).unwrap();
    let extras = vec!["CHECK (id > 0)".to_string(), "CHECK (id < 9)".to_string()];
    assert_eq!(
        tbl.gen_sql(&Postgresql {}, &extras),
        "CREATE TABLE demo.prueba (\n  id int NOT NULL,\n  CONSTRAINT prueba_id_pk PRIMARY KEY (id),\n  CHECK (id > 0),\n  CHECK (id < 9)\n);"
    );
    assert_eq!(tbl.gen_sql(&Postgresql {}, &Vec::new()), tbl.to_sql(&Postgresql {}));
}

#[test]
fn pending_attachments_are_folded_into_the_table() {
    let path = ObjectPath::new_table("demo", "prueba");
    let fields = vec![Field::new("id", &FieldAttributes::new(FieldType::Int))];
    let tbl = DBObject::Table(Table::new(&path, fields, None).unwrap());
    let delayed = vec![
        DBObject::Field(Field::new("role", &FieldAttributes::new_nn(FieldType::Txt))),
        DBObject::PrimaryKey(PrimaryKey { name: "k".to_string(), fields: vec!["id".to_string()] }),
        DBObject::UniqueKey(UniqueKey {
            name: "u".to_string(),
            fields: vec!["id".to_string(), "role".to_string()],
        }),
        DBObject::ForeignKey(demo_key(&path)),
    ];
    assert!(tbl.is_top_level());
    assert!(delayed.iter().all(|o| !o.is_top_level()));
    assert_eq!(
        tbl.top_level_to_sql(&Sqlite {}, &delayed),
        "CREATE TABLE prueba (\n  id integer NULL,\n  \"role\" text NOT NULL,\n  CONSTRAINT k_pk PRIMARY KEY (id),\n  CONSTRAINT u_uk UNIQUE (id,role),\n  CONSTRAINT prueba_cache_ws_id_user_id_fk FOREIGN KEY (ws_id,user_id) REFERENCES cache (ws,user) ON DELETE RESTRICT ON UPDATE RESTRICT\n);"
    );
    assert_eq!(tbl.top_level_to_sql(&Sqlite {}, &[]), tbl.to_sql(&Sqlite {}));
}

#[test]
fn foreign_key_in_both_forms() {
    let mut key = demo_key(&ObjectPath::new_table("demo", "prueba"));
    key.on_delete = FKOn::Cascade;
    let clause = "CONSTRAINT prueba_cache_ws_id_user_id_fk FOREIGN KEY (ws_id,user_id) REFERENCES demo.cache (ws,user) ON DELETE CASCADE ON UPDATE RESTRICT";
    assert_eq!(key.to_sql(&Postgresql {}), clause);
    assert_eq!(
        key.to_statement(&Postgresql {}),
        format!("ALTER TABLE demo.prueba ADD {};", clause)
    );
    assert_eq!(
        key.to_statement(&Sqlite {}),
        "ALTER TABLE prueba ADD CONSTRAINT prueba_cache_ws_id_user_id_fk FOREIGN KEY (ws_id,user_id) REFERENCES cache (ws,user) ON DELETE CASCADE ON UPDATE RESTRICT;"
    );
}

#[test]
fn keys_render_alike_in_every_dialect() {
    let pk = PrimaryKey { name: "t_a_b".to_string(), fields: vec!["a".to_string(), "b".to_string()] };
    let uk = UniqueKey { name: "t_a".to_string(), fields: vec!["a".to_string()] };
    assert_eq!(pk.to_sql(&Postgresql {}), "CONSTRAINT t_a_b_pk PRIMARY KEY (a,b)");
    assert_eq!(pk.to_sql(&Sqlite {}), "CONSTRAINT t_a_b_pk PRIMARY KEY (a,b)");
    assert_eq!(uk.to_sql(&Mysql {}), "CONSTRAINT t_a_uk UNIQUE (a)");
    let none = PrimaryKey { name: "t".to_string(), fields: Vec::new() };
    assert_eq!(none.to_sql(&Mysql {}), "CONSTRAINT t_pk PRIMARY KEY ()");
}
