use dml_tools::assign::AsgRoles;
use dml_tools::generators::Generator;
use dml_tools::sql::{
    DBObject, Field, FieldAttributes, FieldType, Grant, GrantType, Index, ObjectPath, Owner,
    PrimaryKey, Schema, Table, TypeWriter,
};
use dml_tools::type_writers::{Mysql, Postgresql, Sqlite};
use dml_tools::Loader;
use dml_tools::Processor;

const NUM_STATEMENTS: usize = 18;

fn my_roles() -> AsgRoles {
    AsgRoles { rw: "rw_user".into(), ro: "ro_user".into(), upd: "upd_user".into() }
}

fn fill<W: TypeWriter>(proc: &mut Processor<W>) {
    assert_eq!(proc.objects().len(), 0);
    let roles = my_roles();
    let my_schema = String::from("my_schema");
    let schema = Schema::new(&my_schema, &roles.rw);
    let oschema = ObjectPath::new_table_only(&schema.name);
    proc.add(DBObject::Schema(schema));

    proc.add_grant(GrantType::All, &roles.rw, &oschema);
    proc.add_grant(GrantType::Usage, &roles.upd, &oschema);
    proc.add_grant(GrantType::Usage, &roles.ro, &oschema);

    let u_fields = vec![
        Field::new("workspace", &FieldAttributes::new_uk(FieldType::Txt)),
        Field::new("is_archived", &FieldAttributes::new(FieldType::Bool)),
        Field::new("creation_date", &FieldAttributes::new_nn(FieldType::Txt)),
        Field::new("user_id", &FieldAttributes::new_nn(FieldType::Txt)),
        Field::new("user_name", &FieldAttributes::new_uk(FieldType::Txt)),
        Field::new("full_name", &FieldAttributes::new(FieldType::Txt)),
        Field::new("role", &FieldAttributes::new_nn(FieldType::Txt)),
        Field::new("is_locked", &FieldAttributes::new_nn(FieldType::Bool)),
        Field::new("email", &FieldAttributes::new(FieldType::Txt)),
        Field::new("phone_number", &FieldAttributes::new(FieldType::Txt)),
        Field::new("supervisor_id", &FieldAttributes::new(FieldType::Txt)),
        Field::new("is_locked_by_supervisor", &FieldAttributes::new_nn_def(FieldType::Bool, "false")),
        Field::new("is_locked_by_headquarters", &FieldAttributes::new_nn_def(FieldType::Bool, "false")),
    ];
    let t_users = Table::new(&ObjectPath::new_table(&my_schema, "users"), u_fields, None).unwrap();
    let users_path = t_users.path.clone();
    proc.add(DBObject::Table(t_users));
    proc.grant_perms(&roles, &users_path);

    let c_fields = vec![
        Field::new("id", &FieldAttributes::new_nn(FieldType::AutoInc)),
        Field::new("pk", &FieldAttributes::new(FieldType::Txt)),
        Field::new("responsible", &FieldAttributes::new_nn(FieldType::Txt)),
        Field::new("responsible_id", &FieldAttributes::new_nn(FieldType::Txt)),
        Field::new("workspace", &FieldAttributes::new_pk(FieldType::Txt)),
        Field::new("survey_id", &FieldAttributes::new_pk(FieldType::Int)),
        Field::new("questionnaire_id", &FieldAttributes::new_nn(FieldType::Txt)),
        Field::new("date_created", &FieldAttributes::new_nn(FieldType::Txt)),
        Field::new("date_updated", &FieldAttributes::new_nn(FieldType::Txt)),
        Field::new("otro", &FieldAttributes::new_meta(FieldType::Int, "4")),
    ];
    let t_cache = Table::new(&ObjectPath::new_table(&my_schema, "cache"), c_fields, None).unwrap();
    let cache_path = t_cache.path.clone();
    proc.add(DBObject::Table(t_cache));
    proc.grant_perms(&roles, &cache_path);

    let o_seq = ObjectPath::new_sequence(&my_schema, "asignaciones_cache_id_seq");
    proc.grant_perms(&roles, &o_seq);
}

fn generate_from_code<W: TypeWriter>(type_writer: W) -> Vec<String> {
    let mut proc = Processor::new(type_writer);
    fill(&mut proc);
    assert_eq!(proc.objects().len(), NUM_STATEMENTS);
    proc.sql_statements()
}

const USERS_PGSQL: &str = "CREATE TABLE my_schema.users (
  workspace text NULL,
  is_archived bool NULL,
  creation_date text NOT NULL,
  user_id text NOT NULL,
  user_name text NULL,
  full_name text NULL,
  \"role\" text NOT NULL,
  is_locked bool NOT NULL,
  email text NULL,
  phone_number text NULL,
  supervisor_id text NULL,
  is_locked_by_supervisor bool NOT NULL DEFAULT false,
  is_locked_by_headquarters bool NOT NULL DEFAULT false,
  CONSTRAINT users_workspace_user_name_uk UNIQUE (workspace,user_name)
);";

const CACHE_PGSQL: &str = "CREATE TABLE my_schema.cache (
  id serial NOT NULL,
  pk text NULL,
  responsible text NOT NULL,
  responsible_id text NOT NULL,
  workspace text NOT NULL,
  survey_id int NOT NULL,
  questionnaire_id text NOT NULL,
  date_created text NOT NULL,
  date_updated text NOT NULL,
  otro int NULL,
  CONSTRAINT cache_workspace_survey_id_pk PRIMARY KEY (workspace,survey_id)
);";

fn expected_pgsql() -> Vec<String> {
    let mut all = vec![
        "CREATE SCHEMA my_schema AUTHORIZATION rw_user;".to_string(),
        "GRANT ALL ON SCHEMA my_schema TO rw_user;".to_string(),
        "GRANT USAGE ON SCHEMA my_schema TO upd_user;".to_string(),
        "GRANT USAGE ON SCHEMA my_schema TO ro_user;".to_string(),
    ];
    for (kind, name, create) in [
        ("TABLE", "my_schema.users", Some(USERS_PGSQL)),
        ("TABLE", "my_schema.cache", Some(CACHE_PGSQL)),
        ("SEQUENCE", "my_schema.asignaciones_cache_id_seq", None),
    ] {
        if let Some(create) = create {
            all.push(create.to_string());
        }
        all.push(format!("ALTER {} {} OWNER TO rw_user;", kind, name));
        all.push(format!("GRANT ALL ON {} {} TO rw_user;", kind, name));
        all.push(format!("GRANT ALL ON {} {} TO upd_user;", kind, name));
        all.push(format!("GRANT SELECT ON {} {} TO ro_user;", kind, name));
    }
    all
}

#[test]
fn test_processor_from_code_mysql() {
    let sqls = generate_from_code(Mysql {});
    let pgsql = expected_pgsql();
    assert_eq!(sqls.len(), NUM_STATEMENTS - 4);
    assert_eq!(sqls[..4], pgsql[..4]);
    assert!(sqls[4].starts_with("CREATE TABLE my_schema.users (\n  workspace text NULL,\n  is_archived bit NULL,"));
    assert_eq!(sqls[5..9], pgsql[5..9]);
    assert!(sqls[9].starts_with("CREATE TABLE my_schema.cache (\n  id integer auto_increment NOT NULL,"));
    assert_eq!(sqls[10..14], pgsql[10..14]);
    assert!(sqls.iter().all(|s| !s.is_empty() && !s.contains("SEQUENCE")));
}

#[test]
fn test_processor_from_code_sqlite() {
    let sqls = generate_from_code(Sqlite {});
    assert_eq!(sqls.len(), 2);
    assert!(sqls[0].starts_with("CREATE TABLE users (\n  workspace text NULL,\n  is_archived integer NULL,"));
    assert!(sqls[0].ends_with(",\n  CONSTRAINT users_workspace_user_name_uk UNIQUE (workspace,user_name)\n);"));
    assert!(sqls[1].starts_with("CREATE TABLE cache (\n  id integer primary key autoincrement NOT NULL,"));
}

#[test]
fn test_processor_from_code_pgsql() {
    let sqls = generate_from_code(Postgresql {});
    assert_eq!(sqls.len(), NUM_STATEMENTS);
    let expected = expected_pgsql();
    for (i, sql) in sqls.iter().enumerate() {
        assert_eq!(sql, &expected[i]);
    }
    assert!(sqls[0].starts_with("CREATE SCHEMA ") && sqls[0].contains(" AUTHORIZATION "));
    for (i, sql) in sqls.iter().enumerate() {
        if sql.starts_with("CREATE TABLE") {
            assert!(sqls[i + 1].starts_with("ALTER TABLE "));
            assert!(sqls[i + 1].contains(" OWNER TO "));
        }
    }
}

#[test]
fn test_processor_from_file() {
    let mut first = Processor::new(Postgresql {});
    fill(&mut first);
    let written = first.serialize_to_yaml().expect("to write proc to file");
    let loader = Loader::new(&written).unwrap();
    let proc = Processor::new_with_objects(loader.objects(), Postgresql {});
    assert_eq!(proc.objects().len(), NUM_STATEMENTS);
    let written_again = proc.serialize_to_yaml().expect("to write comp file");
    assert_eq!(written, written_again);
    assert_eq!(proc.sql_statements(), first.sql_statements());
}

#[test]
fn joined_statements_stand_on_lines_of_their_own() {
    let mut proc = Processor::new(Postgresql {});
    assert_eq!(proc.join_sql_statements(), "");
    proc.add(DBObject::Schema(Schema::new("s", "o")));
    assert_eq!(proc.join_sql_statements(), "CREATE SCHEMA s AUTHORIZATION o;");
    proc.add_owner("o", &ObjectPath::new_table("s", "t"));
    assert_eq!(
        proc.join_sql_statements(),
        "CREATE SCHEMA s AUTHORIZATION o;\nALTER TABLE s.t OWNER TO o;"
    );
    assert_eq!(proc.to_string(), proc.join_sql_statements());
}

#[test]
fn sequence_grant_is_dropped_where_there_are_no_sequences() {
    let seq = ObjectPath::new_sequence("my_schema", "my_seq");
    let grant = Grant::new(GrantType::All, "rw_user", &seq);
    assert_eq!(grant.to_sql(&Postgresql {}), "GRANT ALL ON SEQUENCE my_schema.my_seq TO rw_user;");
    assert_eq!(grant.to_sql(&Mysql {}), "");
    assert_eq!(grant.to_sql(&Sqlite {}), "");
    let owner = Owner::new("rw_user", &seq);
    assert_eq!(owner.to_sql(&Postgresql {}), "ALTER SEQUENCE my_schema.my_seq OWNER TO rw_user;");
    assert_eq!(owner.to_sql(&Mysql {}), "");
    assert_eq!(owner.to_sql(&Sqlite {}), "");

    let mut pg = Processor::new(Postgresql {});
    pg.add(DBObject::Grant(grant.clone()));
    assert_eq!(pg.sql_statements(), vec!["GRANT ALL ON SEQUENCE my_schema.my_seq TO rw_user;"]);
    let mut my = Processor::new(Mysql {});
    my.add(DBObject::Grant(grant.clone()));
    assert!(my.sql_statements().is_empty());
    let mut lite = Processor::new(Sqlite {});
    lite.add_all(DBObject::Grant(grant));
    assert!(lite.sql_statements().is_empty());
}

#[test]
fn table_grant_in_mysql_and_sqlite() {
    let table = ObjectPath::new_table("s", "t");
    let grant = Grant::new(GrantType::Truncate, "u", &table);
    assert_eq!(grant.to_sql(&Mysql {}), "GRANT TRUNCATE ON TABLE s.t TO u;");
    assert_eq!(grant.to_sql(&Sqlite {}), "");
    assert_eq!(Schema::new("s", "o").to_sql(&Sqlite {}), "");
    assert_eq!(Schema::new("s", "o").to_sql(&Mysql {}), "CREATE SCHEMA s AUTHORIZATION o;");
}

#[test]
fn every_permission_has_its_keyword() {
    let all = [
        (GrantType::Select, "SELECT"),
        (GrantType::Insert, "INSERT"),
        (GrantType::Update, "UPDATE"),
        (GrantType::Delete, "DELETE"),
        (GrantType::Truncate, "TRUNCATE"),
        (GrantType::References, "REFERENCES"),
        (GrantType::Trigger, "TRIGGER"),
        (GrantType::All, "ALL"),
        (GrantType::Usage, "USAGE"),
    ];
    for (p, word) in all {
        assert_eq!(p.to_string(), word);
    }
}

#[test]
fn index_statements() {
    let names = vec!["a".to_string(), "b".to_string()];
    let index = Index::new(&ObjectPath::new_table("s", "t"), &names);
    assert_eq!(index.to_sql(&Postgresql {}), "CREATE INDEX t_a_b_idx ON s.t USING btree (a,b);");
    assert_eq!(index.to_sql(&Sqlite {}), "CREATE INDEX t_a_b_idx ON t (a,b);");
    let mut proc = Processor::new(Mysql {});
    proc.add_index(&ObjectPath::new_table("s", "t"), &names);
    assert_eq!(proc.sql_statements(), vec!["CREATE INDEX t_a_b_idx ON s.t USING btree (a,b);"]);
}

#[test]
fn attachments_wait_for_the_next_anchor() {
    let key = || DBObject::PrimaryKey(PrimaryKey { name: "k".to_string(), fields: vec!["id".to_string()] });
    let table = |name: &str| {
        let fields = vec![Field::new("id", &FieldAttributes::new(FieldType::Int))];
        DBObject::Table(Table::new(&ObjectPath::new_table("s", name), fields, None).unwrap())
    };
    let mut proc = Processor::new(Postgresql {});
    proc.add(key());
    proc.add(table("first"));
    proc.add(table("second"));
    proc.add(key());
    proc.add(DBObject::Schema(Schema::new("s", "o")));
    proc.add(table("third"));
    proc.add(key());
    assert_eq!(
        proc.sql_statements(),
        vec![
            "CREATE TABLE s.first (\n  id int NULL,\n  CONSTRAINT k_pk PRIMARY KEY (id)\n);".to_string(),
            "CREATE TABLE s.second (\n  id int NULL\n);".to_string(),
            "CREATE SCHEMA s AUTHORIZATION o;".to_string(),
            "CREATE TABLE s.third (\n  id int NULL\n);".to_string(),
        ]
    );
}

#[test]
fn statements_of_two_lists_one_after_the_other() {
    let table = |name: &str| {
        let fields = vec![Field::new("id", &FieldAttributes::new(FieldType::Int))];
        DBObject::Table(Table::new(&ObjectPath::new_table("s", name), fields, None).unwrap())
    };
    let first = vec![DBObject::Schema(Schema::new("s", "o")), table("a")];
    let second = vec![
        DBObject::Field(Field::new("extra", &FieldAttributes::new(FieldType::Txt))),
        table("b"),
        DBObject::Owner(Owner::new("o", &ObjectPath::new_table("s", "b"))),
    ];
    let mut both = first.clone();
    both.extend(second.iter().cloned());
    let one = Processor::new_with_objects(&first, Mysql {}).sql_statements();
    let two = Processor::new_with_objects(&second, Mysql {}).sql_statements();
    let all = Processor::new_with_objects(&both, Mysql {}).sql_statements();
    assert_eq!(all, [one, two].concat());
    assert_eq!(all.len(), 4);
    assert_eq!(all[2], "CREATE TABLE s.b (\n  id int NULL,\n  extra text NULL\n);");
}

#[test]
fn generator_keeps_every_text() {
    let mut generator = Generator::new(Sqlite {});
    assert!(generator.statements().is_empty());
    assert_eq!(generator.to_string(), "");
    generator.add(&DBObject::Schema(Schema::new("s", "o")));
    generator.add(&DBObject::Field(Field::new("role", &FieldAttributes::new(FieldType::Bool))));
    generator.add(&DBObject::Owner(Owner::new("o", &ObjectPath::new_table("s", "t"))));
    generator.add(&DBObject::Index(Index::new(&ObjectPath::new_table("s", "t"), &vec!["a".to_string()])));
    assert_eq!(
        generator.statements(),
        &vec![
            "".to_string(),
            "\"role\" integer NULL".to_string(),
            "".to_string(),
            "CREATE INDEX t_a_idx ON t (a);".to_string(),
        ]
    );
    assert_eq!(generator.to_string(), "\n\"role\" integer NULL\n\nCREATE INDEX t_a_idx ON t (a);");
}

#[test]
fn default_processor_renders_for_postgresql() {
    let mut proc: Processor<Postgresql> = Processor::default();
    assert!(proc.objects().is_empty());
    proc.add_grant(GrantType::All, "rw_user", &ObjectPath::new_sequence("s", "q"));
    assert_eq!(proc.sql_statements(), vec!["GRANT ALL ON SEQUENCE s.q TO rw_user;"]);
    let boxed: Box<dyn TypeWriter> = Box::new(Mysql {});
    let mut chosen = Processor::new(boxed);
    chosen.add_grant(GrantType::All, "rw_user", &ObjectPath::new_sequence("s", "q"));
    chosen.add_grant(GrantType::All, "rw_user", &ObjectPath::new_table("s", "t"));
    assert_eq!(chosen.sql_statements(), vec!["GRANT ALL ON TABLE s.t TO rw_user;"]);
}
